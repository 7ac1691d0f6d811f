//! A bot that answers with a random fox: a picture from a directory of
//! images or a fact from a file of facts.
//!
//! This library is the part that decides. It reads the display metadata off
//! an image's file name ([`metadata`]), builds the two datasets from what was
//! found in storage ([`loader`]), keeps them for the life of the process
//! ([`cache`]), picks from them at random ([`dataset`]) and composes the
//! answers ([`commands`], [`embed`]). It also settles the configuration
//! ([`config`]). It touches neither storage nor network: its callers read
//! and send, and hand over and take back plain values.

pub mod asset;
pub mod cache;
pub mod commands;
pub mod config;
pub mod dataset;
pub mod embed;
pub mod json;
pub mod loader;
pub mod metadata;
pub mod number;
pub mod text;
