//! Embeds: the framed blocks in which the bot answers.
//!
//! An embed is held here as plain values. Whoever sends it turns it into the
//! chat platform's own type.

use vstd::prelude::*;
use vstd::string::StringExecFns;

verus! {

/// A colour by its red, green and blue parts.
#[derive(Debug, Clone, Copy, PartialEq, Eq, Structural)]
pub struct Colour {
    pub r: u8,
    pub g: u8,
    pub b: u8,
}

/// The colour of ordinary answers.
pub open spec fn main_color() -> Colour {
    Colour { r: 222, g: 165, b: 132 }
}

/// The colour of an answer that reports success.
pub open spec fn success_color() -> Colour {
    Colour { r: 87, g: 242, b: 135 }
}

/// The colour of an answer that reports an error.
pub open spec fn error_color() -> Colour {
    Colour { r: 237, g: 66, b: 69 }
}

/// The colour of an answer that warns.
pub open spec fn warning_color() -> Colour {
    Colour { r: 255, g: 221, b: 51 }
}

/// An embed: each part is there or not.
#[derive(Debug, Clone)]
pub struct Embed {
    pub title: Option<String>,
    pub description: Option<String>,
    pub colour: Option<Colour>,
    pub footer: Option<String>,
    pub image: Option<String>,
}

/// An embed as contracts see it.
pub struct EmbedView {
    pub title: Option<Seq<char>>,
    pub description: Option<Seq<char>>,
    pub colour: Option<Colour>,
    pub footer: Option<Seq<char>>,
    pub image: Option<Seq<char>>,
}

impl View for Embed {
    type V = EmbedView;

    open spec fn view(&self) -> EmbedView {
        EmbedView {
            title: self.title.deep_view(),
            description: self.description.deep_view(),
            colour: self.colour,
            footer: self.footer.deep_view(),
            image: self.image.deep_view(),
        }
    }
}

/// The embed with a title, a description and a colour, and nothing else.
pub open spec fn titled(title: Seq<char>, description: Seq<char>, colour: Colour) -> EmbedView {
    EmbedView {
        title: Some(title),
        description: Some(description),
        colour: Some(colour),
        footer: None,
        image: None,
    }
}

impl Embed {
    /// The embed with this title, this description and this colour.
    pub fn with_text(title: &str, description: &str, colour: Colour) -> (embed: Embed)
        ensures
            embed@ == titled(title@, description@, colour),
    {
        Embed {
            title: Some(String::from_str(title)),
            description: Some(String::from_str(description)),
            colour: Some(colour),
            footer: None,
            image: None,
        }
    }
}

/// The embed that carries nothing but the main colour.
pub fn create_basic_embed() -> (embed: Embed)
    ensures
        embed@ == (EmbedView {
            title: None,
            description: None,
            colour: Some(main_color()),
            footer: None,
            image: None,
        }),
{
    Embed {
        title: None,
        description: None,
        colour: Some(Colour { r: 222, g: 165, b: 132 }),
        footer: None,
        image: None,
    }
}

/// An embed in the main colour.
pub fn create_embed(title: &str, description: &str) -> (embed: Embed)
    ensures
        embed@ == titled(title@, description@, main_color()),
{
    Embed::with_text(title, description, Colour { r: 222, g: 165, b: 132 })
}

/// An embed that reports success.
pub fn create_success_embed(title: &str, description: &str) -> (embed: Embed)
    ensures
        embed@ == titled(title@, description@, success_color()),
{
    Embed::with_text(title, description, Colour { r: 87, g: 242, b: 135 })
}

/// An embed that reports an error.
pub fn create_error_embed(title: &str, description: &str) -> (embed: Embed)
    ensures
        embed@ == titled(title@, description@, error_color()),
{
    Embed::with_text(title, description, Colour { r: 237, g: 66, b: 69 })
}

/// An embed that warns.
pub fn create_warning_embed(title: &str, description: &str) -> (embed: Embed)
    ensures
        embed@ == titled(title@, description@, warning_color()),
{
    Embed::with_text(title, description, Colour { r: 255, g: 221, b: 51 })
}

/// An embed that informs: it looks like an ordinary one.
pub fn create_info_embed(title: &str, description: &str) -> (embed: Embed)
    ensures
        embed@ == titled(title@, description@, main_color()),
{
    create_embed(title, description)
}

} // verus!
