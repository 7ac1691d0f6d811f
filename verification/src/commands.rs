//! The two commands: what the bot answers when asked for a fox or for a
//! fact.
//!
//! A command picks from the cache and composes its answer. It sends nothing:
//! the answer goes back to the caller as plain values.

use vstd::prelude::*;
use vstd::string::StringExecFns;
use crate::asset::{FactRecord, FactView, ImageAsset, ImageView};
use crate::cache::Data;
use crate::dataset::EmptyDatasetError;
use crate::embed::{create_error_embed, error_color, main_color, titled, Colour, Embed, EmbedView};
use crate::metadata::{display_name_of, id_of};
use crate::number::{decimal, push_decimal};
use crate::text::string_of;

verus! {

/// A file that goes with an answer, on loan from the cache.
pub struct Attachment<'a> {
    pub file_name: &'a str,
    pub data: &'a [u8],
}

/// An answer: an embed, perhaps a file, and whether only the asker sees it.
pub struct Reply<'a> {
    pub embed: Embed,
    pub attachment: Option<Attachment<'a>>,
    pub ephemeral: bool,
}

/// An attached file as contracts see it.
pub struct AttachmentView {
    pub file_name: Seq<char>,
    pub data: Seq<u8>,
}

/// An answer as contracts see it.
pub struct ReplyView {
    pub embed: EmbedView,
    pub attachment: Option<AttachmentView>,
    pub ephemeral: bool,
}

impl<'a> View for Reply<'a> {
    type V = ReplyView;

    open spec fn view(&self) -> ReplyView {
        ReplyView {
            embed: self.embed@,
            attachment: match self.attachment {
                Some(file) => Some(AttachmentView { file_name: file.file_name@, data: file.data@ }),
                None => None,
            },
            ephemeral: self.ephemeral,
        }
    }
}

/// The footer under a fox: who took the photo, and its identifier.
pub open spec fn fox_footer(photographer: Seq<char>, image_id: Seq<char>) -> Seq<char> {
    "Photo by "@ + photographer + " \u{e2}\u{20ac}\u{a2} ID: "@ + image_id
}

/// The address under which an embed finds a file attached to the same answer.
pub open spec fn attachment_url(file_name: Seq<char>) -> Seq<char> {
    "attachment://"@ + file_name
}

/// The embed that shows a fox.
pub open spec fn fox_embed(photographer: Seq<char>, image_id: Seq<char>, file_name: Seq<char>)
    -> EmbedView {
    EmbedView {
        title: Some("Random Fox"@),
        description: Some("Here's a beautiful fox for you!"@),
        colour: Some(main_color()),
        footer: Some(fox_footer(photographer, image_id)),
        image: Some(attachment_url(file_name)),
    }
}

/// The footer under a fact: its number.
pub open spec fn fact_footer(fact_id: u32) -> Seq<char> {
    "Fact #"@ + decimal(fact_id as nat)
}

/// The embed that tells a fact.
pub open spec fn fact_embed(fact: Seq<char>, fact_id: u32) -> EmbedView {
    EmbedView {
        title: Some("Fox Fact"@),
        description: Some(fact),
        colour: Some(main_color()),
        footer: Some(fact_footer(fact_id)),
        image: None,
    }
}

/// The answer that shows an image: the fox embed, labelled with the image's
/// display name and identifier, and the image itself attached.
pub open spec fn fox_reply_for(image: ImageView) -> ReplyView {
    ReplyView {
        embed: fox_embed(
            display_name_of(image.file_name),
            id_of(image.file_name),
            image.file_name,
        ),
        attachment: Some(AttachmentView { file_name: image.file_name, data: image.data }),
        ephemeral: false,
    }
}

/// The answer where there is no image to show. Only the asker sees it.
pub open spec fn no_fox_reply() -> ReplyView {
    ReplyView {
        embed: titled("Error"@, "No fox images found in the directory!"@, error_color()),
        attachment: None,
        ephemeral: true,
    }
}

/// The answer that tells a fact.
pub open spec fn fact_reply_for(fact: FactView) -> ReplyView {
    ReplyView { embed: fact_embed(fact.fact, fact.id), attachment: None, ephemeral: false }
}

/// The answer where there is no fact to tell.
pub open spec fn no_fact_reply() -> ReplyView {
    ReplyView {
        embed: titled("Error"@, "No fox facts available!"@, error_color()),
        attachment: None,
        ephemeral: false,
    }
}

/// The answer to a command that failed with `message`. Only the asker sees
/// it.
pub open spec fn command_error_reply_for(message: Seq<char>) -> ReplyView {
    ReplyView {
        embed: titled("Command Error"@, "Error: "@ + message, error_color()),
        attachment: None,
        ephemeral: true,
    }
}

/// Composes the embed that shows a fox.
pub fn create_fox_embed(photographer: &str, image_id: &str, filename: &str) -> (embed: Embed)
    ensures
        embed@ == fox_embed(photographer@, image_id@, filename@),
{
    let mut footer = String::from_str("Photo by ");
    footer.append(photographer);
    footer.append(" \u{e2}\u{20ac}\u{a2} ID: ");
    footer.append(image_id);
    let mut image = String::from_str("attachment://");
    image.append(filename);
    Embed {
        title: Some(String::from_str("Random Fox")),
        description: Some(String::from_str("Here's a beautiful fox for you!")),
        colour: Some(Colour { r: 222, g: 165, b: 132 }),
        footer: Some(footer),
        image: Some(image),
    }
}

/// Composes the embed that tells a fact.
pub fn create_fact_embed(fact: &str, fact_id: u32) -> (embed: Embed)
    ensures
        embed@ == fact_embed(fact@, fact_id),
{
    let mut digits: Vec<char> = Vec::new();
    push_decimal(&mut digits, fact_id as u64);
    let number = string_of(digits.as_slice());
    let mut footer = String::from_str("Fact #");
    footer.append(number.as_str());
    Embed {
        title: Some(String::from_str("Fox Fact")),
        description: Some(String::from_str(fact)),
        colour: Some(Colour { r: 222, g: 165, b: 132 }),
        footer: Some(footer),
        image: None,
    }
}

/// The answer to a request for a fox, given what the pick came back with.
pub fn fox_reply<'a>(picked: Result<&'a ImageAsset, EmptyDatasetError>) -> (reply: Reply<'a>)
    ensures
        reply@ == match picked {
            Ok(image) => fox_reply_for(image@),
            Err(_) => no_fox_reply(),
        },
{
    match picked {
        Ok(image) => Reply {
            embed: create_fox_embed(image.display_name(), image.id(), image.file_name()),
            attachment: Some(Attachment { file_name: image.file_name(), data: image.data() }),
            ephemeral: false,
        },
        Err(_) => Reply {
            embed: create_error_embed("Error", "No fox images found in the directory!"),
            attachment: None,
            ephemeral: true,
        },
    }
}

/// The answer to a request for a fact, given what the pick came back with.
pub fn fact_reply<'a>(picked: Result<&'a FactRecord, EmptyDatasetError>) -> (reply: Reply<'a>)
    ensures
        reply@ == match picked {
            Ok(fact) => fact_reply_for(fact@),
            Err(_) => no_fact_reply(),
        },
{
    match picked {
        Ok(record) => Reply {
            embed: create_fact_embed(record.fact.as_str(), record.id),
            attachment: None,
            ephemeral: false,
        },
        Err(_) => Reply {
            embed: create_error_embed("Error", "No fox facts available!"),
            attachment: None,
            ephemeral: false,
        },
    }
}

/// Answers a request for a fox: one image of the cache, picked at random, or
/// the word that there is none.
pub fn fox<'a>(data: &'a Data) -> (reply: Reply<'a>)
    ensures
        data.cache.images()@.len() == 0 ==> reply@ == no_fox_reply(),
        data.cache.images()@.len() > 0 ==> exists|i: int|
            0 <= i < data.cache.images()@.len() && reply@ == fox_reply_for(
                (#[trigger] data.cache.images()@[i])@,
            ),
{
    fox_reply(data.cache.pick_random_image())
}

/// Answers a request for a fact: one fact of the cache, picked at random, or
/// the word that there is none.
pub fn fact<'a>(data: &'a Data) -> (reply: Reply<'a>)
    ensures
        data.cache.facts()@.len() == 0 ==> reply@ == no_fact_reply(),
        data.cache.facts()@.len() > 0 ==> exists|i: int|
            0 <= i < data.cache.facts()@.len() && reply@ == fact_reply_for(
                (#[trigger] data.cache.facts()@[i])@,
            ),
{
    fact_reply(data.cache.pick_random_fact())
}

/// The answer to a command that failed, showing the error's message.
pub fn command_error_reply(message: &str) -> (reply: Reply<'static>)
    ensures
        reply@ == command_error_reply_for(message@),
{
    let mut description = String::from_str("Error: ");
    description.append(message);
    Reply {
        embed: create_error_embed("Command Error", description.as_str()),
        attachment: None,
        ephemeral: true,
    }
}

} // verus!
