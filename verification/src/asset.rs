//! What the datasets hold: images with their display metadata, and facts.

use vstd::prelude::*;
use crate::metadata::{display_name_of, id_of, parse_filename};

verus! {

/// An image as contracts see it. Its display name and identifier are no part
/// of this: they follow from the file name.
pub struct ImageView {
    pub file_name: Seq<char>,
    pub data: Seq<u8>,
}

/// One image: the name of its file, the file's bytes, and the display name
/// and identifier that the file name gives. Nothing changes after it is made.
pub struct ImageAsset {
    file_name: String,
    data: Vec<u8>,
    display_name: String,
    id: String,
}

impl View for ImageAsset {
    type V = ImageView;

    closed spec fn view(&self) -> ImageView {
        ImageView { file_name: self.file_name@, data: self.data@ }
    }
}

impl DeepView for ImageAsset {
    type V = ImageView;

    open spec fn deep_view(&self) -> ImageView {
        self@
    }
}

impl ImageAsset {
    /// The metadata held is the metadata of the file name.
    #[verifier::type_invariant]
    spec fn labelled(self) -> bool {
        &&& self.display_name@ == display_name_of(self.file_name@)
        &&& self.id@ == id_of(self.file_name@)
    }

    /// The image of a file with this name and these bytes.
    pub fn new(file_name: String, data: Vec<u8>) -> (asset: Self)
        ensures
            asset@ == (ImageView { file_name: file_name@, data: data@ }),
    {
        let (display_name, id) = parse_filename(file_name.as_str());
        ImageAsset { file_name, data, display_name, id }
    }

    /// The name of the file, which identifies the image within its dataset.
    pub fn file_name(&self) -> (name: &str)
        ensures
            name@ == self@.file_name,
    {
        self.file_name.as_str()
    }

    /// The bytes of the file.
    pub fn data(&self) -> (bytes: &[u8])
        ensures
            bytes@ == self@.data,
    {
        self.data.as_slice()
    }

    /// The contributor's name, as the file name gives it.
    pub fn display_name(&self) -> (name: &str)
        ensures
            name@ == display_name_of(self@.file_name),
    {
        proof {
            use_type_invariant(self);
        }
        self.display_name.as_str()
    }

    /// The identifier, as the file name gives it.
    pub fn id(&self) -> (id: &str)
        ensures
            id@ == id_of(self@.file_name),
    {
        proof {
            use_type_invariant(self);
        }
        self.id.as_str()
    }
}

/// A fact as contracts see it.
pub struct FactView {
    pub id: u32,
    pub fact: Seq<char>,
}

/// One fact: its number and its text, kept as they were read.
#[derive(Debug, Clone)]
pub struct FactRecord {
    pub id: u32,
    pub fact: String,
}

impl View for FactRecord {
    type V = FactView;

    open spec fn view(&self) -> FactView {
        FactView { id: self.id, fact: self.fact@ }
    }
}

impl DeepView for FactRecord {
    type V = FactView;

    open spec fn deep_view(&self) -> FactView {
        self@
    }
}

} // verus!
