//! Building the two datasets from what was found in storage.
//!
//! Reading a directory or a file is the caller's part. It hands over what it
//! found, failures included, and gets back a dataset and the warnings to log.
//! No input makes loading fail: what cannot be used is left out and named in
//! a warning.

use vstd::prelude::*;
use vstd::std_specs::iter::IteratorSpec;
use vstd::string::StringExecFns;
use crate::asset::{FactRecord, FactView, ImageAsset, ImageView};
use crate::dataset::Dataset;
use crate::json::{error_message, json_elements, json_of, jsons_of, member, member_of,
    parse_array, text_in, unsigned_in, Json};
use crate::metadata::{image_extension, stem_of};
use crate::number::{decimal, push_decimal};
use crate::text::{chars_of, ends_with, has_suffix, lemma_without_suffix, string_of};

verus! {

/// Something that went wrong while loading and was got over.
#[derive(Debug, Clone)]
pub enum LoadWarning {
    /// The image directory does not exist.
    DirectoryMissing,
    /// The image directory exists but could not be listed.
    DirectoryUnreadable { reason: String },
    /// One image file could not be read; the others are not affected.
    FileUnreadable { file_name: String, reason: String },
    /// The facts file is missing or could not be read.
    FactsUnreadable { reason: String },
    /// The facts file does not hold one JSON array.
    FactsNotAnArray { reason: String },
    /// The element at `index` of the facts array is no fact record.
    FactsRecordMalformed { index: usize },
}

/// A warning as contracts see it.
pub enum LoadWarningView {
    DirectoryMissing,
    DirectoryUnreadable { reason: Seq<char> },
    FileUnreadable { file_name: Seq<char>, reason: Seq<char> },
    FactsUnreadable { reason: Seq<char> },
    FactsNotAnArray { reason: Seq<char> },
    FactsRecordMalformed { index: usize },
}

impl View for LoadWarning {
    type V = LoadWarningView;

    open spec fn view(&self) -> LoadWarningView {
        match *self {
            LoadWarning::DirectoryMissing => LoadWarningView::DirectoryMissing,
            LoadWarning::DirectoryUnreadable { reason } => LoadWarningView::DirectoryUnreadable {
                reason: reason@,
            },
            LoadWarning::FileUnreadable { file_name, reason } => LoadWarningView::FileUnreadable {
                file_name: file_name@,
                reason: reason@,
            },
            LoadWarning::FactsUnreadable { reason } => LoadWarningView::FactsUnreadable {
                reason: reason@,
            },
            LoadWarning::FactsNotAnArray { reason } => LoadWarningView::FactsNotAnArray {
                reason: reason@,
            },
            LoadWarning::FactsRecordMalformed { index } => LoadWarningView::FactsRecordMalformed {
                index,
            },
        }
    }
}

impl DeepView for LoadWarning {
    type V = LoadWarningView;

    open spec fn deep_view(&self) -> LoadWarningView {
        self@
    }
}

/// The line that tells of a warning.
pub open spec fn warning_text(warning: LoadWarningView) -> Seq<char> {
    match warning {
        LoadWarningView::DirectoryMissing => "Fox images directory not found!"@,
        LoadWarningView::DirectoryUnreadable { reason } => "Failed to read images directory: "@
            + reason,
        LoadWarningView::FileUnreadable { file_name, reason } => "Failed to load image "@
            + file_name + ": "@ + reason,
        LoadWarningView::FactsUnreadable { reason } => "Failed to load facts.json: "@ + reason,
        LoadWarningView::FactsNotAnArray { reason } => "Failed to parse facts.json: "@ + reason,
        LoadWarningView::FactsRecordMalformed { index } => "Failed to parse facts.json: element "@
            + decimal(index as nat) + " is not a fact record"@,
    }
}

impl LoadWarning {
    /// The line to log for this warning.
    pub fn message(&self) -> (text: String)
        ensures
            text@ == warning_text(self@),
    {
        match self {
            LoadWarning::DirectoryMissing => String::from_str("Fox images directory not found!"),
            LoadWarning::DirectoryUnreadable { reason } => {
                let mut text = String::from_str("Failed to read images directory: ");
                text.append(reason.as_str());
                text
            },
            LoadWarning::FileUnreadable { file_name, reason } => {
                let mut text = String::from_str("Failed to load image ");
                text.append(file_name.as_str());
                text.append(": ");
                text.append(reason.as_str());
                text
            },
            LoadWarning::FactsUnreadable { reason } => {
                let mut text = String::from_str("Failed to load facts.json: ");
                text.append(reason.as_str());
                text
            },
            LoadWarning::FactsNotAnArray { reason } => {
                let mut text = String::from_str("Failed to parse facts.json: ");
                text.append(reason.as_str());
                text
            },
            LoadWarning::FactsRecordMalformed { index } => {
                let mut digits: Vec<char> = Vec::new();
                push_decimal(&mut digits, *index as u64);
                let number = string_of(digits.as_slice());
                let mut text = String::from_str("Failed to parse facts.json: element ");
                text.append(number.as_str());
                text.append(" is not a fact record");
                text
            },
        }
    }
}

/// Where the images are looked for.
pub fn image_directory() -> (path: &'static str)
    ensures
        path@ == "images/foxes"@,
{
    "images/foxes"
}

/// Where the facts are looked for.
pub fn facts_file_name() -> (path: &'static str)
    ensures
        path@ == "facts.json"@,
{
    "facts.json"
}

/// One file of the image directory after the attempt to read it: its bytes,
/// or the reason why there are none.
pub struct FileRead {
    pub file_name: String,
    pub outcome: Result<Vec<u8>, String>,
}

/// A read file as contracts see it.
pub struct FileReadView {
    pub file_name: Seq<char>,
    pub outcome: Result<Seq<u8>, Seq<char>>,
}

impl View for FileRead {
    type V = FileReadView;

    open spec fn view(&self) -> FileReadView {
        FileReadView {
            file_name: self.file_name@,
            outcome: match self.outcome {
                Ok(data) => Ok(data@),
                Err(reason) => Err(reason@),
            },
        }
    }
}

impl DeepView for FileRead {
    type V = FileReadView;

    open spec fn deep_view(&self) -> FileReadView {
        self@
    }
}

/// What was found where the images should be.
pub enum DirectoryScan {
    /// There is no such directory.
    Missing,
    /// The directory is there but could not be listed.
    Unreadable { reason: String },
    /// The files that were read or tried, in the order the directory gave.
    Listed { files: Vec<FileRead> },
}

/// A scan as contracts see it.
pub enum DirectoryScanView {
    Missing,
    Unreadable { reason: Seq<char> },
    Listed { files: Seq<FileReadView> },
}

impl View for DirectoryScan {
    type V = DirectoryScanView;

    open spec fn view(&self) -> DirectoryScanView {
        match *self {
            DirectoryScan::Missing => DirectoryScanView::Missing,
            DirectoryScan::Unreadable { reason } => DirectoryScanView::Unreadable {
                reason: reason@,
            },
            DirectoryScan::Listed { files } => DirectoryScanView::Listed {
                files: files.deep_view(),
            },
        }
    }
}

/// Whether a file of this name counts as an image: the name ends with the
/// image extension and something stands before it. A name that is the bare
/// extension has no extension at all.
pub open spec fn is_image_name(file_name: Seq<char>) -> bool {
    file_name.len() > image_extension().len() && ends_with(file_name, image_extension())
}

/// An image name is a stem that is not empty, followed by the extension.
pub proof fn lemma_image_name_stem(file_name: Seq<char>)
    requires
        is_image_name(file_name),
    ensures
        file_name == stem_of(file_name) + image_extension(),
        stem_of(file_name).len() > 0,
{
    lemma_without_suffix(file_name, image_extension());
}

/// The images that the files give: one for each file with an image name that
/// was read, in the order of the files.
pub open spec fn images_in(files: Seq<FileReadView>) -> Seq<ImageView>
    decreases files.len(),
{
    if files.len() == 0 {
        Seq::<ImageView>::empty()
    } else {
        let before = images_in(files.drop_last());
        let file = files.last();
        match file.outcome {
            Ok(data) if is_image_name(file.file_name) => before.push(
                ImageView { file_name: file.file_name, data },
            ),
            _ => before,
        }
    }
}

/// The warnings that the files give: one for each file with an image name
/// that could not be read, in the order of the files.
pub open spec fn failures_in(files: Seq<FileReadView>) -> Seq<LoadWarningView>
    decreases files.len(),
{
    if files.len() == 0 {
        Seq::<LoadWarningView>::empty()
    } else {
        let before = failures_in(files.drop_last());
        let file = files.last();
        match file.outcome {
            Err(reason) if is_image_name(file.file_name) => before.push(
                LoadWarningView::FileUnreadable { file_name: file.file_name, reason },
            ),
            _ => before,
        }
    }
}

/// The images that a scan gives.
pub open spec fn images_of(scan: DirectoryScanView) -> Seq<ImageView> {
    match scan {
        DirectoryScanView::Listed { files } => images_in(files),
        _ => Seq::<ImageView>::empty(),
    }
}

/// The warnings that a scan gives.
pub open spec fn image_warnings_of(scan: DirectoryScanView) -> Seq<LoadWarningView> {
    match scan {
        DirectoryScanView::Missing => seq![LoadWarningView::DirectoryMissing],
        DirectoryScanView::Unreadable { reason } => seq![
            LoadWarningView::DirectoryUnreadable { reason },
        ],
        DirectoryScanView::Listed { files } => failures_in(files),
    }
}

/// The places, among the files, of those that give an image, in order.
pub open spec fn image_sources(files: Seq<FileReadView>) -> Seq<int>
    decreases files.len(),
{
    if files.len() == 0 {
        Seq::<int>::empty()
    } else {
        let before = image_sources(files.drop_last());
        let file = files.last();
        if file.outcome is Ok && is_image_name(file.file_name) {
            before.push(files.len() - 1)
        } else {
            before
        }
    }
}

/// Each image stands for one file that was read and has an image name, and
/// the images keep the order of their files: the image at `k` has the name
/// and the bytes of the file at `image_sources(files)[k]`, and these places
/// rise with `k`.
pub proof fn lemma_image_sources(files: Seq<FileReadView>)
    ensures
        image_sources(files).len() == images_in(files).len(),
        forall|k: int|
            0 <= k < images_in(files).len() ==> {
                let at = #[trigger] image_sources(files)[k];
                &&& 0 <= at < files.len()
                &&& is_image_name(files[at].file_name)
                &&& files[at].file_name == images_in(files)[k].file_name
                &&& files[at].outcome == Ok::<Seq<u8>, Seq<char>>(images_in(files)[k].data)
            },
        forall|j: int, k: int|
            0 <= j < k < images_in(files).len() ==> image_sources(files)[j] < image_sources(
                files,
            )[k],
    decreases files.len(),
{
    if files.len() > 0 {
        lemma_image_sources(files.drop_last());
    }
}

/// No file is lost and none is counted twice: there are no more images and
/// warnings together than files, and where every file has an image name each
/// file gives an image or a warning.
pub proof fn lemma_load_counts(files: Seq<FileReadView>)
    ensures
        images_in(files).len() + failures_in(files).len() <= files.len(),
        (forall|i: int| 0 <= i < files.len() ==> is_image_name(#[trigger] files[i].file_name))
            ==> images_in(files).len() + failures_in(files).len() == files.len(),
    decreases files.len(),
{
    if files.len() > 0 {
        lemma_load_counts(files.drop_last());
        assert forall|i: int| 0 <= i < files.drop_last().len() implies files.drop_last()[i]
            == files[i] by {}
    }
}

/// Files with different names give images with different names: a file name
/// identifies an image within the dataset whenever it identifies a file
/// within the directory.
pub proof fn lemma_image_names_distinct(files: Seq<FileReadView>)
    requires
        forall|i: int, j: int|
            0 <= i < j < files.len() ==> files[i].file_name != files[j].file_name,
    ensures
        forall|j: int, k: int|
            0 <= j < k < images_in(files).len() ==> images_in(files)[j].file_name != images_in(
                files,
            )[k].file_name,
{
    lemma_image_sources(files);
    assert forall|j: int, k: int| 0 <= j < k < images_in(files).len() implies images_in(
        files,
    )[j].file_name != images_in(files)[k].file_name by {
        let from = image_sources(files)[j];
        let to = image_sources(files)[k];
    }
}

/// Whether an entry of the image directory is to be read: it is a regular
/// file and its name is an image name.
pub fn is_image_file(file_name: &str, is_file: bool) -> (wanted: bool)
    ensures
        wanted == (is_file && is_image_name(file_name@)),
{
    if !is_file {
        return false;
    }
    let name = chars_of(file_name);
    let extension = chars_of(".jpg");
    name.len() > extension.len() && has_suffix(name.as_slice(), extension.as_slice())
}

/// Builds the image dataset from a scan of the image directory. A missing or
/// unreadable directory gives an empty dataset and one warning. Of a listed
/// directory every image file that was read becomes an image, each file that
/// could not be read becomes a warning, and files that are no images are
/// passed over.
pub fn load_images(scan: DirectoryScan) -> (loaded: (Dataset<ImageAsset>, Vec<LoadWarning>))
    ensures
        loaded.0.deep_view() == images_of(scan@),
        loaded.1.deep_view() == image_warnings_of(scan@),
        scan is Missing ==> loaded.0@.len() == 0 && loaded.1.deep_view() == seq![
            LoadWarningView::DirectoryMissing,
        ],
{
    let mut images: Vec<ImageAsset> = Vec::new();
    let mut warnings: Vec<LoadWarning> = Vec::new();
    match scan {
        DirectoryScan::Missing => {
            warnings.push(LoadWarning::DirectoryMissing);
        },
        DirectoryScan::Unreadable { reason } => {
            warnings.push(LoadWarning::DirectoryUnreadable { reason });
            assert(warnings.deep_view() =~= seq![
                LoadWarningView::DirectoryUnreadable { reason: reason@ },
            ]);
        },
        DirectoryScan::Listed { files } => {
            let ghost all = files.deep_view();
            for file in it: files.into_iter()
                invariant
                    it.seq() == files@,
                    all == files.deep_view(),
                    images.deep_view() == images_in(all.take(it.index() as int)),
                    warnings.deep_view() == failures_in(all.take(it.index() as int)),
            {
                let ghost done = it.index() as int;
                assert(all.take(done + 1).drop_last() =~= all.take(done));
                let ghost images_before = images.deep_view();
                let ghost warnings_before = warnings.deep_view();
                if is_image_file(file.file_name.as_str(), true) {
                    match file.outcome {
                        Ok(data) => {
                            images.push(ImageAsset::new(file.file_name, data));
                            assert(images.deep_view() =~= images_before.push(
                                ImageView { file_name: file.file_name@, data: data@ },
                            ));
                        },
                        Err(reason) => {
                            warnings.push(
                                LoadWarning::FileUnreadable { file_name: file.file_name, reason },
                            );
                            assert(warnings.deep_view() =~= warnings_before.push(
                                LoadWarningView::FileUnreadable {
                                    file_name: file.file_name@,
                                    reason: reason@,
                                },
                            ));
                        },
                    }
                }
            }
            assert(all.take(all.len() as int) =~= all);
        },
    }
    (Dataset::from_vec(images), warnings)
}

/// The fact that a number and a text give, where both are there and the
/// number fits an identifier.
pub open spec fn record_from(id: Option<u64>, fact: Option<Seq<char>>) -> Option<FactView> {
    match (id, fact) {
        (Some(number), Some(text)) if number <= u32::MAX => Some(
            FactView { id: number as u32, fact: text },
        ),
        _ => None,
    }
}

/// The fact that a JSON value spells: the value is an object whose member
/// `id` is an unsigned integer that fits 32 bits and whose member `fact` is a
/// string. Other members are not looked at.
pub open spec fn record_of(json: Json) -> Option<FactView> {
    record_from(
        match member_of(json, "id"@) {
            Some(id) => unsigned_in(id),
            None => None,
        },
        match member_of(json, "fact"@) {
            Some(fact) => text_in(fact),
            None => None,
        },
    )
}

/// Whether every value spells a fact.
pub open spec fn all_records(elements: Seq<Json>) -> bool {
    forall|i: int| 0 <= i < elements.len() ==> (#[trigger] record_of(elements[i])) is Some
}

/// Whether `index` is the place of the first value that spells no fact.
pub open spec fn is_first_malformed(elements: Seq<Json>, index: int) -> bool {
    &&& 0 <= index < elements.len()
    &&& record_of(elements[index]) is None
    &&& all_records(elements.take(index))
}

/// The facts that the values spell, in their order. This says something only
/// where every value spells one.
pub open spec fn records_of(elements: Seq<Json>) -> Seq<FactView> {
    elements.map_values(|json: Json| record_of(json).unwrap())
}

/// The facts that a text holds: the text is one JSON array and each of its
/// elements spells a fact. A text that is anything else holds none, not even
/// those of its records that are in order.
pub open spec fn facts_in(text: Seq<char>) -> Option<Seq<FactView>> {
    match json_elements(text) {
        Some(elements) if all_records(elements) => Some(records_of(elements)),
        _ => None,
    }
}

impl FactRecord {
    /// The fact with this number and this text, where both are there and the
    /// number fits.
    pub fn from_fields(id: Option<u64>, fact: Option<&str>) -> (record: Option<FactRecord>)
        ensures
            record.deep_view() == record_from(
                id,
                match fact {
                    Some(text) => Some(text@),
                    None => None,
                },
            ),
    {
        match (id, fact) {
            (Some(number), Some(text)) => {
                if number <= 0xffff_ffff {
                    Some(FactRecord { id: number as u32, fact: text.to_string() })
                } else {
                    None
                }
            },
            _ => None,
        }
    }

    /// The fact that a JSON value spells, if it spells one.
    pub fn from_json(value: &serde_json::Value) -> (record: Option<FactRecord>)
        ensures
            record.deep_view() == record_of(json_of(*value)),
    {
        match (member(value, "id"), member(value, "fact")) {
            (Some(id), Some(fact)) => FactRecord::from_fields(id.as_u64(), fact.as_str()),
            _ => None,
        }
    }
}

/// The facts that the values spell, or the place of the first value that
/// spells none.
pub fn records_from_values(values: &Vec<serde_json::Value>) -> (read: Result<
    Vec<FactRecord>,
    usize,
>)
    ensures
        match read {
            Ok(records) => all_records(jsons_of(values@)) && records.deep_view() == records_of(
                jsons_of(values@),
            ),
            Err(index) => is_first_malformed(jsons_of(values@), index as int),
        },
{
    let ghost elements = jsons_of(values@);
    let mut records: Vec<FactRecord> = Vec::new();
    let mut i: usize = 0;
    while i < values.len()
        invariant
            i <= values.len(),
            elements == jsons_of(values@),
            all_records(elements.take(i as int)),
            records.deep_view() == records_of(elements.take(i as int)),
        decreases values.len() - i,
    {
        let ghost before = records.deep_view();
        match FactRecord::from_json(&values[i]) {
            Some(record) => {
                records.push(record);
                assert(records.deep_view() =~= before.push(record@));
                assert forall|j: int| 0 <= j < i + 1 implies (#[trigger] record_of(
                    elements.take(i + 1)[j],
                )) is Some by {
                    assert(j < i ==> elements.take(i as int)[j] == elements.take(i + 1)[j]);
                }
            },
            None => {
                return Err(i);
            },
        }
        i += 1;
    }
    assert(elements.take(i as int) =~= elements);
    Ok(records)
}

/// Reads the facts out of the text of a facts file. The text either gives all
/// its facts or, with the reason, none.
pub fn parse_facts(text: &str) -> (parsed: Result<Vec<FactRecord>, LoadWarning>)
    ensures
        match parsed {
            Ok(records) => facts_in(text@) == Some(records.deep_view()),
            Err(warning) => {
                &&& facts_in(text@) is None
                &&& match json_elements(text@) {
                    None => warning is FactsNotAnArray,
                    Some(elements) => warning matches LoadWarning::FactsRecordMalformed { index }
                        && is_first_malformed(elements, index as int),
                }
            },
        },
{
    match parse_array(text) {
        Ok(values) => match records_from_values(&values) {
            Ok(records) => Ok(records),
            Err(index) => Err(LoadWarning::FactsRecordMalformed { index }),
        },
        Err(error) => Err(LoadWarning::FactsNotAnArray { reason: error_message(&error) }),
    }
}

/// What was found where the facts should be.
pub enum FactsFile {
    /// The file is missing or could not be read.
    Unreadable { reason: String },
    /// The file was read and holds this text.
    Read { text: String },
}

/// The outcome of reading the facts file as contracts see it.
pub enum FactsFileView {
    Unreadable { reason: Seq<char> },
    Read { text: Seq<char> },
}

impl View for FactsFile {
    type V = FactsFileView;

    open spec fn view(&self) -> FactsFileView {
        match *self {
            FactsFile::Unreadable { reason } => FactsFileView::Unreadable { reason: reason@ },
            FactsFile::Read { text } => FactsFileView::Read { text: text@ },
        }
    }
}

/// The facts that the facts file gives: those that its text holds, and none
/// where it could not be read or its text holds none.
pub open spec fn facts_of(file: FactsFileView) -> Seq<FactView> {
    match file {
        FactsFileView::Read { text } => match facts_in(text) {
            Some(facts) => facts,
            None => Seq::<FactView>::empty(),
        },
        FactsFileView::Unreadable { .. } => Seq::<FactView>::empty(),
    }
}

/// Whether `warning` is what loading the facts file is to warn of: nothing
/// where the text holds facts, else the one thing that stood in the way. The
/// parser's own words for a text that is no JSON array are left open.
pub open spec fn is_facts_warning(file: FactsFileView, warning: Option<LoadWarningView>) -> bool {
    match file {
        FactsFileView::Unreadable { reason } => warning == Some(
            LoadWarningView::FactsUnreadable { reason },
        ),
        FactsFileView::Read { text } => match json_elements(text) {
            None => warning matches Some(LoadWarningView::FactsNotAnArray { .. }),
            Some(elements) => if all_records(elements) {
                warning is None
            } else {
                warning matches Some(LoadWarningView::FactsRecordMalformed { index })
                    && is_first_malformed(elements, index as int)
            },
        },
    }
}

/// The facts of a file are whole or there are none: either every element of
/// the array gave its fact, in order, or the dataset is empty. A part of the
/// records is never loaded.
pub proof fn lemma_facts_whole_or_none(file: FactsFileView)
    ensures
        facts_of(file).len() == 0 || (file matches FactsFileView::Read { text } && json_elements(
            text,
        ) matches Some(elements) && all_records(elements) && facts_of(file) == records_of(
            elements,
        ) && facts_of(file).len() == elements.len()),
{
}

/// Builds the fact dataset from what became of reading the facts file. A
/// file that could not be read and a text that does not hold facts both give
/// an empty dataset and a warning; a text that holds facts gives them all,
/// and no warning.
pub fn load_facts(file: FactsFile) -> (loaded: (Dataset<FactRecord>, Option<LoadWarning>))
    ensures
        loaded.0.deep_view() == facts_of(file@),
        is_facts_warning(file@, loaded.1.deep_view()),
        file matches FactsFile::Read { text } && facts_in(text@) is None ==> loaded.0@.len() == 0
            && loaded.1 is Some,
{
    match file {
        FactsFile::Read { text } => match parse_facts(text.as_str()) {
            Ok(records) => (Dataset::from_vec(records), None),
            Err(warning) => (Dataset::empty(), Some(warning)),
        },
        FactsFile::Unreadable { reason } => (
            Dataset::empty(),
            Some(LoadWarning::FactsUnreadable { reason }),
        ),
    }
}

} // verus!
