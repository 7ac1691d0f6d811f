//! The selection cache: the two datasets, loaded once and read ever after.
//!
//! A cache exists only once both datasets are loaded. There is no way to make
//! one that is not ready, and none to change one: requests share it by
//! reference and pick from it without coordination.

use vstd::prelude::*;
use crate::asset::{FactRecord, ImageAsset};
use crate::config::Config;
use crate::dataset::{Dataset, EmptyDatasetError};
use crate::loader::{facts_of, image_warnings_of, images_of, is_facts_warning, load_facts,
    load_images, DirectoryScan, FactsFile, LoadWarning, LoadWarningView};

verus! {

/// The images and the facts that requests pick from.
pub struct SelectionCache {
    images: Dataset<ImageAsset>,
    facts: Dataset<FactRecord>,
}

/// The warning that follows the first `count` warnings, if one does.
pub open spec fn warning_after(warnings: Seq<LoadWarningView>, count: int) -> Option<
    LoadWarningView,
> {
    if 0 <= count < warnings.len() {
        Some(warnings[count])
    } else {
        None
    }
}

impl SelectionCache {
    /// Loads both datasets and gives the cache that holds them, with the
    /// warnings to log: those of the images first, then that of the facts.
    /// This cannot fail: what could not be loaded is missing from the cache
    /// and named in a warning.
    pub fn initialize(scan: DirectoryScan, facts_file: FactsFile) -> (ready: (
        SelectionCache,
        Vec<LoadWarning>,
    ))
        ensures
            ready.0.images().deep_view() == images_of(scan@),
            ready.0.facts().deep_view() == facts_of(facts_file@),
            ready.1.deep_view().take(image_warnings_of(scan@).len() as int) == image_warnings_of(
                scan@,
            ),
            ready.1.len() <= image_warnings_of(scan@).len() + 1,
            is_facts_warning(
                facts_file@,
                warning_after(ready.1.deep_view(), image_warnings_of(scan@).len() as int),
            ),
    {
        let (images, mut warnings) = load_images(scan);
        let (facts, facts_warning) = load_facts(facts_file);
        match facts_warning {
            Some(warning) => {
                warnings.push(warning);
            },
            None => {},
        }
        (SelectionCache { images, facts }, warnings)
    }

    /// The cache of two datasets that were loaded already.
    pub fn from_datasets(images: Dataset<ImageAsset>, facts: Dataset<FactRecord>) -> (cache:
        SelectionCache)
        ensures
            *cache.images() == images,
            *cache.facts() == facts,
    {
        SelectionCache { images, facts }
    }

    /// The images.
    #[verifier::when_used_as_spec(spec_images)]
    pub fn images(&self) -> (images: &Dataset<ImageAsset>)
        ensures
            images == self.spec_images(),
    {
        &self.images
    }

    /// The facts.
    #[verifier::when_used_as_spec(spec_facts)]
    pub fn facts(&self) -> (facts: &Dataset<FactRecord>)
        ensures
            facts == self.spec_facts(),
    {
        &self.facts
    }

    /// The image dataset, for contracts.
    pub closed spec fn spec_images(&self) -> &Dataset<ImageAsset> {
        &self.images
    }

    /// The fact dataset, for contracts.
    pub closed spec fn spec_facts(&self) -> &Dataset<FactRecord> {
        &self.facts
    }

    /// Picks an image at random. Only a cache without images refuses, and
    /// what is picked is one of its images.
    pub fn pick_random_image(&self) -> (picked: Result<&ImageAsset, EmptyDatasetError>)
        ensures
            self.images()@.len() == 0 <==> picked is Err,
            picked matches Ok(image) ==> self.images()@.contains(*image),
    {
        self.images.pick_random()
    }

    /// Picks a fact at random. Only a cache without facts refuses, and what
    /// is picked is one of its facts.
    pub fn pick_random_fact(&self) -> (picked: Result<&FactRecord, EmptyDatasetError>)
        ensures
            self.facts()@.len() == 0 <==> picked is Err,
            picked matches Ok(fact) ==> self.facts()@.contains(*fact),
    {
        self.facts.pick_random()
    }
}

/// What every request handler is given: the configuration and the cache.
/// Handlers get it by shared reference.
pub struct Data {
    pub config: Config,
    pub cache: SelectionCache,
}

} // verus!
