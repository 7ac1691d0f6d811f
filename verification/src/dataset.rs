//! A dataset: a sequence fixed when it is built, from which one element can
//! be picked at random.

use vstd::prelude::*;

verus! {

/// The answer to a pick from a dataset that holds nothing.
#[derive(Debug, Clone, Copy, PartialEq, Eq, Structural)]
pub struct EmptyDatasetError;

/// An ordered collection that is built once and only read afterwards: no
/// method changes, adds or removes an element.
pub struct Dataset<T> {
    items: Vec<T>,
}

impl<T> View for Dataset<T> {
    type V = Seq<T>;

    closed spec fn view(&self) -> Seq<T> {
        self.items@
    }
}

impl<T: DeepView> DeepView for Dataset<T> {
    type V = Seq<T::V>;

    open spec fn deep_view(&self) -> Seq<T::V> {
        Seq::new(self@.len(), |i: int| self@[i].deep_view())
    }
}

/// `rand::seq::IndexedRandom::choose` on a slice, drawing from the generator
/// of the current thread (`rand::rng`): `None` for an empty slice, else a
/// reference to the element at an index below the length. Which index it is
/// depends on the generator, so two calls may differ.
#[verifier::external_body]
fn choose_uniform<T>(items: &[T]) -> (picked: Option<&T>)
    ensures
        items@.len() == 0 ==> picked is None,
        items@.len() > 0 ==> picked is Some,
        picked matches Some(item) ==> items@.contains(*item),
{
    rand::seq::IndexedRandom::choose(items, &mut rand::rng())
}

impl<T> Dataset<T> {
    /// The dataset without elements.
    pub fn empty() -> (dataset: Self)
        ensures
            dataset@ == Seq::<T>::empty(),
    {
        Dataset { items: Vec::new() }
    }

    /// The dataset of the given elements, in their order.
    pub fn from_vec(items: Vec<T>) -> (dataset: Self)
        ensures
            dataset@ == items@,
    {
        Dataset { items }
    }

    /// The number of elements.
    pub fn len(&self) -> (n: usize)
        ensures
            n == self@.len(),
    {
        self.items.len()
    }

    /// Whether there is no element.
    pub fn is_empty(&self) -> (none: bool)
        ensures
            none == (self@.len() == 0),
    {
        self.items.len() == 0
    }

    /// The element at `index`, if there is one.
    pub fn get(&self, index: usize) -> (item: Option<&T>)
        ensures
            index < self@.len() ==> item == Some(&self@[index as int]),
            index >= self@.len() ==> item is None,
    {
        if index < self.items.len() {
            Some(&self.items[index])
        } else {
            None
        }
    }

    /// The elements as a slice.
    pub fn as_slice(&self) -> (items: &[T])
        ensures
            items@ == self@,
    {
        self.items.as_slice()
    }

    /// What a pick amounts to, given what the draw came back with: the
    /// element drawn, or the refusal where nothing was drawn.
    pub fn pick_outcome<'a>(drawn: Option<&'a T>) -> (picked: Result<&'a T, EmptyDatasetError>)
        ensures
            picked == match drawn {
                Some(item) => Ok::<&T, EmptyDatasetError>(item),
                None => Err::<&T, EmptyDatasetError>(EmptyDatasetError),
            },
    {
        match drawn {
            Some(item) => Ok(item),
            None => Err(EmptyDatasetError),
        }
    }

    /// Picks one element at random, each with the same chance. An empty
    /// dataset is refused, and only an empty one; what is picked is an
    /// element of the dataset. Picking leaves the dataset as it is.
    pub fn pick_random(&self) -> (picked: Result<&T, EmptyDatasetError>)
        ensures
            self@.len() == 0 <==> picked is Err,
            picked matches Ok(item) ==> self@.contains(*item),
    {
        Self::pick_outcome(choose_uniform(self.items.as_slice()))
    }
}

} // verus!
