//! The registry of connected adapters: one adapter for each window of the
//! front end, found by the window's label.
//!
//! The registry owns what it holds. Whoever shares it between tasks puts it
//! behind a lock of their own.

use crate::error::AppError;
use crate::keyed::Keyed;
use vstd::prelude::*;
use vstd::string::*;

verus! {

/// The message for a lookup that finds no adapter.
pub open spec fn spec_not_bound_on_get() -> Seq<char> {
    "Unable to get_adapter. No connection bound to the window!"@
}

/// The message for a removal that finds no adapter.
pub open spec fn spec_not_bound_on_remove() -> Seq<char> {
    "Unable to remove_adapter. No connection bound to the window!"@
}

/// The adapters of the application, each bound to one window.
pub struct AppState<A> {
    adapters: Keyed<A>,
}

impl<A> View for AppState<A> {
    type V = Map<Seq<char>, A>;

    closed spec fn view(&self) -> Map<Seq<char>, A> {
        self.adapters@
    }
}

impl<A> AppState<A> {
    /// A registry in which no window has an adapter.
    pub fn new() -> (state: AppState<A>)
        ensures
            state@ == Map::<Seq<char>, A>::empty(),
    {
        AppState { adapters: Keyed::new() }
    }

    /// The adapter bound to the window labelled `label`.
    pub fn get_adapter(&self, label: &String) -> (found: Result<&A, AppError>)
        ensures
            self@.dom().contains(label@) ==> found is Ok && *found->Ok_0 == self@[label@],
            !self@.dom().contains(label@) ==> found is Err && found->Err_0@ == spec_not_bound_on_get(),
    {
        match self.adapters.get(label) {
            Some(adapter) => Ok(adapter),
            None => Err(AppError::new("Unable to get_adapter. No connection bound to the window!")),
        }
    }

    /// Binds `adapter` to the window labelled `label`, in place of the
    /// adapter that was bound to it, if any. Always returns `true`.
    pub fn set_adapter(&mut self, label: String, adapter: A) -> (done: bool)
        ensures
            done,
            final(self)@ == old(self)@.insert(label@, adapter),
    {
        self.adapters.insert(label, adapter);
        true
    }

    /// Takes the adapter bound to the window labelled `label` out of the
    /// registry. Where none is bound, the registry stays as it is.
    pub fn remove_adapter(&mut self, label: &String) -> (removed: Result<A, AppError>)
        ensures
            old(self)@.dom().contains(label@) ==> removed is Ok && removed->Ok_0 == old(self)@[label@]
                && final(self)@ == old(self)@.remove(label@),
            !old(self)@.dom().contains(label@) ==> removed is Err && removed->Err_0@
                == spec_not_bound_on_remove() && final(self)@ == old(self)@,
    {
        match self.adapters.remove(label) {
            Some(adapter) => Ok(adapter),
            None => Err(
                AppError::new("Unable to remove_adapter. No connection bound to the window!"),
            ),
        }
    }

    /// The number of windows that have an adapter.
    pub fn len(&self) -> (count: usize)
        ensures
            count == self@.dom().len(),
            self@.dom().finite(),
    {
        self.adapters.len()
    }
}

} // verus!
