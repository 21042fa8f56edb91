//! The application-state snapshot: the static settings request handlers
//! need, built fresh on every configuration change.
//!
//! The other half of the snapshot, the storage pool, is an outside value
//! with a trait-bounded generic that verification cannot carry; the
//! unverified shell opens it, runs the schema migrations, and keeps it
//! paired with this snapshot. There is no partially-initialized state: a
//! failure to connect or to migrate never produces a snapshot.

use vstd::prelude::*;

verus! {

/// The immutable bundle handed to the router builder.
#[derive(Clone)]
pub struct State {
    images_base_path: String,
}

/// The state as contracts see it.
pub struct StateModel {
    pub images_base_path: Seq<char>,
}

impl View for State {
    type V = StateModel;

    closed spec fn view(&self) -> StateModel {
        StateModel { images_base_path: self.images_base_path@ }
    }
}

impl State {
    /// Bundles the static settings of a fresh configuration snapshot.
    pub fn new(images_base_path: String) -> (s: State)
        ensures
            s@.images_base_path == images_base_path@,
    {
        State { images_base_path }
    }

    /// Where uploaded files are kept.
    pub fn images_base_path(&self) -> (r: &str)
        ensures
            r@ == self@.images_base_path,
    {
        self.images_base_path.as_str()
    }
}

} // verus!
