//! The image record the services pass around: an identifier, the path of the
//! stored file, and the moment of the last update, held as the text the
//! storage keeps it in.

use vstd::prelude::*;

verus! {

/// One stored image's record.
#[derive(Clone, Debug)]
pub struct Image {
    id: i64,
    path: String,
    updated_on: String,
}

/// The record as contracts see it.
pub struct ImageModel {
    pub id: i64,
    pub path: Seq<char>,
    pub updated_on: Seq<char>,
}

impl View for Image {
    type V = ImageModel;

    closed spec fn view(&self) -> ImageModel {
        ImageModel { id: self.id, path: self.path@, updated_on: self.updated_on@ }
    }
}

impl PartialEq for Image {
    fn eq(&self, other: &Image) -> (r: bool) {
        self.id == other.id && self.path == other.path && self.updated_on == other.updated_on
    }
}

impl vstd::std_specs::cmp::PartialEqSpecImpl for Image {
    open spec fn obeys_eq_spec() -> bool {
        true
    }

    open spec fn eq_spec(&self, other: &Image) -> bool {
        self@ == other@
    }
}

impl Image {
    /// A record from its parts.
    pub fn new(id: i64, path: String, updated_on: String) -> (r: Image)
        ensures
            r@.id == id,
            r@.path == path@,
            r@.updated_on == updated_on@,
    {
        Image { id, path, updated_on }
    }

    /// The record's identifier.
    pub fn id(&self) -> (r: i64)
        ensures
            r == self@.id,
    {
        self.id
    }

    /// Where the stored file lives.
    pub fn path(&self) -> (r: &str)
        ensures
            r@ == self@.path,
    {
        self.path.as_str()
    }

    /// When the record was last updated.
    pub fn updated_on(&self) -> (r: &str)
        ensures
            r@ == self@.updated_on,
    {
        self.updated_on.as_str()
    }
}

} // verus!
