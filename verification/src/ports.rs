//! The outgoing ports: what the services ask of the storage adapter, and the
//! errors the adapter can answer with. The adapter itself runs SQL and lives
//! in the unverified shell; tests drive the services with stand-ins.

use vstd::prelude::*;
use vstd::string::StringExecFns;

use crate::decimal::{join_decimals, joined_decimals};
use crate::domain::Image;

verus! {

/// What a single-record query can report.
#[derive(PartialEq, Eq, Structural, Clone, Copy, Debug)]
pub enum QueryError {
    RecordNotFound,
    InternalError,
}

impl QueryError {
    /// The error's wording.
    pub fn message(&self) -> (r: String)
        ensures
            self is RecordNotFound ==> r@ == "Record not found"@,
            self is InternalError ==> r@ == "Internal error"@,
    {
        match self {
            QueryError::RecordNotFound => String::from_str("Record not found"),
            QueryError::InternalError => String::from_str("Internal error"),
        }
    }
}

/// What a batch delete can report.
#[derive(PartialEq, Eq, Structural, Clone, Copy, Debug)]
pub enum BatchDeleteError {
    TooManyImagesToDelete,
    InternalError,
}

impl BatchDeleteError {
    /// The error's wording.
    pub fn message(&self) -> (r: String)
        ensures
            self is TooManyImagesToDelete ==> r@ == "Too many images to delete"@,
            self is InternalError ==> r@ == "Internal error"@,
    {
        match self {
            BatchDeleteError::TooManyImagesToDelete => String::from_str(
                "Too many images to delete",
            ),
            BatchDeleteError::InternalError => String::from_str("Internal error"),
        }
    }
}

/// What a single-record delete can report.
#[derive(PartialEq, Eq, Structural, Clone, Copy, Debug)]
pub enum DeleteImageError {
    RecordNotFound,
    InternalError,
}

impl DeleteImageError {
    /// The error's wording.
    pub fn message(&self) -> (r: String)
        ensures
            self is RecordNotFound ==> r@ == "Record not found"@,
            self is InternalError ==> r@ == "Internal error"@,
    {
        match self {
            DeleteImageError::RecordNotFound => String::from_str("Record not found"),
            DeleteImageError::InternalError => String::from_str("Internal error"),
        }
    }
}

/// What a batch delete through the combined storage trait can report.
#[derive(PartialEq, Eq, Structural, Clone, Copy, Debug)]
pub enum DeleteError {
    RecordNotFound,
    InternalError,
}

impl DeleteError {
    /// The error's wording.
    pub fn message(&self) -> (r: String)
        ensures
            self is RecordNotFound ==> r@ == "Record not found"@,
            self is InternalError ==> r@ == "Internal error"@,
    {
        match self {
            DeleteError::RecordNotFound => String::from_str("Record not found"),
            DeleteError::InternalError => String::from_str("Internal error"),
        }
    }
}

/// What an insert can report.
#[derive(PartialEq, Eq, Structural, Clone, Copy, Debug)]
pub enum InsertImageError {
    InternalError,
}

impl InsertImageError {
    /// The error's wording.
    pub fn message(&self) -> (r: String)
        ensures
            r@ == "Internal error"@,
    {
        String::from_str("Internal error")
    }
}

/// Looks one record up by its identifier.
pub trait QueryImagePort {
    fn query_image(&self, index: i64) -> Result<Image, QueryError>;
}

/// Reads a page of records, ordered by their update time.
pub trait BatchQueryImagesPort {
    fn query_images(&self, count: i64, offset: i64) -> Result<Vec<Image>, QueryError>;
}

/// Deletes one record and answers with the path of its file.
pub trait DeleteImagePort {
    fn delete_image(&self, index: i64) -> Result<String, DeleteImageError>;
}

/// Deletes a batch of records and answers with the paths of their files.
pub trait BatchDeleteImagePort {
    fn batch_delete_image(&self, indexes: Vec<i64>) -> Result<Vec<String>, BatchDeleteError>;
}

/// Inserts one record.
pub trait InsertImagePort {
    fn insert_image(&self, record: &Image) -> Result<(), InsertImageError>;
}

/// The combined storage interface, for services that need several of the
/// operations above from one handle.
pub trait ImagesDataStorage {
    fn query_images(&self, count: i64, offset: i64) -> Result<Vec<Image>, QueryError>;

    fn query_image(&self, index: i64) -> Result<Image, QueryError>;

    fn delete_image(&self, index: i64) -> Result<String, DeleteError>;

    fn batch_delete_image(&self, indexes: Vec<i64>) -> Result<Vec<String>, DeleteError>;

    fn insert_image(&self, record: &Image) -> Result<(), InsertImageError>;
}

/// The statement the storage adapter runs for a batch delete: every listed
/// identifier's row goes, and the paths of the deleted rows come back.
pub fn batch_delete_statement(indexes: &Vec<i64>) -> (r: String)
    ensures
        r@ == "DELETE FROM images WHERE id in ("@ + joined_decimals(indexes@)
            + ") RETURNING path"@,
{
    let mut s = String::from_str("DELETE FROM images WHERE id in (");
    let list = join_decimals(indexes);
    s.append(list.as_str());
    s.append(") RETURNING path");
    proof {
        assert(s@ =~= "DELETE FROM images WHERE id in ("@ + joined_decimals(indexes@)
            + ") RETURNING path"@);
    }
    s
}

} // verus!
