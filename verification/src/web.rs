//! What the request handlers decide: how service answers map to status
//! codes, the JSON shapes they carry, and the pagination of the listing
//! route. The handlers' HTTP plumbing lives in the unverified shell and
//! calls down here.

use vstd::prelude::*;
use vstd::string::StringExecFns;

use crate::domain::Image;
use crate::services::{
    BatchDeleteImageServiceError, BatchQueryImageServiceError, DeleteImageServiceError,
    GetImageContentServiceError, QueryImageServiceError,
};

verus! {

/// A page of the listing route. Requests without pagination default to the
/// first fifty records.
#[derive(PartialEq, Eq, Structural, Clone, Copy, Debug)]
pub struct Pagination {
    pub count: i64,
    pub offset: i64,
}

impl Pagination {
    /// A page from its parts.
    pub fn new(count: i64, offset: i64) -> (r: Pagination)
        ensures
            r.count == count,
            r.offset == offset,
    {
        Pagination { count, offset }
    }
}

impl Default for Pagination {
    /// The page used when the request names none.
    fn default() -> (r: Pagination)
        ensures
            r.count == 50,
            r.offset == 0,
    {
        Pagination { count: 50, offset: 0 }
    }
}

/// The record as the JSON answers carry it: the identifier and the update
/// moment, without the stored file's path.
#[derive(Clone, Debug)]
pub struct ImageJson {
    pub id: i64,
    pub updated_on: String,
}

impl ImageJson {
    /// The JSON shape of a record.
    pub fn from(image: &Image) -> (r: ImageJson)
        ensures
            r.id == image@.id,
            r.updated_on@ == image@.updated_on,
    {
        ImageJson { id: image.id(), updated_on: image.updated_on().to_owned() }
    }
}

/// A handler fault carried up to the HTTP layer, which answers it with an
/// internal-error response.
#[derive(Clone, Debug)]
pub struct YaissError {
    message: String,
}

impl View for YaissError {
    type V = Seq<char>;

    closed spec fn view(&self) -> Seq<char> {
        self.message@
    }
}

impl YaissError {
    /// Wraps a fault's description.
    pub fn new(message: String) -> (r: YaissError)
        ensures
            r@ == message@,
    {
        YaissError { message }
    }

    /// The fault's description.
    pub fn message(&self) -> (r: &str)
        ensures
            r@ == self@,
    {
        self.message.as_str()
    }
}

/// The JSON body an erring handler answers with.
pub fn error_body(message: &str) -> (r: String)
    ensures
        r@ == "{\"error\":\""@ + message@ + "\"}"@,
{
    let mut s = String::from_str("{\"error\":\"");
    s.append(message);
    s.append("\"}");
    proof {
        assert(s@ =~= "{\"error\":\""@ + message@ + "\"}"@);
    }
    s
}

/// The status of a page query's answer: bad pages are the caller's fault,
/// an empty listing is absence, an adapter fault is the server's.
pub fn batch_query_status(e: &BatchQueryImageServiceError) -> (s: u16)
    ensures
        e is InternalError ==> s == 500,
        e is TooManyImagesRequested ==> s == 400,
        e is InvalidRequest ==> s == 400,
        e is NoRecordsFound ==> s == 404,
{
    match e {
        BatchQueryImageServiceError::InternalError => 500,
        BatchQueryImageServiceError::TooManyImagesRequested => 400,
        BatchQueryImageServiceError::InvalidRequest => 400,
        BatchQueryImageServiceError::NoRecordsFound => 404,
    }
}

/// The status of a single-record query's answer.
pub fn query_image_status(e: &QueryImageServiceError) -> (s: u16)
    ensures
        e is ImageNotFound ==> s == 404,
        e is InternalError ==> s == 500,
{
    match e {
        QueryImageServiceError::ImageNotFound => 404,
        QueryImageServiceError::InternalError => 500,
    }
}

/// The status of a delete's answer.
pub fn delete_image_status(e: &DeleteImageServiceError) -> (s: u16)
    ensures
        e is ImageNotFound ==> s == 404,
        e is InternalError ==> s == 500,
{
    match e {
        DeleteImageServiceError::ImageNotFound => 404,
        DeleteImageServiceError::InternalError => 500,
    }
}

/// The status of a batch delete's answer: every refusal, the cap included,
/// reads as a server error.
pub fn batch_delete_status(e: &BatchDeleteImageServiceError) -> (s: u16)
    ensures
        s == 500,
{
    match e {
        BatchDeleteImageServiceError::TooManyImagesToDelete(_) => 500,
        BatchDeleteImageServiceError::InternalError => 500,
    }
}

/// The status of a content lookup's answer.
pub fn get_image_content_status(e: &GetImageContentServiceError) -> (s: u16)
    ensures
        e is ImageNotFound ==> s == 404,
        e is InternalError ==> s == 500,
{
    match e {
        GetImageContentServiceError::ImageNotFound => 404,
        GetImageContentServiceError::InternalError => 500,
    }
}

} // verus!
