//! The image services: the rules each operation enforces before and after it
//! asks the storage port for work.
//!
//! The services are verified against the ports as interfaces: a port's
//! answer is arbitrary, and each service states what it does with every
//! possible answer. Removing stored files is filesystem work and stays with
//! the unverified shell: a delete hands the paths out, and a `conclude`
//! function folds the removal outcome into the service's answer.

use vstd::prelude::*;
use vstd::string::StringExecFns;

use crate::decimal::{dec_rep, u64_to_decimal};
use crate::domain::Image;
use crate::ports::{
    BatchDeleteError, BatchDeleteImagePort, BatchQueryImagesPort, DeleteImagePort,
    ImagesDataStorage, InsertImagePort, QueryError, QueryImagePort,
};

verus! {

/// The most records one batch operation may touch.
pub const MAX_IMAGES: i64 = 50;

/// What a single-record query answers the caller.
#[derive(PartialEq, Eq, Structural, Clone, Copy, Debug)]
pub enum QueryImageServiceError {
    ImageNotFound,
    InternalError,
}

impl QueryImageServiceError {
    /// The error's wording.
    pub fn message(&self) -> (r: String)
        ensures
            self is ImageNotFound ==> r@ == "Image not found"@,
            self is InternalError ==> r@ == "Internal error"@,
    {
        match self {
            QueryImageServiceError::ImageNotFound => String::from_str("Image not found"),
            QueryImageServiceError::InternalError => String::from_str("Internal error"),
        }
    }
}

impl From<QueryError> for QueryImageServiceError {
    fn from(value: QueryError) -> (r: QueryImageServiceError) {
        match value {
            QueryError::RecordNotFound => QueryImageServiceError::ImageNotFound,
            QueryError::InternalError => QueryImageServiceError::InternalError,
        }
    }
}

impl vstd::std_specs::convert::FromSpecImpl<QueryError> for QueryImageServiceError {
    open spec fn obeys_from_spec() -> bool {
        true
    }

    open spec fn from_spec(v: QueryError) -> QueryImageServiceError {
        match v {
            QueryError::RecordNotFound => QueryImageServiceError::ImageNotFound,
            QueryError::InternalError => QueryImageServiceError::InternalError,
        }
    }
}

/// What a page query answers the caller.
#[derive(PartialEq, Eq, Structural, Clone, Copy, Debug)]
pub enum BatchQueryImageServiceError {
    TooManyImagesRequested,
    InternalError,
    InvalidRequest,
    NoRecordsFound,
}

impl BatchQueryImageServiceError {
    /// The error's wording.
    pub fn message(&self) -> (r: String)
        ensures
            self is TooManyImagesRequested ==> r@ == "Too many images requested"@,
            self is InternalError ==> r@ == "Internal error"@,
            self is InvalidRequest ==> r@ == "Count or offset are below zero"@,
            self is NoRecordsFound ==> r@ == "No records found"@,
    {
        match self {
            BatchQueryImageServiceError::TooManyImagesRequested => String::from_str(
                "Too many images requested",
            ),
            BatchQueryImageServiceError::InternalError => String::from_str("Internal error"),
            BatchQueryImageServiceError::InvalidRequest => String::from_str(
                "Count or offset are below zero",
            ),
            BatchQueryImageServiceError::NoRecordsFound => String::from_str("No records found"),
        }
    }
}

impl From<QueryError> for BatchQueryImageServiceError {
    fn from(value: QueryError) -> (r: BatchQueryImageServiceError) {
        match value {
            QueryError::RecordNotFound => BatchQueryImageServiceError::NoRecordsFound,
            QueryError::InternalError => BatchQueryImageServiceError::InternalError,
        }
    }
}

impl vstd::std_specs::convert::FromSpecImpl<QueryError> for BatchQueryImageServiceError {
    open spec fn obeys_from_spec() -> bool {
        true
    }

    open spec fn from_spec(v: QueryError) -> BatchQueryImageServiceError {
        match v {
            QueryError::RecordNotFound => BatchQueryImageServiceError::NoRecordsFound,
            QueryError::InternalError => BatchQueryImageServiceError::InternalError,
        }
    }
}

/// What a single-record delete answers the caller.
#[derive(PartialEq, Eq, Structural, Clone, Copy, Debug)]
pub enum DeleteImageServiceError {
    ImageNotFound,
    InternalError,
}

impl DeleteImageServiceError {
    /// The error's wording.
    pub fn message(&self) -> (r: String)
        ensures
            self is ImageNotFound ==> r@ == "Image not found"@,
            self is InternalError ==> r@ == "Internal error"@,
    {
        match self {
            DeleteImageServiceError::ImageNotFound => String::from_str("Image not found"),
            DeleteImageServiceError::InternalError => String::from_str("Internal error"),
        }
    }
}

/// What a batch delete answers the caller. The payload names the cap the
/// request overran.
#[derive(PartialEq, Eq, Structural, Clone, Copy, Debug)]
pub enum BatchDeleteImageServiceError {
    TooManyImagesToDelete(u64),
    InternalError,
}

impl BatchDeleteImageServiceError {
    /// The error's wording.
    pub fn message(&self) -> (r: String)
        ensures
            self matches BatchDeleteImageServiceError::TooManyImagesToDelete(max) ==> r@
                == "Too many images to delete. Max: "@ + dec_rep(max as nat),
            self is InternalError ==> r@ == "Internal error"@,
    {
        match self {
            BatchDeleteImageServiceError::TooManyImagesToDelete(max) => {
                let mut s = String::from_str("Too many images to delete. Max: ");
                let digits = u64_to_decimal(*max);
                s.append(digits.as_str());
                s
            },
            BatchDeleteImageServiceError::InternalError => String::from_str("Internal error"),
        }
    }
}

/// What an upload answers the caller.
#[derive(PartialEq, Eq, Structural, Clone, Copy, Debug)]
pub enum UploadImagesServiceError {
    InternalError,
    UnsupportedFormatError,
    DecodingError,
}

impl UploadImagesServiceError {
    /// The error's wording.
    pub fn message(&self) -> (r: String)
        ensures
            self is InternalError ==> r@ == "Internal error"@,
            self is UnsupportedFormatError ==> r@ == "Unsupported format error"@,
            self is DecodingError ==> r@ == "Decoding error"@,
    {
        match self {
            UploadImagesServiceError::InternalError => String::from_str("Internal error"),
            UploadImagesServiceError::UnsupportedFormatError => String::from_str(
                "Unsupported format error",
            ),
            UploadImagesServiceError::DecodingError => String::from_str("Decoding error"),
        }
    }
}

/// What a content lookup answers the caller.
#[derive(PartialEq, Eq, Structural, Clone, Copy, Debug)]
pub enum GetImageContentServiceError {
    ImageNotFound,
    InternalError,
}

impl GetImageContentServiceError {
    /// The error's wording.
    pub fn message(&self) -> (r: String)
        ensures
            self is ImageNotFound ==> r@ == "Image not found"@,
            self is InternalError ==> r@ == "Internal error"@,
    {
        match self {
            GetImageContentServiceError::ImageNotFound => String::from_str("Image not found"),
            GetImageContentServiceError::InternalError => String::from_str("Internal error"),
        }
    }
}

impl From<QueryError> for GetImageContentServiceError {
    fn from(value: QueryError) -> (r: GetImageContentServiceError) {
        match value {
            QueryError::RecordNotFound => GetImageContentServiceError::ImageNotFound,
            QueryError::InternalError => GetImageContentServiceError::InternalError,
        }
    }
}

impl vstd::std_specs::convert::FromSpecImpl<QueryError> for GetImageContentServiceError {
    open spec fn obeys_from_spec() -> bool {
        true
    }

    open spec fn from_spec(v: QueryError) -> GetImageContentServiceError {
        match v {
            QueryError::RecordNotFound => GetImageContentServiceError::ImageNotFound,
            QueryError::InternalError => GetImageContentServiceError::InternalError,
        }
    }
}

/// Looks one record up.
pub struct QueryImage<Storage: QueryImagePort> {
    storage: Storage,
}

impl<Storage: QueryImagePort> QueryImage<Storage> {
    pub fn new(storage: Storage) -> QueryImage<Storage> {
        QueryImage { storage }
    }

    /// Asks the port for the record and translates its answer: a missing
    /// record reads as `ImageNotFound`, an adapter fault as `InternalError`.
    pub fn query_image(&self, index: i64) -> Result<Image, QueryImageServiceError> {
        match self.storage.query_image(index) {
            Ok(image) => Ok(image),
            Err(e) => Err(QueryImageServiceError::from(e)),
        }
    }
}

/// Reads a page of records.
pub struct BatchQueryImage<Storage: BatchQueryImagesPort> {
    storage: Storage,
}

impl<Storage: BatchQueryImagesPort> BatchQueryImage<Storage> {
    pub fn new(storage: Storage) -> BatchQueryImage<Storage> {
        BatchQueryImage { storage }
    }

    /// Validates the page, then asks the port. A non-positive count or a
    /// negative offset is refused before any storage work; so is a page
    /// above the cap.
    pub fn batch_query_image(&self, count: i64, offset: i64) -> (r: Result<
        Vec<Image>,
        BatchQueryImageServiceError,
    >)
        ensures
            count <= 0 || offset < 0 ==> r == Err::<Vec<Image>, _>(
                BatchQueryImageServiceError::InvalidRequest,
            ),
            count > 0 && offset >= 0 && count > MAX_IMAGES ==> r == Err::<Vec<Image>, _>(
                BatchQueryImageServiceError::TooManyImagesRequested,
            ),
            r matches Err(e) ==> !(e is NoRecordsFound && (count <= 0 || offset < 0 || count
                > MAX_IMAGES)),
    {
        if count <= 0 || offset < 0 {
            return Err(BatchQueryImageServiceError::InvalidRequest);
        }
        if count > MAX_IMAGES {
            return Err(BatchQueryImageServiceError::TooManyImagesRequested);
        }
        match self.storage.query_images(count, offset) {
            Ok(images) => Ok(images),
            Err(e) => Err(BatchQueryImageServiceError::from(e)),
        }
    }
}

/// Deletes one record and its stored file.
pub struct DeleteImage<Storage: DeleteImagePort> {
    storage: Storage,
}

impl<Storage: DeleteImagePort> DeleteImage<Storage> {
    pub fn new(storage: Storage) -> DeleteImage<Storage> {
        DeleteImage { storage }
    }

    /// Deletes the record and hands back the path of the file to remove.
    /// Whatever the port reports reads as a missing image.
    pub fn delete_image(&self, index: i64) -> (r: Result<String, DeleteImageServiceError>)
        ensures
            r matches Err(e) ==> e is ImageNotFound,
    {
        match self.storage.delete_image(index) {
            Ok(path) => Ok(path),
            Err(_) => Err(DeleteImageServiceError::ImageNotFound),
        }
    }

    /// Folds the file removal's outcome into the service's answer.
    pub fn conclude_removal(removed: bool) -> (r: Result<(), DeleteImageServiceError>)
        ensures
            removed <==> r is Ok,
            !removed ==> r == Err::<(), _>(DeleteImageServiceError::InternalError),
    {
        if removed {
            Ok(())
        } else {
            Err(DeleteImageServiceError::InternalError)
        }
    }
}

/// Deletes a batch of records and their stored files.
pub struct BatchDeleteImage<Storage: BatchDeleteImagePort> {
    storage: Storage,
}

impl<Storage: BatchDeleteImagePort> BatchDeleteImage<Storage> {
    pub fn new(storage: Storage) -> BatchDeleteImage<Storage> {
        BatchDeleteImage { storage }
    }

    /// Refuses a batch above the cap before any storage work; otherwise
    /// deletes the records and hands back the paths of the files to remove.
    /// A port fault reads as `InternalError`.
    pub fn batch_delete_image(&self, indexes: Vec<i64>) -> (r: Result<
        Vec<String>,
        BatchDeleteImageServiceError,
    >)
        ensures
            indexes@.len() > MAX_IMAGES ==> r == Err::<Vec<String>, _>(
                BatchDeleteImageServiceError::TooManyImagesToDelete(MAX_IMAGES as u64),
            ),
            indexes@.len() <= MAX_IMAGES ==> (r matches Err(e) ==> e is InternalError),
    {
        if indexes.len() > 50 {
            return Err(BatchDeleteImageServiceError::TooManyImagesToDelete(50));
        }
        match self.storage.batch_delete_image(indexes) {
            Ok(paths) => Ok(paths),
            Err(_) => Err(BatchDeleteImageServiceError::InternalError),
        }
    }

    /// Folds the file removals' outcome into the service's answer: one
    /// failed removal fails the whole batch.
    pub fn conclude_removals(any_failed: bool) -> (r: Result<(), BatchDeleteImageServiceError>)
        ensures
            !any_failed <==> r is Ok,
            any_failed ==> r == Err::<(), _>(BatchDeleteImageServiceError::InternalError),
    {
        if any_failed {
            Err(BatchDeleteImageServiceError::InternalError)
        } else {
            Ok(())
        }
    }
}

/// A character the random file stem may hold.
pub open spec fn is_alphanumeric_char(c: char) -> bool {
    ('a' as u32 <= c as u32 && c as u32 <= 'z' as u32) || ('A' as u32 <= c as u32 && c as u32
        <= 'Z' as u32) || ('0' as u32 <= c as u32 && c as u32 <= '9' as u32)
}

/// The stored file's path for a fresh upload: the base directory, a slash
/// unless the base already ends with one or is empty, the random stem, and
/// the format's extension.
pub open spec fn spec_upload_path(base: Seq<char>, stem: Seq<char>) -> Seq<char> {
    if base.len() == 0 {
        stem + ".qoi"@
    } else if base.last() == '/' {
        base + stem + ".qoi"@
    } else {
        base + seq!['/'] + stem + ".qoi"@
    }
}

/// Whether `p` is a path an upload may store its file at, under `base`.
pub open spec fn valid_upload_path(base: Seq<char>, p: Seq<char>) -> bool {
    exists|stem: Seq<char>|
        #![auto]
        stem.len() == 8 && (forall|i: int| 0 <= i < stem.len() ==> is_alphanumeric_char(stem[i]))
            && p == spec_upload_path(base, stem)
}

/// Relies on rand's Alphanumeric sampler: exactly `len` characters, each
/// drawn from a-z, A-Z and 0-9.
#[verifier::external_body]
fn random_alphanumeric(len: usize) -> (r: String)
    ensures
        r@.len() == len as nat,
        forall|i: int| 0 <= i < r@.len() ==> is_alphanumeric_char(#[trigger] r@[i]),
{
    rand::distr::SampleString::sample_string(&rand::distr::Alphanumeric, &mut rand::rng(), len)
}

/// Stores fresh uploads.
pub struct UploadImages<Storage: InsertImagePort> {
    storage: Storage,
    base_path: String,
}

/// The upload service as contracts see it.
pub struct UploadImagesModel {
    pub base_path: Seq<char>,
}

impl<Storage: InsertImagePort> View for UploadImages<Storage> {
    type V = UploadImagesModel;

    closed spec fn view(&self) -> UploadImagesModel {
        UploadImagesModel { base_path: self.base_path@ }
    }
}

impl<Storage: InsertImagePort> UploadImages<Storage> {
    pub fn new(storage: Storage, base_path: String) -> (r: UploadImages<Storage>)
        ensures
            r@.base_path == base_path@,
    {
        UploadImages { storage, base_path }
    }

    /// A fresh path under the base directory: an eight-character random
    /// alphanumeric stem with the stored format's extension.
    pub fn generate_path(&self) -> (r: String)
        ensures
            valid_upload_path(self@.base_path, r@),
    {
        let stem = random_alphanumeric(8);
        let n = self.base_path.as_str().unicode_len();
        let mut s = String::new();
        s.append(self.base_path.as_str());
        if n > 0 && self.base_path.as_str().get_char(n - 1) != '/' {
            proof {
                reveal_strlit("/");
            }
            s.append("/");
        }
        s.append(stem.as_str());
        s.append(".qoi");
        proof {
            if n == 0 {
                assert(s@ =~= spec_upload_path(self@.base_path, stem@));
            } else if self@.base_path.last() == '/' {
                assert(s@ =~= spec_upload_path(self@.base_path, stem@));
            } else {
                assert(seq!['/'] =~= "/"@);
                assert(s@ =~= spec_upload_path(self@.base_path, stem@));
            }
        }
        s
    }

    /// Records a stored upload: a fresh record with a generated identifier,
    /// the file's path, and the moment the shell observed. A port fault
    /// reads as `InternalError`.
    pub fn record_upload(&self, path: String, updated_on: String) -> (r: Result<
        (),
        UploadImagesServiceError,
    >)
        ensures
            r matches Err(e) ==> e is InternalError,
    {
        let record = Image::new(0, path, updated_on);
        match self.storage.insert_image(&record) {
            Ok(()) => Ok(()),
            Err(_) => Err(UploadImagesServiceError::InternalError),
        }
    }
}

/// Answers where a stored image's content lives.
pub struct GetImageContentService<Storage: ImagesDataStorage> {
    storage: Storage,
}

impl<Storage: ImagesDataStorage> GetImageContentService<Storage> {
    pub fn new(storage: Storage) -> GetImageContentService<Storage> {
        GetImageContentService { storage }
    }

    /// Looks the record up and answers the path of its stored file. A
    /// missing record reads as `ImageNotFound`, an adapter fault as
    /// `InternalError`.
    pub fn get_image_content(&self, index: i64) -> Result<String, GetImageContentServiceError> {
        match self.storage.query_image(index) {
            Ok(image) => Ok(image.path().to_owned()),
            Err(e) => Err(GetImageContentServiceError::from(e)),
        }
    }
}

} // verus!
