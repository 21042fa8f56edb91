use yaiss::domain::Image;
use yaiss::services::{
    BatchDeleteImageServiceError, BatchQueryImageServiceError, DeleteImageServiceError,
    GetImageContentServiceError, QueryImageServiceError,
};
use yaiss::web::{
    batch_delete_status, batch_query_status, delete_image_status, error_body,
    get_image_content_status, query_image_status, ImageJson, Pagination, YaissError,
};

#[test]
fn pagination_defaults_to_the_first_fifty() {
    let p = Pagination::default();
    assert_eq!(p.count, 50);
    assert_eq!(p.offset, 0);
    let q = Pagination::new(10, 20);
    assert_eq!((q.count, q.offset), (10, 20));
}

#[test]
fn image_json_carries_id_and_update_moment() {
    let image = Image::new(1, "some/path".to_string(), "2023-07-12T20:38:39.443964Z".to_string());
    let json = ImageJson::from(&image);
    assert_eq!(json.id, 1);
    assert_eq!(json.updated_on, "2023-07-12T20:38:39.443964Z");
}

#[test]
fn on_image_not_found_return_not_found_code() {
    assert_eq!(batch_query_status(&BatchQueryImageServiceError::NoRecordsFound), 404);
    assert_eq!(query_image_status(&QueryImageServiceError::ImageNotFound), 404);
    assert_eq!(delete_image_status(&DeleteImageServiceError::ImageNotFound), 404);
    assert_eq!(get_image_content_status(&GetImageContentServiceError::ImageNotFound), 404);
}

#[test]
fn on_internal_error_return_internal_server_code() {
    assert_eq!(batch_query_status(&BatchQueryImageServiceError::InternalError), 500);
    assert_eq!(query_image_status(&QueryImageServiceError::InternalError), 500);
    assert_eq!(delete_image_status(&DeleteImageServiceError::InternalError), 500);
    assert_eq!(get_image_content_status(&GetImageContentServiceError::InternalError), 500);
    assert_eq!(error_body("Internal error"), "{\"error\":\"Internal error\"}");
}

#[test]
fn on_too_many_images_return_internal_server_code() {
    // the batch delete handler reads every refusal, the cap included, as a
    // server error
    assert_eq!(batch_delete_status(&BatchDeleteImageServiceError::TooManyImagesToDelete(50)), 500);
    assert_eq!(batch_delete_status(&BatchDeleteImageServiceError::InternalError), 500);
    assert_eq!(
        error_body(
            BatchDeleteImageServiceError::TooManyImagesToDelete(50).message().as_str()
        ),
        "{\"error\":\"Too many images to delete. Max: 50\"}"
    );
}

#[test]
fn on_too_many_images_request_return_bad_request_code() {
    assert_eq!(batch_query_status(&BatchQueryImageServiceError::TooManyImagesRequested), 400);
}

#[test]
fn on_invalid_pagination_return_bad_request_code() {
    assert_eq!(batch_query_status(&BatchQueryImageServiceError::InvalidRequest), 400);
    assert_eq!(
        error_body(BatchQueryImageServiceError::InvalidRequest.message().as_str()),
        "{\"error\":\"Count or offset are below zero\"}"
    );
}

#[test]
fn yaiss_error_carries_its_description() {
    let e = YaissError::new("boom".to_string());
    assert_eq!(e.message(), "boom");
}
