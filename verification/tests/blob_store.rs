use image_service::aws::s3_client::S3Client;
use image_service::repositories::exchange::{
    collect_keys, Command, Finished, ImageError, Outcome, Reply,
};
use image_service::saga::{Saga, Step};

fn done(result: Result<Outcome, ImageError>) -> Step {
    Step::Done(Finished { result, compensation_failure: None })
}

fn answer(step: Step, reply: Reply) -> Step {
    match step {
        Step::Next(saga, _) => saga.advance(reply),
        Step::Done(_) => panic!("the operation has ended"),
    }
}

#[test]
fn upload_names_bucket_key_and_content_type() {
    assert_eq!(
        S3Client::new().upload("b", "images/x.png", "image/png"),
        Step::Next(
            Saga::Uploading,
            Command::Upload {
                bucket: "b".to_string(),
                key: "images/x.png".to_string(),
                content_type: "image/png".to_string(),
            },
        )
    );
}

#[test]
fn upload_ends_with_the_stores_answer() {
    let client = S3Client::new();
    assert_eq!(answer(client.upload("b", "k", "t"), Reply::Uploaded), done(Ok(Outcome::Stored)));
    assert_eq!(
        answer(client.upload("b", "k", "t"), Reply::Failed(ImageError::StorageFailure("503".to_string()))),
        done(Err(ImageError::StorageFailure("503".to_string())))
    );
}

#[test]
fn download_of_an_absent_key_is_not_found() {
    let client = S3Client::new();
    assert_eq!(
        client.download("b", "k"),
        Step::Next(
            Saga::Downloading,
            Command::Download { bucket: "b".to_string(), key: "k".to_string() }
        )
    );
    assert_eq!(answer(client.download("b", "k"), Reply::BlobMissing), done(Err(ImageError::NotFound)));
    assert_eq!(answer(client.download("b", "k"), Reply::Downloaded), done(Ok(Outcome::Fetched)));
    assert_eq!(
        answer(client.download("b", "k"), Reply::Failed(ImageError::StorageFailure("reset".to_string()))),
        done(Err(ImageError::StorageFailure("reset".to_string())))
    );
}

#[test]
fn delete_of_a_blob_ends_with_the_stores_answer() {
    let client = S3Client::new();
    assert_eq!(
        client.delete("b", "k"),
        Step::Next(
            Saga::RemovingBlob,
            Command::DeleteBlob { bucket: "b".to_string(), key: "k".to_string() }
        )
    );
    assert_eq!(answer(client.delete("b", "k"), Reply::BlobDeleted), done(Ok(Outcome::Removed)));
    assert_eq!(
        answer(client.delete("b", "k"), Reply::Failed(ImageError::StorageFailure("denied".to_string()))),
        done(Err(ImageError::StorageFailure("denied".to_string())))
    );
}

#[test]
fn list_objects_keeps_the_keys_that_are_there() {
    let client = S3Client::new();
    assert_eq!(
        client.list_objects("b"),
        Step::Next(Saga::ListingBlobs, Command::ListBlobs { bucket: "b".to_string() })
    );
    let listed = Reply::BlobsListed(vec![
        Some("images/a".to_string()),
        None,
        Some("images/b".to_string()),
        None,
    ]);
    assert_eq!(
        answer(client.list_objects("b"), listed),
        done(Ok(Outcome::Keys(vec!["images/a".to_string(), "images/b".to_string()])))
    );
    assert_eq!(
        answer(client.list_objects("b"), Reply::BlobsListed(vec![])),
        done(Ok(Outcome::Keys(vec![])))
    );
}

#[test]
fn collect_keys_keeps_order_and_duplicates() {
    let entries = vec![Some("b".to_string()), Some("a".to_string()), None, Some("b".to_string())];
    assert_eq!(collect_keys(&entries), vec!["b".to_string(), "a".to_string(), "b".to_string()]);
    assert_eq!(collect_keys(&vec![None, None]), Vec::<String>::new());
}

#[test]
fn exists_never_fails() {
    let client = S3Client::new();
    assert_eq!(
        client.object_exists("b", "k"),
        Step::Next(
            Saga::Probing,
            Command::ProbeBlob { bucket: "b".to_string(), key: "k".to_string() }
        )
    );
    assert_eq!(answer(client.object_exists("b", "k"), Reply::BlobFound), done(Ok(Outcome::Exists(true))));
    assert_eq!(
        answer(client.object_exists("b", "k"), Reply::BlobMissing),
        done(Ok(Outcome::Exists(false)))
    );
    assert_eq!(
        answer(
            client.object_exists("b", "k"),
            Reply::Failed(ImageError::StorageFailure("network partition".to_string()))
        ),
        done(Ok(Outcome::Exists(false)))
    );
    assert_eq!(
        answer(client.object_exists("b", "k"), Reply::Uploaded),
        done(Ok(Outcome::Exists(false)))
    );
}
