use image_service::clock::Timestamp;
use image_service::models::image::Image;
use image_service::repositories::exchange::{Command, Finished, ImageError, Outcome, Reply};
use image_service::repositories::image::ImageRepository;
use image_service::saga::{Saga, Step};
use std::collections::BTreeMap;

const BUCKET: &str = "gallery";
const U1: u128 = 0x0000_0000_0000_0000_0000_0000_0000_0001;
const U2: u128 = 0x0000_0000_0000_0000_0000_0000_0000_0002;
const U1_TEXT: &str = "00000000-0000-0000-0000-000000000001";

/// Two stores in memory that answer as the real ones are meant to, with
/// switches to make single commands fail.
struct Stores {
    blobs: BTreeMap<(String, String), (String, Vec<u8>)>,
    rows: Vec<Image>,
    next_id: u128,
    now: i64,
    fail_insert: Option<ImageError>,
    fail_blob_delete: Option<ImageError>,
    fail_upload: Option<ImageError>,
    log: Vec<String>,
}

fn stores() -> Stores {
    Stores {
        blobs: BTreeMap::new(),
        rows: Vec::new(),
        next_id: 100,
        now: 1_700_000_000,
        fail_insert: None,
        fail_blob_delete: None,
        fail_upload: None,
        log: Vec::new(),
    }
}

fn stamp(secs: i64) -> Timestamp {
    Timestamp { secs, nanos: 0 }
}

fn perform(stores: &mut Stores, command: &Command, payload: &[u8]) -> Reply {
    stores.now += 1;
    match command {
        Command::Upload { bucket, key, content_type } => {
            stores.log.push(format!("upload {}", key));
            if let Some(error) = stores.fail_upload.take() {
                return Reply::Failed(error);
            }
            stores
                .blobs
                .insert((bucket.clone(), key.clone()), (content_type.clone(), payload.to_vec()));
            Reply::Uploaded
        }
        Command::DeleteBlob { bucket, key } => {
            stores.log.push(format!("delete-blob {}", key));
            if let Some(error) = stores.fail_blob_delete.take() {
                return Reply::Failed(error);
            }
            stores.blobs.remove(&(bucket.clone(), key.clone()));
            Reply::BlobDeleted
        }
        Command::Download { bucket, key } => {
            if stores.blobs.contains_key(&(bucket.clone(), key.clone())) {
                Reply::Downloaded
            } else {
                Reply::BlobMissing
            }
        }
        Command::ProbeBlob { bucket, key } => {
            if stores.blobs.contains_key(&(bucket.clone(), key.clone())) {
                Reply::BlobFound
            } else {
                Reply::BlobMissing
            }
        }
        Command::ListBlobs { bucket } => Reply::BlobsListed(
            stores
                .blobs
                .keys()
                .filter(|(b, _)| b == bucket)
                .map(|(_, key)| Some(key.clone()))
                .collect(),
        ),
        Command::InsertRow { owner, url } => {
            stores.log.push(format!("insert {}", url));
            if let Some(error) = stores.fail_insert.take() {
                return Reply::Failed(error);
            }
            let row = Image {
                id: stores.next_id,
                url: url.clone(),
                created_at: stamp(stores.now),
                updated_at: stamp(stores.now),
                user_id: *owner,
            };
            stores.next_id += 1;
            stores.rows.push(row.clone());
            Reply::RowInserted(row)
        }
        Command::SelectRow { owner, id } => Reply::RowSelected(
            stores.rows.iter().find(|row| row.user_id == *owner && row.id == *id).cloned(),
        ),
        Command::SelectRows { owner } => Reply::RowsSelected(
            stores.rows.iter().filter(|row| row.user_id == *owner).cloned().collect(),
        ),
        Command::DeleteRow { owner, id } => {
            stores.log.push(format!("delete-row {}", id));
            let before = stores.rows.len();
            stores.rows.retain(|row| !(row.user_id == *owner && row.id == *id));
            Reply::RowsDeleted((before - stores.rows.len()) as u64)
        }
        Command::UpdateRow { owner, id, url } => {
            stores.log.push(format!("update-row {}", id));
            let now = stamp(stores.now);
            match stores.rows.iter_mut().find(|row| row.user_id == *owner && row.id == *id) {
                Some(row) => {
                    row.url = url.clone();
                    row.updated_at = now;
                    Reply::RowUpdated(Some(row.clone()))
                }
                None => Reply::RowUpdated(None),
            }
        }
    }
}

fn drive(stores: &mut Stores, first: Step, payload: &[u8]) -> Finished {
    let mut step = first;
    loop {
        match step {
            Step::Done(end) => return end,
            Step::Next(saga, command) => {
                let reply = perform(stores, &command, payload);
                step = saga.advance(reply);
            }
        }
    }
}

fn repository() -> ImageRepository {
    ImageRepository::new(BUCKET.to_string())
}

fn blob_key(file_name: &str) -> (String, String) {
    (BUCKET.to_string(), format!("images/{}/{}", U1_TEXT, file_name))
}

#[test]
fn user_key_is_prefix_and_hyphenated_id() {
    let key = repository().get_user_key(0xa1a2a3a4_b1b2_c1c2_d1d2_d3d4d5d6d7d8);
    assert_eq!(key, "images/a1a2a3a4-b1b2-c1c2-d1d2-d3d4d5d6d7d8");
}

#[test]
fn identifier_text_is_lower_case_hex_in_five_groups() {
    let repo = repository();
    assert_eq!(repo.get_user_key(0), "images/00000000-0000-0000-0000-000000000000");
    assert_eq!(repo.get_user_key(u128::MAX), "images/ffffffff-ffff-ffff-ffff-ffffffffffff");
    assert_eq!(
        repo.get_user_key(0x0123_4567_89ab_cdef_0123_4567_89ab_cdef),
        "images/01234567-89ab-cdef-0123-456789abcdef"
    );
    assert_eq!(
        repo.get_user_key(0xf000_0000_0000_0000_0000_0000_0000_000a),
        "images/f0000000-0000-0000-0000-00000000000a"
    );
    assert_eq!(
        repo.get_user_key(0x0000_0009_000a_0010_00ff_0000_0000_0100),
        "images/00000009-000a-0010-00ff-000000000100"
    );
}

#[test]
fn object_key_joins_owner_and_file_name() {
    assert_eq!(
        repository().get_object_key(U1, "a.png"),
        "images/00000000-0000-0000-0000-000000000001/a.png"
    );
}

#[test]
fn image_url_names_scheme_bucket_and_key() {
    let repo = repository();
    let url = repo.get_image_url(repo.get_user_key(U1), "a.png");
    assert_eq!(url, "s3://gallery/images/00000000-0000-0000-0000-000000000001/a.png");
    assert_eq!(repo.bucket(), "gallery");
}

#[test]
fn same_owner_and_file_name_collide_on_one_key() {
    let repo = repository();
    assert_eq!(repo.get_object_key(U1, "a.png"), repo.get_object_key(U1, "a.png"));
    assert_ne!(repo.get_object_key(U1, "a.png"), repo.get_object_key(U2, "a.png"));
    assert_ne!(repo.get_object_key(U1, "a.png"), repo.get_object_key(U1, "b.png"));
}

#[test]
fn create_starts_with_the_upload() {
    let step = repository().create(U1, "image/png", "a.png");
    let key = format!("images/{}/a.png", U1_TEXT);
    assert_eq!(
        step,
        Step::Next(
            Saga::CreateUploading {
                bucket: BUCKET.to_string(),
                key: key.clone(),
                owner: U1,
                url: format!("s3://gallery/{}", key),
            },
            Command::Upload {
                bucket: BUCKET.to_string(),
                key,
                content_type: "image/png".to_string(),
            },
        )
    );
}

#[test]
fn create_stores_blob_and_row() {
    let mut stores = stores();
    let payload = b"png bytes".to_vec();
    let end = drive(&mut stores, repository().create(U1, "image/png", "a.png"), &payload);
    let row = match end.result {
        Ok(Outcome::Created(row)) => row,
        other => panic!("unexpected result {:?}", other),
    };
    assert_eq!(end.compensation_failure, None);
    assert_eq!(stores.blobs.get(&blob_key("a.png")), Some(&("image/png".to_string(), payload)));
    assert_eq!(row.user_id, U1);
    assert_eq!(row.url, format!("s3://gallery/images/{}/a.png", U1_TEXT));
    assert_eq!(stores.rows, vec![row]);
    assert_eq!(stores.log, vec![
        format!("upload images/{}/a.png", U1_TEXT),
        format!("insert s3://gallery/images/{}/a.png", U1_TEXT),
    ]);
}

#[test]
fn failed_insert_is_compensated() {
    let mut stores = stores();
    stores.fail_insert = Some(ImageError::ConstraintViolation("duplicate address".to_string()));
    let end = drive(&mut stores, repository().create(U1, "image/png", "b.png"), b"payload");
    assert_eq!(
        end.result,
        Err(ImageError::ConstraintViolation("duplicate address".to_string()))
    );
    assert_eq!(end.compensation_failure, None);
    assert!(!stores.blobs.contains_key(&blob_key("b.png")));
    assert!(stores.rows.is_empty());
    assert_eq!(stores.log, vec![
        format!("upload images/{}/b.png", U1_TEXT),
        format!("insert s3://gallery/images/{}/b.png", U1_TEXT),
        format!("delete-blob images/{}/b.png", U1_TEXT),
    ]);
}

#[test]
fn failed_insert_then_listing_lacks_the_key() {
    let mut stores = stores();
    drive(&mut stores, repository().create(U1, "image/png", "kept.png"), b"kept");
    stores.fail_insert = Some(ImageError::StoreFailure("connection reset".to_string()));
    let end = drive(&mut stores, repository().create(U1, "image/png", "b.png"), b"payload");
    assert_eq!(end.result, Err(ImageError::StoreFailure("connection reset".to_string())));
    let listed = drive(
        &mut stores,
        image_service::aws::s3_client::S3Client::new().list_objects(BUCKET),
        b"",
    );
    assert_eq!(listed.result, Ok(Outcome::Keys(vec![format!("images/{}/kept.png", U1_TEXT)])));
}

#[test]
fn failed_compensation_keeps_the_insert_error() {
    let mut stores = stores();
    stores.fail_insert = Some(ImageError::StoreFailure("insert refused".to_string()));
    stores.fail_blob_delete = Some(ImageError::StorageFailure("bucket unreachable".to_string()));
    let end = drive(&mut stores, repository().create(U1, "image/png", "b.png"), b"payload");
    assert_eq!(end.result, Err(ImageError::StoreFailure("insert refused".to_string())));
    assert_eq!(
        end.compensation_failure,
        Some(ImageError::StorageFailure("bucket unreachable".to_string()))
    );
    assert!(stores.blobs.contains_key(&blob_key("b.png")));
    assert!(stores.rows.is_empty());
}

#[test]
fn failed_upload_writes_no_row_and_needs_no_compensation() {
    let mut stores = stores();
    stores.fail_upload = Some(ImageError::StorageFailure("timeout".to_string()));
    let end = drive(&mut stores, repository().create(U1, "image/png", "a.png"), b"payload");
    assert_eq!(end.result, Err(ImageError::StorageFailure("timeout".to_string())));
    assert_eq!(end.compensation_failure, None);
    assert!(stores.rows.is_empty());
    assert_eq!(stores.log, vec![format!("upload images/{}/a.png", U1_TEXT)]);
}

#[test]
fn delete_twice_removes_once() {
    let mut stores = stores();
    let created = drive(&mut stores, repository().create(U1, "image/png", "a.png"), b"payload");
    let id = match created.result {
        Ok(Outcome::Created(row)) => row.id,
        other => panic!("unexpected result {:?}", other),
    };
    let first = drive(&mut stores, repository().delete(U1, id, "a.png"), b"");
    assert_eq!(first.result, Ok(Outcome::Deleted(true)));
    assert!(!stores.blobs.contains_key(&blob_key("a.png")));
    assert!(stores.rows.is_empty());
    let second = drive(&mut stores, repository().delete(U1, id, "a.png"), b"");
    assert_eq!(second.result, Ok(Outcome::Deleted(false)));
    assert_eq!(second.compensation_failure, None);
}

#[test]
fn delete_stops_when_the_blob_cannot_be_removed() {
    let mut stores = stores();
    let created = drive(&mut stores, repository().create(U1, "image/png", "a.png"), b"payload");
    let id = match created.result {
        Ok(Outcome::Created(row)) => row.id,
        other => panic!("unexpected result {:?}", other),
    };
    stores.fail_blob_delete = Some(ImageError::StorageFailure("throttled".to_string()));
    let end = drive(&mut stores, repository().delete(U1, id, "a.png"), b"");
    assert_eq!(end.result, Err(ImageError::StorageFailure("throttled".to_string())));
    assert_eq!(stores.rows.len(), 1);
    assert!(stores.blobs.contains_key(&blob_key("a.png")));
}

#[test]
fn blob_delete_is_idempotent() {
    let mut stores = stores();
    let client = image_service::aws::s3_client::S3Client::new();
    drive(&mut stores, client.upload(BUCKET, "k", "text/plain"), b"x");
    assert_eq!(drive(&mut stores, client.delete(BUCKET, "k"), b"").result, Ok(Outcome::Removed));
    assert_eq!(drive(&mut stores, client.delete(BUCKET, "k"), b"").result, Ok(Outcome::Removed));
    assert!(stores.blobs.is_empty());
}

#[test]
fn get_by_id_is_scoped_by_owner() {
    let mut stores = stores();
    let created = drive(&mut stores, repository().create(U2, "image/png", "a.png"), b"payload");
    let row = match created.result {
        Ok(Outcome::Created(row)) => row,
        other => panic!("unexpected result {:?}", other),
    };
    let as_other = drive(&mut stores, repository().get_by_id(U1, row.id), b"");
    assert_eq!(as_other.result, Ok(Outcome::Found(None)));
    let as_owner = drive(&mut stores, repository().get_by_id(U2, row.id), b"");
    assert_eq!(as_owner.result, Ok(Outcome::Found(Some(row))));
}

#[test]
fn get_by_id_asks_for_owner_and_id() {
    assert_eq!(
        repository().get_by_id(U1, 7),
        Step::Next(Saga::FindingRow, Command::SelectRow { owner: U1, id: 7 })
    );
}

#[test]
fn get_by_user_id_lists_the_owners_rows_only() {
    let mut stores = stores();
    drive(&mut stores, repository().create(U1, "image/png", "a.png"), b"1");
    drive(&mut stores, repository().create(U2, "image/png", "b.png"), b"2");
    drive(&mut stores, repository().create(U1, "image/png", "c.png"), b"3");
    let listed = match drive(&mut stores, repository().get_by_user_id(U1), b"").result {
        Ok(Outcome::Listed(rows)) => rows,
        other => panic!("unexpected result {:?}", other),
    };
    assert_eq!(listed.len(), 2);
    assert!(listed.iter().all(|row| row.user_id == U1));
}

#[test]
fn update_of_a_missing_row_leaves_blobs_untouched() {
    let mut stores = stores();
    drive(&mut stores, repository().create(U2, "image/png", "a.png"), b"old");
    let blobs_before = stores.blobs.clone();
    let rows_before = stores.rows.clone();
    stores.log.clear();
    let end = drive(&mut stores, repository().update(U1, 100, "a.png", "image/png"), b"new");
    assert_eq!(end.result, Err(ImageError::NotFound));
    assert_eq!(stores.blobs, blobs_before);
    assert_eq!(stores.rows, rows_before);
    assert!(stores.log.is_empty());
}

#[test]
fn update_overwrites_the_blob_and_refreshes_the_row() {
    let mut stores = stores();
    let created = match drive(&mut stores, repository().create(U1, "image/png", "a.png"), b"old")
        .result
    {
        Ok(Outcome::Created(row)) => row,
        other => panic!("unexpected result {:?}", other),
    };
    let end = drive(&mut stores, repository().update(U1, created.id, "b.jpg", "image/jpeg"), b"new");
    let updated = match end.result {
        Ok(Outcome::Updated(row)) => row,
        other => panic!("unexpected result {:?}", other),
    };
    assert_eq!(updated.id, created.id);
    assert_eq!(updated.user_id, U1);
    assert_eq!(updated.created_at, created.created_at);
    assert!(created.updated_at.is_before(&updated.updated_at));
    assert_eq!(updated.url, format!("s3://gallery/images/{}/b.jpg", U1_TEXT));
    assert_eq!(stores.rows, vec![updated]);
    assert_eq!(
        stores.blobs.get(&blob_key("b.jpg")),
        Some(&("image/jpeg".to_string(), b"new".to_vec()))
    );
}

#[test]
fn update_reports_a_row_that_vanished_before_the_refresh() {
    let saga = Saga::UpdateRefreshing;
    assert_eq!(
        saga.advance(Reply::RowUpdated(None)),
        Step::Done(Finished { result: Err(ImageError::NotFound), compensation_failure: None })
    );
}

#[test]
fn a_reply_of_the_wrong_kind_counts_as_a_failure() {
    let step = Saga::DeleteRemovingRow.advance(Reply::Uploaded);
    assert_eq!(
        step,
        Step::Done(Finished {
            result: Err(ImageError::StoreFailure("unexpected reply".to_string())),
            compensation_failure: None,
        })
    );
    let step = Saga::Uploading.advance(Reply::RowsDeleted(1));
    assert_eq!(
        step,
        Step::Done(Finished {
            result: Err(ImageError::StorageFailure("unexpected reply".to_string())),
            compensation_failure: None,
        })
    );
}

#[test]
fn a_wrong_reply_to_the_insert_is_compensated_too() {
    let saga = Saga::CreateInserting { bucket: BUCKET.to_string(), key: "k".to_string() };
    assert_eq!(
        saga.advance(Reply::BlobDeleted),
        Step::Next(
            Saga::CreateCompensating {
                error: ImageError::StoreFailure("unexpected reply".to_string()),
            },
            Command::DeleteBlob { bucket: BUCKET.to_string(), key: "k".to_string() },
        )
    );
}

#[test]
fn delete_says_true_only_where_rows_were_removed() {
    assert_eq!(
        Saga::DeleteRemovingRow.advance(Reply::RowsDeleted(0)),
        Step::Done(Finished { result: Ok(Outcome::Deleted(false)), compensation_failure: None })
    );
    assert_eq!(
        Saga::DeleteRemovingRow.advance(Reply::RowsDeleted(3)),
        Step::Done(Finished { result: Ok(Outcome::Deleted(true)), compensation_failure: None })
    );
}
