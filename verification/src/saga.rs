//! The state machine behind every store operation.
//!
//! An operation is a saga. It starts with a first command; each reply either
//! leads to the next command or ends the operation. Where the second half of
//! a two-store write fails, the first half is undone by a compensating
//! command whose own failure is recorded but never replaces the error that
//! caused it.

use crate::repositories::exchange::{
    blob_failure, collect_keys, failed, present_keys, row_failure, succeeded, Command,
    CommandView, Finished, FinishedView, ImageError, ImageErrorView, Outcome, OutcomeView, Reply,
    ReplyView,
};
use vstd::prelude::*;

verus! {

/// Where an operation stands: which reply it waits for, and what it has to
/// remember to go on from there.
#[derive(Debug, PartialEq, Eq)]
pub enum Saga {
    /// A payload is being written to the blob store.
    Uploading,
    /// An object is being opened for reading.
    Downloading,
    /// An object is being removed.
    RemovingBlob,
    /// The objects of a bucket are being listed.
    ListingBlobs,
    /// The blob store is being asked whether an object is there.
    Probing,
    /// Create: the payload is being written.
    CreateUploading { bucket: String, key: String, owner: u128, url: String },
    /// Create: the blob is written, the row is being inserted.
    CreateInserting { bucket: String, key: String },
    /// Create: the insert failed with `error`, the blob is being removed
    /// again.
    CreateCompensating { error: ImageError },
    /// List: the owner's rows are being fetched.
    ListingRows,
    /// Get: one row is being fetched.
    FindingRow,
    /// Delete: the blob is being removed.
    DeleteRemovingBlob { owner: u128, id: u128 },
    /// Delete: the blob is gone, the row is being removed.
    DeleteRemovingRow,
    /// Update: the row is being looked up; nothing has been written.
    UpdateFinding {
        bucket: String,
        key: String,
        content_type: String,
        owner: u128,
        id: u128,
        url: String,
    },
    /// Update: the row exists, the payload is being written.
    UpdateUploading { owner: u128, id: u128, url: String },
    /// Update: the blob is written, the row is being refreshed.
    UpdateRefreshing,
}

/// The mathematical value of a `Saga`.
pub enum SagaView {
    Uploading,
    Downloading,
    RemovingBlob,
    ListingBlobs,
    Probing,
    CreateUploading { bucket: Seq<char>, key: Seq<char>, owner: u128, url: Seq<char> },
    CreateInserting { bucket: Seq<char>, key: Seq<char> },
    CreateCompensating { error: ImageErrorView },
    ListingRows,
    FindingRow,
    DeleteRemovingBlob { owner: u128, id: u128 },
    DeleteRemovingRow,
    UpdateFinding {
        bucket: Seq<char>,
        key: Seq<char>,
        content_type: Seq<char>,
        owner: u128,
        id: u128,
        url: Seq<char>,
    },
    UpdateUploading { owner: u128, id: u128, url: Seq<char> },
    UpdateRefreshing,
}

impl View for Saga {
    type V = SagaView;

    open spec fn view(&self) -> SagaView {
        match *self {
            Saga::Uploading => SagaView::Uploading,
            Saga::Downloading => SagaView::Downloading,
            Saga::RemovingBlob => SagaView::RemovingBlob,
            Saga::ListingBlobs => SagaView::ListingBlobs,
            Saga::Probing => SagaView::Probing,
            Saga::CreateUploading { bucket, key, owner, url } => SagaView::CreateUploading {
                bucket: bucket@,
                key: key@,
                owner,
                url: url@,
            },
            Saga::CreateInserting { bucket, key } => SagaView::CreateInserting {
                bucket: bucket@,
                key: key@,
            },
            Saga::CreateCompensating { error } => SagaView::CreateCompensating { error: error@ },
            Saga::ListingRows => SagaView::ListingRows,
            Saga::FindingRow => SagaView::FindingRow,
            Saga::DeleteRemovingBlob { owner, id } => SagaView::DeleteRemovingBlob { owner, id },
            Saga::DeleteRemovingRow => SagaView::DeleteRemovingRow,
            Saga::UpdateFinding { bucket, key, content_type, owner, id, url } => {
                SagaView::UpdateFinding {
                    bucket: bucket@,
                    key: key@,
                    content_type: content_type@,
                    owner,
                    id,
                    url: url@,
                }
            },
            Saga::UpdateUploading { owner, id, url } => SagaView::UpdateUploading {
                owner,
                id,
                url: url@,
            },
            Saga::UpdateRefreshing => SagaView::UpdateRefreshing,
        }
    }
}

/// One step of an operation: a command to perform and the state that waits
/// for its reply, or the end.
#[derive(Debug, PartialEq, Eq)]
pub enum Step {
    Next(Saga, Command),
    Done(Finished),
}

/// The mathematical value of a `Step`.
pub enum StepView {
    Next(SagaView, CommandView),
    Done(FinishedView),
}

impl View for Step {
    type V = StepView;

    open spec fn view(&self) -> StepView {
        match *self {
            Step::Next(saga, command) => StepView::Next(saga@, command@),
            Step::Done(end) => StepView::Done(end@),
        }
    }
}

/// What follows when an operation in state `saga` receives `reply`.
///
/// A reply that is not the success the state waits for counts as the failure
/// of the pending command, with two exceptions. A probe never fails: whatever
/// is not a sighting of the object reads as "not seen". And a download that
/// finds no object is `NotFound`, not a storage failure. Only a failed insert
/// has something to undo: it leads to the compensating removal of the blob,
/// and whatever that removal answers, the operation ends with the insert's
/// error.
pub open spec fn next_step(saga: SagaView, reply: ReplyView) -> StepView {
    match saga {
        SagaView::Uploading => match reply {
            ReplyView::Uploaded => StepView::Done(succeeded(OutcomeView::Stored)),
            _ => StepView::Done(failed(blob_failure(reply))),
        },
        SagaView::Downloading => match reply {
            ReplyView::Downloaded => StepView::Done(succeeded(OutcomeView::Fetched)),
            ReplyView::BlobMissing => StepView::Done(failed(ImageErrorView::NotFound)),
            _ => StepView::Done(failed(blob_failure(reply))),
        },
        SagaView::RemovingBlob => match reply {
            ReplyView::BlobDeleted => StepView::Done(succeeded(OutcomeView::Removed)),
            _ => StepView::Done(failed(blob_failure(reply))),
        },
        SagaView::ListingBlobs => match reply {
            ReplyView::BlobsListed(entries) => StepView::Done(
                succeeded(OutcomeView::Keys(present_keys(entries))),
            ),
            _ => StepView::Done(failed(blob_failure(reply))),
        },
        SagaView::Probing => StepView::Done(
            succeeded(OutcomeView::Exists(reply == ReplyView::BlobFound)),
        ),
        SagaView::CreateUploading { bucket, key, owner, url } => match reply {
            ReplyView::Uploaded => StepView::Next(
                SagaView::CreateInserting { bucket, key },
                CommandView::InsertRow { owner, url },
            ),
            _ => StepView::Done(failed(blob_failure(reply))),
        },
        SagaView::CreateInserting { bucket, key } => match reply {
            ReplyView::RowInserted(image) => StepView::Done(succeeded(OutcomeView::Created(image))),
            _ => StepView::Next(
                SagaView::CreateCompensating { error: row_failure(reply) },
                CommandView::DeleteBlob { bucket, key },
            ),
        },
        SagaView::CreateCompensating { error } => match reply {
            ReplyView::BlobDeleted => StepView::Done(failed(error)),
            _ => StepView::Done(
                FinishedView {
                    result: Err(error),
                    compensation_failure: Some(blob_failure(reply)),
                },
            ),
        },
        SagaView::ListingRows => match reply {
            ReplyView::RowsSelected(rows) => StepView::Done(succeeded(OutcomeView::Listed(rows))),
            _ => StepView::Done(failed(row_failure(reply))),
        },
        SagaView::FindingRow => match reply {
            ReplyView::RowSelected(row) => StepView::Done(succeeded(OutcomeView::Found(row))),
            _ => StepView::Done(failed(row_failure(reply))),
        },
        SagaView::DeleteRemovingBlob { owner, id } => match reply {
            ReplyView::BlobDeleted => StepView::Next(
                SagaView::DeleteRemovingRow,
                CommandView::DeleteRow { owner, id },
            ),
            _ => StepView::Done(failed(blob_failure(reply))),
        },
        SagaView::DeleteRemovingRow => match reply {
            ReplyView::RowsDeleted(count) => StepView::Done(
                succeeded(OutcomeView::Deleted(count > 0)),
            ),
            _ => StepView::Done(failed(row_failure(reply))),
        },
        SagaView::UpdateFinding { bucket, key, content_type, owner, id, url } => match reply {
            ReplyView::RowSelected(Some(_)) => StepView::Next(
                SagaView::UpdateUploading { owner, id, url },
                CommandView::Upload { bucket, key, content_type },
            ),
            ReplyView::RowSelected(None) => StepView::Done(failed(ImageErrorView::NotFound)),
            _ => StepView::Done(failed(row_failure(reply))),
        },
        SagaView::UpdateUploading { owner, id, url } => match reply {
            ReplyView::Uploaded => StepView::Next(
                SagaView::UpdateRefreshing,
                CommandView::UpdateRow { owner, id, url },
            ),
            _ => StepView::Done(failed(blob_failure(reply))),
        },
        SagaView::UpdateRefreshing => match reply {
            ReplyView::RowUpdated(Some(image)) => StepView::Done(
                succeeded(OutcomeView::Updated(image)),
            ),
            ReplyView::RowUpdated(None) => StepView::Done(failed(ImageErrorView::NotFound)),
            _ => StepView::Done(failed(row_failure(reply))),
        },
    }
}

impl Saga {
    /// Takes the reply to the pending command and decides what follows.
    pub fn advance(self, reply: Reply) -> (step: Step)
        ensures
            step@ == next_step(self@, reply@),
    {
        match self {
            Saga::Uploading => match reply {
                Reply::Uploaded => Step::Done(Finished::success(Outcome::Stored)),
                other => Step::Done(Finished::failure(other.into_blob_failure())),
            },
            Saga::Downloading => match reply {
                Reply::Downloaded => Step::Done(Finished::success(Outcome::Fetched)),
                Reply::BlobMissing => Step::Done(Finished::failure(ImageError::NotFound)),
                other => Step::Done(Finished::failure(other.into_blob_failure())),
            },
            Saga::RemovingBlob => match reply {
                Reply::BlobDeleted => Step::Done(Finished::success(Outcome::Removed)),
                other => Step::Done(Finished::failure(other.into_blob_failure())),
            },
            Saga::ListingBlobs => match reply {
                Reply::BlobsListed(entries) => Step::Done(
                    Finished::success(Outcome::Keys(collect_keys(&entries))),
                ),
                other => Step::Done(Finished::failure(other.into_blob_failure())),
            },
            Saga::Probing => match reply {
                Reply::BlobFound => Step::Done(Finished::success(Outcome::Exists(true))),
                _ => Step::Done(Finished::success(Outcome::Exists(false))),
            },
            Saga::CreateUploading { bucket, key, owner, url } => match reply {
                Reply::Uploaded => Step::Next(
                    Saga::CreateInserting { bucket, key },
                    Command::InsertRow { owner, url },
                ),
                other => Step::Done(Finished::failure(other.into_blob_failure())),
            },
            Saga::CreateInserting { bucket, key } => match reply {
                Reply::RowInserted(image) => Step::Done(Finished::success(Outcome::Created(image))),
                other => Step::Next(
                    Saga::CreateCompensating { error: other.into_row_failure() },
                    Command::DeleteBlob { bucket, key },
                ),
            },
            Saga::CreateCompensating { error } => match reply {
                Reply::BlobDeleted => Step::Done(Finished::failure(error)),
                other => Step::Done(
                    Finished {
                        result: Err(error),
                        compensation_failure: Some(other.into_blob_failure()),
                    },
                ),
            },
            Saga::ListingRows => match reply {
                Reply::RowsSelected(rows) => Step::Done(Finished::success(Outcome::Listed(rows))),
                other => Step::Done(Finished::failure(other.into_row_failure())),
            },
            Saga::FindingRow => match reply {
                Reply::RowSelected(row) => Step::Done(Finished::success(Outcome::Found(row))),
                other => Step::Done(Finished::failure(other.into_row_failure())),
            },
            Saga::DeleteRemovingBlob { owner, id } => match reply {
                Reply::BlobDeleted => Step::Next(
                    Saga::DeleteRemovingRow,
                    Command::DeleteRow { owner, id },
                ),
                other => Step::Done(Finished::failure(other.into_blob_failure())),
            },
            Saga::DeleteRemovingRow => match reply {
                Reply::RowsDeleted(count) => Step::Done(
                    Finished::success(Outcome::Deleted(count > 0)),
                ),
                other => Step::Done(Finished::failure(other.into_row_failure())),
            },
            Saga::UpdateFinding { bucket, key, content_type, owner, id, url } => match reply {
                Reply::RowSelected(Some(_)) => Step::Next(
                    Saga::UpdateUploading { owner, id, url },
                    Command::Upload { bucket, key, content_type },
                ),
                Reply::RowSelected(None) => Step::Done(Finished::failure(ImageError::NotFound)),
                other => Step::Done(Finished::failure(other.into_row_failure())),
            },
            Saga::UpdateUploading { owner, id, url } => match reply {
                Reply::Uploaded => Step::Next(
                    Saga::UpdateRefreshing,
                    Command::UpdateRow { owner, id, url },
                ),
                other => Step::Done(Finished::failure(other.into_blob_failure())),
            },
            Saga::UpdateRefreshing => match reply {
                Reply::RowUpdated(Some(image)) => Step::Done(
                    Finished::success(Outcome::Updated(image)),
                ),
                Reply::RowUpdated(None) => Step::Done(Finished::failure(ImageError::NotFound)),
                other => Step::Done(Finished::failure(other.into_row_failure())),
            },
        }
    }
}

} // verus!
