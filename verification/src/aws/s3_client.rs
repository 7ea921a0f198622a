//! The five operations the service asks of the blob store.
//!
//! Each is one command and what is made of its reply. Nothing is retried
//! and nothing is cached: a failure goes to the caller as the store gave it.
//! The one exception is the probe, which never fails.

use crate::repositories::exchange::{Command, CommandView};
use crate::saga::{Saga, SagaView, Step, StepView};
use vstd::prelude::*;
use vstd::string::*;

verus! {

/// The one step of an upload but for the end.
pub open spec fn begin_upload(bucket: Seq<char>, key: Seq<char>, content_type: Seq<char>) -> StepView {
    StepView::Next(SagaView::Uploading, CommandView::Upload { bucket, key, content_type })
}

/// The one step of a download but for the end.
pub open spec fn begin_download(bucket: Seq<char>, key: Seq<char>) -> StepView {
    StepView::Next(SagaView::Downloading, CommandView::Download { bucket, key })
}

/// The one step of a removal but for the end.
pub open spec fn begin_removal(bucket: Seq<char>, key: Seq<char>) -> StepView {
    StepView::Next(SagaView::RemovingBlob, CommandView::DeleteBlob { bucket, key })
}

/// The one step of a listing but for the end.
pub open spec fn begin_listing(bucket: Seq<char>) -> StepView {
    StepView::Next(SagaView::ListingBlobs, CommandView::ListBlobs { bucket })
}

/// The one step of a probe but for the end.
pub open spec fn begin_probe(bucket: Seq<char>, key: Seq<char>) -> StepView {
    StepView::Next(SagaView::Probing, CommandView::ProbeBlob { bucket, key })
}

/// The planner of blob store operations. It holds no connection: whoever
/// performs the commands does.
#[derive(Clone, Copy, Debug, PartialEq, Eq)]
pub struct S3Client {}

impl S3Client {
    /// A planner.
    pub fn new() -> (client: S3Client)
        ensures
            client == (S3Client {  }),
    {
        S3Client {  }
    }

    /// Starts the opening of the object under `key` for reading. It ends in
    /// `NotFound` where there is no such object.
    pub fn download(&self, bucket: &str, key: &str) -> (step: Step)
        ensures
            step@ == begin_download(bucket@, key@),
    {
        Step::Next(
            Saga::Downloading,
            Command::Download { bucket: String::from_str(bucket), key: String::from_str(key) },
        )
    }

    /// Starts the writing of the caller's payload under `key`.
    pub fn upload(&self, bucket: &str, key: &str, content_type: &str) -> (step: Step)
        ensures
            step@ == begin_upload(bucket@, key@, content_type@),
    {
        Step::Next(
            Saga::Uploading,
            Command::Upload {
                bucket: String::from_str(bucket),
                key: String::from_str(key),
                content_type: String::from_str(content_type),
            },
        )
    }

    /// Starts the removal of the object under `key`. An absent key is no
    /// failure.
    pub fn delete(&self, bucket: &str, key: &str) -> (step: Step)
        ensures
            step@ == begin_removal(bucket@, key@),
    {
        Step::Next(
            Saga::RemovingBlob,
            Command::DeleteBlob { bucket: String::from_str(bucket), key: String::from_str(key) },
        )
    }

    /// Starts the listing of the keys of `bucket`: one page, in full, no
    /// cursor.
    pub fn list_objects(&self, bucket: &str) -> (step: Step)
        ensures
            step@ == begin_listing(bucket@),
    {
        Step::Next(Saga::ListingBlobs, Command::ListBlobs { bucket: String::from_str(bucket) })
    }

    /// Starts a probe for the object under `key`. It cannot fail: a probe
    /// that the store did not answer with a sighting ends in `false`.
    pub fn object_exists(&self, bucket: &str, key: &str) -> (step: Step)
        ensures
            step@ == begin_probe(bucket@, key@),
    {
        Step::Next(
            Saga::Probing,
            Command::ProbeBlob { bucket: String::from_str(bucket), key: String::from_str(key) },
        )
    }
}

} // verus!
