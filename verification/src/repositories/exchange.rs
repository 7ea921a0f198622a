//! The vocabulary between the image repository and whoever performs its
//! store commands: commands, replies, errors and results.

use crate::models::image::{image_views, Image, ImageView};
use vstd::prelude::*;
use vstd::string::*;

verus! {

/// Why an image operation failed.
#[derive(Debug, PartialEq, Eq)]
pub enum ImageError {
    /// No record matches the owner and the image identifier.
    NotFound,
    /// The blob store failed; the text is its own account.
    StorageFailure(String),
    /// The relational store failed; the text is its own account.
    StoreFailure(String),
    /// The relational store refused the row because of one of its
    /// constraints.
    ConstraintViolation(String),
}

/// The mathematical value of an `ImageError`.
pub enum ImageErrorView {
    NotFound,
    StorageFailure(Seq<char>),
    StoreFailure(Seq<char>),
    ConstraintViolation(Seq<char>),
}

impl View for ImageError {
    type V = ImageErrorView;

    open spec fn view(&self) -> ImageErrorView {
        match *self {
            ImageError::NotFound => ImageErrorView::NotFound,
            ImageError::StorageFailure(text) => ImageErrorView::StorageFailure(text@),
            ImageError::StoreFailure(text) => ImageErrorView::StoreFailure(text@),
            ImageError::ConstraintViolation(text) => ImageErrorView::ConstraintViolation(text@),
        }
    }
}

/// What kind of failure the relational store reported.
#[derive(Clone, Copy, Debug, PartialEq, Eq, Structural)]
pub enum StoreFault {
    /// A unique or primary key constraint was violated.
    Unique,
    /// A foreign key constraint was violated.
    ForeignKey,
    /// A not-null constraint was violated.
    NotNull,
    /// A check constraint was violated.
    Check,
    /// Anything else: the connection, the statement, the server.
    Other,
}

/// The error that a failure of the relational store stands for: a constraint
/// violation where one of the store's constraints refused the row, a store
/// failure for everything else.
pub open spec fn classified(fault: StoreFault, text: Seq<char>) -> ImageErrorView {
    if fault == StoreFault::Other {
        ImageErrorView::StoreFailure(text)
    } else {
        ImageErrorView::ConstraintViolation(text)
    }
}

impl ImageError {
    /// Classifies a failure of the relational store; `text` is the store's
    /// own account of it.
    pub fn from_store(fault: StoreFault, text: String) -> (error: ImageError)
        ensures
            error@ == classified(fault, text@),
    {
        match fault {
            StoreFault::Other => ImageError::StoreFailure(text),
            _ => ImageError::ConstraintViolation(text),
        }
    }

    /// The message of the error: the store's own account where a store
    /// failed, and a fixed text where the record is missing.
    pub fn message(&self) -> (text: String)
        ensures
            self is NotFound ==> text@ == "Image not found"@,
            self matches ImageError::StorageFailure(detail) ==> text@ == detail@,
            self matches ImageError::StoreFailure(detail) ==> text@ == detail@,
            self matches ImageError::ConstraintViolation(detail) ==> text@ == detail@,
    {
        match self {
            ImageError::NotFound => String::from_str("Image not found"),
            ImageError::StorageFailure(detail) => detail.clone(),
            ImageError::StoreFailure(detail) => detail.clone(),
            ImageError::ConstraintViolation(detail) => detail.clone(),
        }
    }
}

/// One request to a store. The caller performs it and hands back a `Reply`.
#[derive(Debug, PartialEq, Eq)]
pub enum Command {
    /// Write the caller's payload to the blob store under `key`.
    Upload { bucket: String, key: String, content_type: String },
    /// Remove the object under `key`; an absent key is no failure.
    DeleteBlob { bucket: String, key: String },
    /// Open the object under `key` for reading.
    Download { bucket: String, key: String },
    /// List the objects of `bucket`, one page of them.
    ListBlobs { bucket: String },
    /// Ask whether there is an object under `key`.
    ProbeBlob { bucket: String, key: String },
    /// Insert a row for `owner` with the address `url`, and return it.
    InsertRow { owner: u128, url: String },
    /// Fetch the row with this identifier, if it belongs to `owner`.
    SelectRow { owner: u128, id: u128 },
    /// Fetch every row that belongs to `owner`.
    SelectRows { owner: u128 },
    /// Remove the row with this identifier, if it belongs to `owner`.
    DeleteRow { owner: u128, id: u128 },
    /// Set the address of the row with this identifier, if it belongs to
    /// `owner`, stamp it as updated now, and return it.
    UpdateRow { owner: u128, id: u128, url: String },
}

/// The mathematical value of a `Command`.
pub enum CommandView {
    Upload { bucket: Seq<char>, key: Seq<char>, content_type: Seq<char> },
    DeleteBlob { bucket: Seq<char>, key: Seq<char> },
    Download { bucket: Seq<char>, key: Seq<char> },
    ListBlobs { bucket: Seq<char> },
    ProbeBlob { bucket: Seq<char>, key: Seq<char> },
    InsertRow { owner: u128, url: Seq<char> },
    SelectRow { owner: u128, id: u128 },
    SelectRows { owner: u128 },
    DeleteRow { owner: u128, id: u128 },
    UpdateRow { owner: u128, id: u128, url: Seq<char> },
}

impl View for Command {
    type V = CommandView;

    open spec fn view(&self) -> CommandView {
        match *self {
            Command::Upload { bucket, key, content_type } => CommandView::Upload {
                bucket: bucket@,
                key: key@,
                content_type: content_type@,
            },
            Command::DeleteBlob { bucket, key } => CommandView::DeleteBlob {
                bucket: bucket@,
                key: key@,
            },
            Command::Download { bucket, key } => CommandView::Download {
                bucket: bucket@,
                key: key@,
            },
            Command::ListBlobs { bucket } => CommandView::ListBlobs { bucket: bucket@ },
            Command::ProbeBlob { bucket, key } => CommandView::ProbeBlob {
                bucket: bucket@,
                key: key@,
            },
            Command::InsertRow { owner, url } => CommandView::InsertRow { owner, url: url@ },
            Command::SelectRow { owner, id } => CommandView::SelectRow { owner, id },
            Command::SelectRows { owner } => CommandView::SelectRows { owner },
            Command::DeleteRow { owner, id } => CommandView::DeleteRow { owner, id },
            Command::UpdateRow { owner, id, url } => CommandView::UpdateRow {
                owner,
                id,
                url: url@,
            },
        }
    }
}

/// What a store answered to a `Command`.
#[derive(Debug, PartialEq, Eq)]
pub enum Reply {
    /// The payload was written.
    Uploaded,
    /// The object is gone, whether or not it was there.
    BlobDeleted,
    /// The object is there and open for reading.
    Downloaded,
    /// There is no object under the key.
    BlobMissing,
    /// There is an object under the key.
    BlobFound,
    /// The objects of the bucket, each with its key where the store gave
    /// one.
    BlobsListed(Vec<Option<String>>),
    /// The row was inserted; this is the row as the store holds it.
    RowInserted(Image),
    /// The row that matched, if one did.
    RowSelected(Option<Image>),
    /// The rows that matched.
    RowsSelected(Vec<Image>),
    /// The number of rows that were removed.
    RowsDeleted(u64),
    /// The row as the store holds it after the update, if one matched.
    RowUpdated(Option<Image>),
    /// The store failed and changed nothing.
    Failed(ImageError),
}

/// The mathematical value of a `Reply`.
pub enum ReplyView {
    Uploaded,
    BlobDeleted,
    Downloaded,
    BlobMissing,
    BlobFound,
    BlobsListed(Seq<Option<Seq<char>>>),
    RowInserted(ImageView),
    RowSelected(Option<ImageView>),
    RowsSelected(Seq<ImageView>),
    RowsDeleted(u64),
    RowUpdated(Option<ImageView>),
    Failed(ImageErrorView),
}

/// The views of listed objects, in the same order.
pub open spec fn entry_views(entries: Seq<Option<String>>) -> Seq<Option<Seq<char>>> {
    Seq::new(
        entries.len(),
        |i: int|
            match entries[i] {
                Some(key) => Some(key@),
                None => None,
            },
    )
}

/// The views of a list of texts, in the same order.
pub open spec fn text_views(texts: Seq<String>) -> Seq<Seq<char>> {
    Seq::new(texts.len(), |i: int| texts[i]@)
}

/// The view of a row that may be absent.
pub open spec fn optional_view(row: Option<Image>) -> Option<ImageView> {
    match row {
        Some(image) => Some(image@),
        None => None,
    }
}

impl View for Reply {
    type V = ReplyView;

    open spec fn view(&self) -> ReplyView {
        match *self {
            Reply::Uploaded => ReplyView::Uploaded,
            Reply::BlobDeleted => ReplyView::BlobDeleted,
            Reply::Downloaded => ReplyView::Downloaded,
            Reply::BlobMissing => ReplyView::BlobMissing,
            Reply::BlobFound => ReplyView::BlobFound,
            Reply::BlobsListed(entries) => ReplyView::BlobsListed(entry_views(entries@)),
            Reply::RowInserted(image) => ReplyView::RowInserted(image@),
            Reply::RowSelected(row) => ReplyView::RowSelected(optional_view(row)),
            Reply::RowsSelected(rows) => ReplyView::RowsSelected(image_views(rows@)),
            Reply::RowsDeleted(count) => ReplyView::RowsDeleted(count),
            Reply::RowUpdated(row) => ReplyView::RowUpdated(optional_view(row)),
            Reply::Failed(error) => ReplyView::Failed(error@),
        }
    }
}

/// What an operation that succeeded hands to its caller.
#[derive(Debug, PartialEq, Eq)]
pub enum Outcome {
    /// The record of the image that was created.
    Created(Image),
    /// The images of the owner.
    Listed(Vec<Image>),
    /// The image that was asked for, if the owner has it.
    Found(Option<Image>),
    /// Whether a record was removed.
    Deleted(bool),
    /// The record as it stands after the update.
    Updated(Image),
    /// The payload is in the blob store.
    Stored,
    /// The object is open for reading.
    Fetched,
    /// The object is gone from the blob store.
    Removed,
    /// The keys of the bucket.
    Keys(Vec<String>),
    /// Whether the probe saw the object. `false` is no proof of absence:
    /// a probe that failed says `false` too.
    Exists(bool),
}

/// The mathematical value of an `Outcome`.
pub enum OutcomeView {
    Created(ImageView),
    Listed(Seq<ImageView>),
    Found(Option<ImageView>),
    Deleted(bool),
    Updated(ImageView),
    Stored,
    Fetched,
    Removed,
    Keys(Seq<Seq<char>>),
    Exists(bool),
}

impl View for Outcome {
    type V = OutcomeView;

    open spec fn view(&self) -> OutcomeView {
        match *self {
            Outcome::Created(image) => OutcomeView::Created(image@),
            Outcome::Listed(rows) => OutcomeView::Listed(image_views(rows@)),
            Outcome::Found(row) => OutcomeView::Found(optional_view(row)),
            Outcome::Deleted(removed) => OutcomeView::Deleted(removed),
            Outcome::Updated(image) => OutcomeView::Updated(image@),
            Outcome::Stored => OutcomeView::Stored,
            Outcome::Fetched => OutcomeView::Fetched,
            Outcome::Removed => OutcomeView::Removed,
            Outcome::Keys(keys) => OutcomeView::Keys(text_views(keys@)),
            Outcome::Exists(seen) => OutcomeView::Exists(seen),
        }
    }
}

/// How an operation ended.
#[derive(Debug, PartialEq, Eq)]
pub struct Finished {
    /// The one result the caller sees.
    pub result: Result<Outcome, ImageError>,
    /// Why the clean-up after a failure failed in its turn. It is for the
    /// log: it never replaces the failure in `result`.
    pub compensation_failure: Option<ImageError>,
}

/// The mathematical value of a `Finished`.
pub struct FinishedView {
    pub result: Result<OutcomeView, ImageErrorView>,
    pub compensation_failure: Option<ImageErrorView>,
}

impl View for Finished {
    type V = FinishedView;

    open spec fn view(&self) -> FinishedView {
        FinishedView {
            result: match self.result {
                Ok(outcome) => Ok(outcome@),
                Err(error) => Err(error@),
            },
            compensation_failure: match self.compensation_failure {
                Some(error) => Some(error@),
                None => None,
            },
        }
    }
}

/// The end of an operation that succeeded with `outcome`.
pub open spec fn succeeded(outcome: OutcomeView) -> FinishedView {
    FinishedView { result: Ok(outcome), compensation_failure: None }
}

/// The end of an operation that failed with `error` and had nothing to
/// clean up.
pub open spec fn failed(error: ImageErrorView) -> FinishedView {
    FinishedView { result: Err(error), compensation_failure: None }
}

/// The account given of a reply that does not answer the command that was
/// pending.
pub open spec fn unexpected_reply() -> Seq<char> {
    "unexpected reply"@
}

/// The failure that a reply to a blob command stands for, where it is not
/// the success that was awaited: the store's own error, or a storage failure
/// for a reply of the wrong kind.
pub open spec fn blob_failure(reply: ReplyView) -> ImageErrorView {
    match reply {
        ReplyView::Failed(error) => error,
        _ => ImageErrorView::StorageFailure(unexpected_reply()),
    }
}

/// The failure that a reply to a row command stands for, where it is not the
/// success that was awaited: the store's own error, or a store failure for a
/// reply of the wrong kind.
pub open spec fn row_failure(reply: ReplyView) -> ImageErrorView {
    match reply {
        ReplyView::Failed(error) => error,
        _ => ImageErrorView::StoreFailure(unexpected_reply()),
    }
}

/// Keeps an entry as it is: the choice by which a listing is reduced to the
/// keys it holds.
pub open spec fn keep_key() -> spec_fn(Option<Seq<char>>) -> Option<Seq<char>> {
    |entry: Option<Seq<char>>| entry
}

/// The keys of a listing: those of the entries that have one, in order.
pub open spec fn present_keys(entries: Seq<Option<Seq<char>>>) -> Seq<Seq<char>> {
    entries.filter_map(keep_key())
}

/// Collects the keys of the listed objects that have one, in order.
pub fn collect_keys(entries: &Vec<Option<String>>) -> (keys: Vec<String>)
    ensures
        text_views(keys@) == present_keys(entry_views(entries@)),
{
    let mut keys: Vec<String> = Vec::new();
    let mut i: usize = 0;
    while i < entries.len()
        invariant
            i <= entries.len(),
            text_views(keys@) == entry_views(entries@).take(i as int).filter_map(keep_key()),
        decreases entries.len() - i,
    {
        let ghost before = keys@;
        proof {
            entry_views(entries@).lemma_filter_map_take_succ(keep_key(), i as int);
        }
        match &entries[i] {
            Some(key) => {
                keys.push(key.clone());
                assert(text_views(keys@) =~= text_views(before) + seq![key@]);
            },
            None => {
                assert(text_views(before) + Seq::<Seq<char>>::empty() =~= text_views(before));
            },
        }
        i = i + 1;
    }
    assert(entry_views(entries@).take(i as int) =~= entry_views(entries@));
    keys
}

impl Reply {
    /// Reads a reply to a blob command as a failure.
    pub fn into_blob_failure(self) -> (error: ImageError)
        ensures
            error@ == blob_failure(self@),
    {
        match self {
            Reply::Failed(error) => error,
            _ => ImageError::StorageFailure(String::from_str("unexpected reply")),
        }
    }

    /// Reads a reply to a row command as a failure.
    pub fn into_row_failure(self) -> (error: ImageError)
        ensures
            error@ == row_failure(self@),
    {
        match self {
            Reply::Failed(error) => error,
            _ => ImageError::StoreFailure(String::from_str("unexpected reply")),
        }
    }
}

impl Finished {
    /// An operation that succeeded with `outcome`.
    pub fn success(outcome: Outcome) -> (end: Finished)
        ensures
            end@ == succeeded(outcome@),
    {
        Finished { result: Ok(outcome), compensation_failure: None }
    }

    /// An operation that failed with `error` and had nothing to clean up.
    pub fn failure(error: ImageError) -> (end: Finished)
        ensures
            end@ == failed(error@),
    {
        Finished { result: Err(error), compensation_failure: None }
    }
}

} // verus!
