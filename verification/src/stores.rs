//! What the two stores hold and how they answer: the model against which the
//! sagas are judged.
//!
//! The blob store maps a bucket and a key to an object. The relational store
//! maps an image identifier, its primary key, to a row. A store that fails
//! changes nothing. A store that answers holds afterwards what the command
//! asked for. Nothing here runs: the model is the yardstick for whatever
//! performs the commands.

use crate::models::image::ImageView;
use crate::repositories::exchange::{present_keys, CommandView, ReplyView};
use crate::saga::{next_step, StepView};
use vstd::prelude::*;

verus! {

/// One object of the blob store.
pub struct Blob {
    pub content_type: Seq<char>,
    pub body: Seq<u8>,
}

/// The contents of both stores at one moment.
pub struct World {
    /// The objects, by bucket and key.
    pub blobs: Map<(Seq<char>, Seq<char>), Blob>,
    /// The image rows, by identifier.
    pub rows: Map<u128, ImageView>,
}

impl World {
    /// Every row is filed under its own identifier.
    pub open spec fn well_formed(self) -> bool {
        forall|id: u128| #[trigger] self.rows.dom().contains(id) ==> self.rows[id].id == id
    }

    /// The row with identifier `id`, if there is one and it belongs to
    /// `owner`.
    pub open spec fn find(self, owner: u128, id: u128) -> Option<ImageView> {
        if self.rows.dom().contains(id) && self.rows[id].user_id == owner {
            Some(self.rows[id])
        } else {
            None
        }
    }

    /// `row` is held, as it stands, among the rows of `owner`.
    pub open spec fn holds_for(self, owner: u128, row: ImageView) -> bool {
        self.find(owner, row.id) == Some(row)
    }

    /// The keys under which `bucket` holds an object.
    pub open spec fn blob_keys(self, bucket: Seq<char>) -> Set<Seq<char>> {
        Set::new(|key: Seq<char>| self.blobs.dom().contains((bucket, key)))
    }

    /// `listing` names each row of `owner` exactly once and nothing else.
    pub open spec fn lists_for(self, owner: u128, listing: Seq<ImageView>) -> bool {
        &&& forall|i: int| 0 <= i < listing.len() ==> self.holds_for(owner, #[trigger] listing[i])
        &&& forall|i: int, j: int|
            0 <= i < j < listing.len() ==> (#[trigger] listing[i]).id != (#[trigger] listing[j]).id
        &&& forall|id: u128|
            (#[trigger] self.find(owner, id)) is Some ==> exists|i: int|
                0 <= i < listing.len() && (#[trigger] listing[i]).id == id
    }

    /// `keys` names each key of `bucket` exactly once and nothing else.
    pub open spec fn lists_bucket(self, bucket: Seq<char>, keys: Seq<Seq<char>>) -> bool {
        &&& forall|i: int| 0 <= i < keys.len() ==> self.blob_keys(bucket).contains(#[trigger] keys[i])
        &&& forall|i: int, j: int| 0 <= i < j < keys.len() ==> #[trigger] keys[i] != #[trigger] keys[j]
        &&& forall|key: Seq<char>| #[trigger]
            self.blob_keys(bucket).contains(key) ==> keys.contains(key)
    }

    /// Whether a store in this state may give `reply` to `command`.
    ///
    /// Any command may fail. A write or a removal of an object that does not
    /// fail succeeds, and removing an absent object is such a success. A
    /// read or a probe sees the object exactly when it is there, and a
    /// listing holds the keys of the bucket, all of them. A row command
    /// answers by what the table holds: a lookup is scoped by owner, an
    /// insert returns a row under a fresh identifier with the owner and
    /// address that were given, a removal counts the one row it removed or
    /// none, and an update returns the row with its new address, its old
    /// identity, owner and creation time, and a time of update that lies
    /// after the one it had.
    pub open spec fn may_answer(self, command: CommandView, reply: ReplyView) -> bool {
        match (command, reply) {
            (_, ReplyView::Failed(_)) => true,
            (CommandView::Upload { .. }, ReplyView::Uploaded) => true,
            (CommandView::DeleteBlob { .. }, ReplyView::BlobDeleted) => true,
            (CommandView::Download { bucket, key }, ReplyView::Downloaded) => self.blob_keys(
                bucket,
            ).contains(key),
            (CommandView::Download { bucket, key }, ReplyView::BlobMissing) => !self.blob_keys(
                bucket,
            ).contains(key),
            (CommandView::ProbeBlob { bucket, key }, ReplyView::BlobFound) => self.blob_keys(
                bucket,
            ).contains(key),
            (CommandView::ProbeBlob { bucket, key }, ReplyView::BlobMissing) => !self.blob_keys(
                bucket,
            ).contains(key),
            (CommandView::ListBlobs { bucket }, ReplyView::BlobsListed(entries)) => {
                self.lists_bucket(bucket, present_keys(entries))
            },
            (CommandView::InsertRow { owner, url }, ReplyView::RowInserted(row)) => {
                &&& !self.rows.dom().contains(row.id)
                &&& row.user_id == owner
                &&& row.url == url
            },
            (CommandView::SelectRow { owner, id }, ReplyView::RowSelected(row)) => row
                == self.find(owner, id),
            (CommandView::SelectRows { owner }, ReplyView::RowsSelected(listing)) => self.lists_for(
                owner,
                listing,
            ),
            (CommandView::DeleteRow { owner, id }, ReplyView::RowsDeleted(count)) => count == (
            if self.find(owner, id) is Some {
                1u64
            } else {
                0u64
            }),
            (CommandView::UpdateRow { owner, id, url }, ReplyView::RowUpdated(row)) => {
                match self.find(owner, id) {
                    Some(old) => {
                        &&& row matches Some(new)
                        &&& new.id == id
                        &&& new.user_id == owner
                        &&& new.url == url
                        &&& new.created_at == old.created_at
                        &&& old.updated_at.precedes(new.updated_at)
                    },
                    None => row is None,
                }
            },
            _ => false,
        }
    }

    /// What the stores hold after `command` was answered with `reply`, where
    /// an upload carried `payload`.
    pub open spec fn after(self, command: CommandView, payload: Seq<u8>, reply: ReplyView) -> World {
        match (command, reply) {
            (CommandView::Upload { bucket, key, content_type }, ReplyView::Uploaded) => World {
                blobs: self.blobs.insert((bucket, key), Blob { content_type, body: payload }),
                ..self
            },
            (CommandView::DeleteBlob { bucket, key }, ReplyView::BlobDeleted) => World {
                blobs: self.blobs.remove((bucket, key)),
                ..self
            },
            (CommandView::InsertRow { .. }, ReplyView::RowInserted(row)) => World {
                rows: self.rows.insert(row.id, row),
                ..self
            },
            (CommandView::DeleteRow { owner, id }, ReplyView::RowsDeleted(_)) => {
                if self.find(owner, id) is Some {
                    World { rows: self.rows.remove(id), ..self }
                } else {
                    self
                }
            },
            (CommandView::UpdateRow { owner, id, .. }, ReplyView::RowUpdated(Some(row))) => {
                if self.find(owner, id) is Some {
                    World { rows: self.rows.insert(id, row), ..self }
                } else {
                    self
                }
            },
            _ => self,
        }
    }
}

/// An operation under way: what the stores hold, and the step it is at.
pub struct Run {
    pub world: World,
    pub step: StepView,
}

impl Run {
    /// The operation has ended.
    pub open spec fn ended(self) -> bool {
        self.step is Done
    }

    /// Whether the stores may give `reply` to the pending command. An
    /// operation that has ended awaits nothing, so nothing contradicts it.
    pub open spec fn may_hear(self, reply: ReplyView) -> bool {
        match self.step {
            StepView::Next(_, command) => self.world.may_answer(command, reply),
            StepView::Done(_) => true,
        }
    }

    /// The operation after the pending command was performed, with
    /// `payload` where it is an upload, and answered with `reply`. An
    /// operation that has ended stays as it is.
    pub open spec fn hear(self, payload: Seq<u8>, reply: ReplyView) -> Run {
        match self.step {
            StepView::Next(saga, command) => Run {
                world: self.world.after(command, payload, reply),
                step: next_step(saga, reply),
            },
            StepView::Done(_) => self,
        }
    }
}

} // verus!
