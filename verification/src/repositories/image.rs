//! The image repository: where a blob lives, what a record says of it, and
//! with which command each image operation starts.

use crate::ident::{hyphenated, id_text};
use crate::repositories::exchange::{Command, CommandView};
use crate::saga::{Saga, SagaView, Step, StepView};
use vstd::prelude::*;
use vstd::string::*;

verus! {

/// The prefix under which all the blobs of one owner live.
pub open spec fn user_key_of(owner: u128) -> Seq<char> {
    "images/"@ + hyphenated(owner)
}

/// The key of one blob: the owner's prefix, a slash and the file name.
pub open spec fn object_key_of(owner: u128, file_name: Seq<char>) -> Seq<char> {
    user_key_of(owner) + "/"@ + file_name
}

/// The logical address that a record keeps of its blob: scheme, bucket and
/// key. It names the object; it is no link that can be fetched.
pub open spec fn image_url_of(bucket: Seq<char>, user_key: Seq<char>, file_name: Seq<char>) -> Seq<
    char,
> {
    "s3://"@ + bucket + "/"@ + user_key + "/"@ + file_name
}

/// The first step of a create: write the payload under the derived key.
pub open spec fn begin_create(
    bucket: Seq<char>,
    owner: u128,
    content_type: Seq<char>,
    file_name: Seq<char>,
) -> StepView {
    let key = object_key_of(owner, file_name);
    StepView::Next(
        SagaView::CreateUploading {
            bucket,
            key,
            owner,
            url: image_url_of(bucket, user_key_of(owner), file_name),
        },
        CommandView::Upload { bucket, key, content_type },
    )
}

/// The only step of a list but for the end: fetch the owner's rows.
pub open spec fn begin_list(owner: u128) -> StepView {
    StepView::Next(SagaView::ListingRows, CommandView::SelectRows { owner })
}

/// The only step of a get but for the end: fetch the row, scoped by owner.
pub open spec fn begin_get(owner: u128, id: u128) -> StepView {
    StepView::Next(SagaView::FindingRow, CommandView::SelectRow { owner, id })
}

/// The first step of a delete: remove the blob under the derived key.
pub open spec fn begin_delete(bucket: Seq<char>, owner: u128, id: u128, file_name: Seq<char>) -> StepView {
    StepView::Next(
        SagaView::DeleteRemovingBlob { owner, id },
        CommandView::DeleteBlob { bucket, key: object_key_of(owner, file_name) },
    )
}

/// The first step of an update: look the row up before anything is written.
pub open spec fn begin_update(
    bucket: Seq<char>,
    owner: u128,
    id: u128,
    file_name: Seq<char>,
    content_type: Seq<char>,
) -> StepView {
    StepView::Next(
        SagaView::UpdateFinding {
            bucket,
            key: object_key_of(owner, file_name),
            content_type,
            owner,
            id,
            url: image_url_of(bucket, user_key_of(owner), file_name),
        },
        CommandView::SelectRow { owner, id },
    )
}

/// The coordinator of image operations over one bucket.
///
/// It holds no connection and no state of an operation: each method hands
/// out the first step of a saga, and the saga carries what it needs.
#[derive(Debug, PartialEq, Eq)]
pub struct ImageRepository {
    bucket: String,
}

impl ImageRepository {
    /// The bucket in which this repository keeps its blobs.
    pub closed spec fn bucket_view(&self) -> Seq<char> {
        self.bucket@
    }

    /// A repository over `bucket`.
    pub fn new(bucket: String) -> (repository: ImageRepository)
        ensures
            repository.bucket_view() == bucket@,
    {
        ImageRepository { bucket }
    }

    /// The name of the bucket.
    pub fn bucket(&self) -> (name: &str)
        ensures
            name@ == self.bucket_view(),
    {
        self.bucket.as_str()
    }

    /// The prefix under which the blobs of `user_id` live.
    pub fn get_user_key(&self, user_id: u128) -> (key: String)
        ensures
            key@ == user_key_of(user_id),
    {
        let text = id_text(user_id);
        let mut key = String::from_str("images/");
        key.append(text.as_str());
        key
    }

    /// The key of the blob that `user_id` keeps under `file_name`.
    pub fn get_object_key(&self, user_id: u128, file_name: &str) -> (key: String)
        ensures
            key@ == object_key_of(user_id, file_name@),
    {
        let mut key = self.get_user_key(user_id);
        key.append("/");
        key.append(file_name);
        key
    }

    /// The logical address of the blob under `user_key` and `file_name` in
    /// this repository's bucket.
    pub fn get_image_url(&self, user_key: String, file_name: &str) -> (url: String)
        ensures
            url@ == image_url_of(self.bucket_view(), user_key@, file_name@),
    {
        let mut url = String::from_str("s3://");
        url.append(self.bucket.as_str());
        url.append("/");
        url.append(user_key.as_str());
        url.append("/");
        url.append(file_name);
        url
    }

    /// Starts the creation of an image of `user_id` under `file_name`.
    ///
    /// The blob is written first and the row second, so that no row ever
    /// names a blob that was not written.
    pub fn create(&self, user_id: u128, content_type: &str, file_name: &str) -> (step: Step)
        ensures
            step@ == begin_create(self.bucket_view(), user_id, content_type@, file_name@),
    {
        let key = self.get_object_key(user_id, file_name);
        let url = self.get_image_url(self.get_user_key(user_id), file_name);
        Step::Next(
            Saga::CreateUploading {
                bucket: self.bucket.clone(),
                key: key.clone(),
                owner: user_id,
                url,
            },
            Command::Upload {
                bucket: self.bucket.clone(),
                key,
                content_type: String::from_str(content_type),
            },
        )
    }

    /// Starts the listing of the images of `user_id`.
    pub fn get_by_user_id(&self, user_id: u128) -> (step: Step)
        ensures
            step@ == begin_list(user_id),
    {
        Step::Next(Saga::ListingRows, Command::SelectRows { owner: user_id })
    }

    /// Starts the lookup of image `image_id` among the images of `user_id`.
    pub fn get_by_id(&self, user_id: u128, image_id: u128) -> (step: Step)
        ensures
            step@ == begin_get(user_id, image_id),
    {
        Step::Next(Saga::FindingRow, Command::SelectRow { owner: user_id, id: image_id })
    }

    /// Starts the deletion of image `image_id` of `user_id`, whose blob lives
    /// under `file_name`. The blob goes first, the row second.
    pub fn delete(&self, user_id: u128, image_id: u128, file_name: &str) -> (step: Step)
        ensures
            step@ == begin_delete(self.bucket_view(), user_id, image_id, file_name@),
    {
        Step::Next(
            Saga::DeleteRemovingBlob { owner: user_id, id: image_id },
            Command::DeleteBlob {
                bucket: self.bucket.clone(),
                key: self.get_object_key(user_id, file_name),
            },
        )
    }

    /// Starts the update of image `image_id` of `user_id` with new content
    /// under `file_name`. Nothing is written before the row is known to
    /// exist, and the row is refreshed after the blob is written.
    pub fn update(
        &self,
        user_id: u128,
        image_id: u128,
        file_name: &str,
        content_type: &str,
    ) -> (step: Step)
        ensures
            step@ == begin_update(
                self.bucket_view(),
                user_id,
                image_id,
                file_name@,
                content_type@,
            ),
    {
        let key = self.get_object_key(user_id, file_name);
        let url = self.get_image_url(self.get_user_key(user_id), file_name);
        Step::Next(
            Saga::UpdateFinding {
                bucket: self.bucket.clone(),
                key,
                content_type: String::from_str(content_type),
                owner: user_id,
                id: image_id,
                url,
            },
            Command::SelectRow { owner: user_id, id: image_id },
        )
    }
}

impl Clone for ImageRepository {
    fn clone(&self) -> (copy: ImageRepository)
        ensures
            copy == *self,
    {
        ImageRepository { bucket: self.bucket.clone() }
    }
}

} // verus!
