//! Image records and the shapes in which they are handed to clients.

use crate::clock::Timestamp;
use crate::models::user::UserResponse;
use vstd::prelude::*;
use vstd::std_specs::convert::FromSpecImpl;

verus! {

/// One row of image metadata: which owner the image belongs to and where its
/// content lives.
#[derive(Debug, PartialEq, Eq)]
pub struct Image {
    pub id: u128,
    /// The logical address of the content: bucket and key, not a link that
    /// can be fetched.
    pub url: String,
    pub created_at: Timestamp,
    pub updated_at: Timestamp,
    pub user_id: u128,
}

/// The mathematical value of an `Image`.
pub struct ImageView {
    pub id: u128,
    pub url: Seq<char>,
    pub created_at: Timestamp,
    pub updated_at: Timestamp,
    pub user_id: u128,
}

impl View for Image {
    type V = ImageView;

    open spec fn view(&self) -> ImageView {
        ImageView {
            id: self.id,
            url: self.url@,
            created_at: self.created_at,
            updated_at: self.updated_at,
            user_id: self.user_id,
        }
    }
}

/// The views of a list of images, in the same order.
pub open spec fn image_views(images: Seq<Image>) -> Seq<ImageView> {
    Seq::new(images.len(), |i: int| images[i]@)
}

/// What a client sees of an image: everything but its owner.
#[derive(Debug, PartialEq, Eq)]
pub struct ImageResponse {
    pub id: u128,
    pub url: String,
    pub created_at: Timestamp,
    pub updated_at: Timestamp,
}

impl From<Image> for ImageResponse {
    fn from(image: Image) -> (response: ImageResponse) {
        ImageResponse {
            id: image.id,
            url: image.url,
            created_at: image.created_at,
            updated_at: image.updated_at,
        }
    }
}

impl FromSpecImpl<Image> for ImageResponse {
    open spec fn obeys_from_spec() -> bool {
        true
    }

    open spec fn from_spec(image: Image) -> ImageResponse {
        ImageResponse {
            id: image.id,
            url: image.url,
            created_at: image.created_at,
            updated_at: image.updated_at,
        }
    }
}

impl<'a> From<&'a Image> for ImageResponse {
    fn from(image: &'a Image) -> (response: ImageResponse) {
        ImageResponse {
            id: image.id,
            url: image.url.clone(),
            created_at: image.created_at,
            updated_at: image.updated_at,
        }
    }
}

impl<'a> FromSpecImpl<&'a Image> for ImageResponse {
    open spec fn obeys_from_spec() -> bool {
        true
    }

    open spec fn from_spec(image: &'a Image) -> ImageResponse {
        ImageResponse {
            id: image.id,
            url: image.url,
            created_at: image.created_at,
            updated_at: image.updated_at,
        }
    }
}

/// An image together with the public face of its owner.
#[derive(Debug, PartialEq, Eq)]
pub struct ImageWithUser {
    pub image: ImageResponse,
    pub user: UserResponse,
}

/// All the images of one owner, with the owner's public face.
#[derive(Debug, PartialEq, Eq)]
pub struct ImageGalleryResponse {
    pub user: UserResponse,
    pub images: Vec<ImageResponse>,
}

impl Clone for Image {
    fn clone(&self) -> (copy: Image)
        ensures
            copy == *self,
    {
        Image {
            id: self.id,
            url: self.url.clone(),
            created_at: self.created_at,
            updated_at: self.updated_at,
            user_id: self.user_id,
        }
    }
}

impl Clone for ImageResponse {
    fn clone(&self) -> (copy: ImageResponse)
        ensures
            copy == *self,
    {
        ImageResponse {
            id: self.id,
            url: self.url.clone(),
            created_at: self.created_at,
            updated_at: self.updated_at,
        }
    }
}

impl Clone for ImageWithUser {
    fn clone(&self) -> (copy: ImageWithUser)
        ensures
            copy == *self,
    {
        ImageWithUser { image: self.image.clone(), user: self.user.clone() }
    }
}

impl Clone for ImageGalleryResponse {
    fn clone(&self) -> (copy: ImageGalleryResponse)
        ensures
            copy.user == self.user,
            copy.images@ == self.images@,
    {
        ImageGalleryResponse { user: self.user.clone(), images: self.images.clone() }
    }
}

} // verus!
