//! The statements behind the row commands.
//!
//! Every statement that reads, changes or removes an image is scoped by the
//! owner as well as by the image, so that one owner's request never reaches
//! another owner's row.

use vstd::prelude::*;

verus! {

/// Inserts an image row and returns it. Parameters: address, owner.
pub const INSERT_IMAGE: &'static str =
    "INSERT INTO images (url, user_id) VALUES ($1, $2) RETURNING *";

/// Fetches the images of an owner. Parameter: owner.
pub const SELECT_IMAGES_OF_OWNER: &'static str = "SELECT * FROM images WHERE user_id = $1";

/// Fetches one image of an owner. Parameters: owner, image.
pub const SELECT_IMAGE: &'static str = "SELECT * FROM images WHERE user_id = $1 AND id = $2";

/// Removes one image of an owner. Parameters: owner, image.
pub const DELETE_IMAGE: &'static str = "DELETE FROM images WHERE user_id = $1 AND id = $2";

/// Sets the address of one image of an owner, stamps it as updated now and
/// returns it. Parameters: address, owner, image.
pub const UPDATE_IMAGE: &'static str =
    "UPDATE images SET url = $1, updated_at = now() WHERE user_id = $2 AND id = $3 RETURNING *";

/// Inserts a user row and returns it. Parameters: name, address, hash.
pub const INSERT_USER: &'static str =
    "INSERT INTO users (username, email, password) VALUES ($1, $2, $3) RETURNING *";

/// Fetches the user with an identifier. Parameter: identifier.
pub const SELECT_USER_BY_ID: &'static str = "SELECT * FROM users WHERE id = $1";

/// Fetches the user with an e-mail address. Parameter: address.
pub const SELECT_USER_BY_EMAIL: &'static str = "SELECT * FROM users WHERE email = $1";

} // verus!
