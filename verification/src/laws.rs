//! What the sagas guarantee, whatever the stores answer.
//!
//! Each law takes the stores in any state, starts an operation as the
//! repository starts it, lets the stores answer, and says what holds at the
//! end. The answers are those the model of the stores allows: any command
//! may fail, and a command that succeeds does what it says.

use crate::aws::s3_client::{begin_download, begin_listing, begin_probe, begin_removal};
use crate::clock::Timestamp;
use crate::ident::{hyphenated, nibble, text_determines_identifier};
use crate::models::image::ImageView;
use crate::models::user::{public_face, UserSession, UserView};
use crate::repositories::exchange::{
    failed, succeeded, CommandView, FinishedView, ImageErrorView, OutcomeView, ReplyView,
};
use crate::repositories::image::{
    begin_create, begin_delete, begin_get, begin_list, begin_update, image_url_of, object_key_of,
    user_key_of,
};
use crate::saga::{SagaView, StepView};
use crate::security::{verified_against, PasswordErrorView};
use crate::services::account::{
    login_decision, next_user_step, session_decision, UserCommandView, UserOutcomeView,
    UserReplyView, UserSagaView, UserStepView,
};
use crate::stores::{Blob, Run, World};
use vstd::prelude::*;

verus! {

/// The text of the identifier zero is all zeros.
pub proof fn text_of_the_zero_identifier()
    ensures
        hyphenated(0) == "00000000-0000-0000-0000-000000000000"@,
{
    reveal_strlit("00000000-0000-0000-0000-000000000000");
    assert forall|digit: int| 0 <= digit < 32 implies nibble(0, digit) == 0 by {
        let shift = ((31 - digit) * 4) as u128;
        assert((0u128 >> shift) & 0xf == 0) by (bit_vector);
    }
    assert(hyphenated(0) =~= "00000000-0000-0000-0000-000000000000"@);
}

/// Two owners never share a prefix: the prefixes of two owners are the same
/// only where the owners are.
pub proof fn owners_have_their_own_prefix(first: u128, second: u128)
    requires
        user_key_of(first) == user_key_of(second),
    ensures
        first == second,
{
    reveal_strlit("images/");
    text_determines_identifier(first, second);
    let one = user_key_of(first);
    let other = user_key_of(second);
    assert(one.subrange(7, 43) =~= hyphenated(first));
    assert(other.subrange(7, 43) =~= hyphenated(second));
}

/// Two blobs share a key only where owner and file name are the same, and
/// there they always do: uploads of one owner under one file name collide,
/// and no others.
pub proof fn blob_keys_collide_for_the_same_owner_and_file_name_only(
    first: u128,
    first_name: Seq<char>,
    second: u128,
    second_name: Seq<char>,
)
    ensures
        object_key_of(first, first_name) == object_key_of(second, second_name) <==> first == second
            && first_name == second_name,
{
    reveal_strlit("images/");
    reveal_strlit("/");
    text_determines_identifier(first, second);
    text_determines_identifier(second, first);
    let one = object_key_of(first, first_name);
    let other = object_key_of(second, second_name);
    assert(one.subrange(7, 43) =~= hyphenated(first));
    assert(other.subrange(7, 43) =~= hyphenated(second));
    assert(one.subrange(44, one.len() as int) =~= first_name);
    assert(other.subrange(44, other.len() as int) =~= second_name);
}

/// Every operation ends after at most three replies, whatever they are.
pub proof fn every_operation_ends_within_three_replies(
    world: World,
    bucket: Seq<char>,
    owner: u128,
    id: u128,
    file_name: Seq<char>,
    content_type: Seq<char>,
    payload: Seq<u8>,
    first: ReplyView,
    second: ReplyView,
    third: ReplyView,
)
    ensures
        ({
            let create = Run { world, step: begin_create(bucket, owner, content_type, file_name) };
            let list = Run { world, step: begin_list(owner) };
            let get = Run { world, step: begin_get(owner, id) };
            let delete = Run { world, step: begin_delete(bucket, owner, id, file_name) };
            let update = Run {
                world,
                step: begin_update(bucket, owner, id, file_name, content_type),
            };
            &&& create.hear(payload, first).hear(payload, second).hear(payload, third).ended()
            &&& list.hear(payload, first).ended()
            &&& get.hear(payload, first).ended()
            &&& delete.hear(payload, first).hear(payload, second).ended()
            &&& update.hear(payload, first).hear(payload, second).hear(payload, third).ended()
        }),
{
}

/// A create whose two writes succeed leaves the payload under the derived
/// key and a row whose address names that key, and returns that row.
pub proof fn create_writes_blob_then_row(
    world: World,
    bucket: Seq<char>,
    owner: u128,
    content_type: Seq<char>,
    file_name: Seq<char>,
    payload: Seq<u8>,
    row: ImageView,
)
    requires
        world.may_answer(
            CommandView::InsertRow {
                owner,
                url: image_url_of(bucket, user_key_of(owner), file_name),
            },
            ReplyView::RowInserted(row),
        ),
    ensures
        ({
            let start = Run { world, step: begin_create(bucket, owner, content_type, file_name) };
            let uploaded = start.hear(payload, ReplyView::Uploaded);
            let end = uploaded.hear(payload, ReplyView::RowInserted(row));
            let key = object_key_of(owner, file_name);
            &&& start.may_hear(ReplyView::Uploaded)
            &&& uploaded.may_hear(ReplyView::RowInserted(row))
            &&& end.step == StepView::Done(succeeded(OutcomeView::Created(row)))
            &&& end.world.blobs.dom().contains((bucket, key))
            &&& end.world.blobs[(bucket, key)] == Blob { content_type, body: payload }
            &&& end.world.holds_for(owner, row)
            &&& row.url == image_url_of(bucket, user_key_of(owner), file_name)
        }),
{
}

/// A create whose upload fails changes nothing, asks for no clean-up and
/// returns the upload's error.
pub proof fn create_stops_at_a_failed_upload(
    world: World,
    bucket: Seq<char>,
    owner: u128,
    content_type: Seq<char>,
    file_name: Seq<char>,
    payload: Seq<u8>,
    error: ImageErrorView,
)
    ensures
        ({
            let start = Run { world, step: begin_create(bucket, owner, content_type, file_name) };
            let end = start.hear(payload, ReplyView::Failed(error));
            &&& start.may_hear(ReplyView::Failed(error))
            &&& end.step == StepView::Done(failed(error))
            &&& end.world == world
        }),
{
}

/// No orphaned metadata: where the insert of a create fails and the
/// compensating removal succeeds, the bucket no longer lists the key that
/// was written, no row was added, and the error returned is the insert's.
pub proof fn failed_insert_leaves_no_blob_behind(
    world: World,
    bucket: Seq<char>,
    owner: u128,
    content_type: Seq<char>,
    file_name: Seq<char>,
    payload: Seq<u8>,
    error: ImageErrorView,
)
    ensures
        ({
            let start = Run { world, step: begin_create(bucket, owner, content_type, file_name) };
            let uploaded = start.hear(payload, ReplyView::Uploaded);
            let refused = uploaded.hear(payload, ReplyView::Failed(error));
            let end = refused.hear(payload, ReplyView::BlobDeleted);
            let key = object_key_of(owner, file_name);
            &&& start.may_hear(ReplyView::Uploaded)
            &&& uploaded.may_hear(ReplyView::Failed(error))
            &&& refused.step == StepView::Next(
                SagaView::CreateCompensating { error },
                CommandView::DeleteBlob { bucket, key },
            )
            &&& refused.may_hear(ReplyView::BlobDeleted)
            &&& end.step == StepView::Done(failed(error))
            &&& !end.world.blob_keys(bucket).contains(key)
            &&& end.world.rows == world.rows
        }),
{
}

/// The accepted window: where the compensating removal fails too, the blob
/// stays behind without a row. The caller still gets the insert's error;
/// the removal's error is set aside for the log.
pub proof fn failed_compensation_keeps_the_first_error(
    world: World,
    bucket: Seq<char>,
    owner: u128,
    content_type: Seq<char>,
    file_name: Seq<char>,
    payload: Seq<u8>,
    error: ImageErrorView,
    second_error: ImageErrorView,
)
    ensures
        ({
            let start = Run { world, step: begin_create(bucket, owner, content_type, file_name) };
            let end = start.hear(payload, ReplyView::Uploaded).hear(
                payload,
                ReplyView::Failed(error),
            ).hear(payload, ReplyView::Failed(second_error));
            let key = object_key_of(owner, file_name);
            &&& end.step == StepView::Done(
                FinishedView { result: Err(error), compensation_failure: Some(second_error) },
            )
            &&& end.world.blob_keys(bucket).contains(key)
            &&& end.world.rows == world.rows
        }),
{
}

/// Whatever the stores answer to a create, a row that it added names a blob
/// that is there: the row's address is the derived one, and the derived key
/// holds the payload.
pub proof fn create_adds_no_row_without_its_blob(
    world: World,
    bucket: Seq<char>,
    owner: u128,
    content_type: Seq<char>,
    file_name: Seq<char>,
    payload: Seq<u8>,
    first: ReplyView,
    second: ReplyView,
    third: ReplyView,
    id: u128,
)
    requires
        ({
            let start = Run { world, step: begin_create(bucket, owner, content_type, file_name) };
            &&& start.may_hear(first)
            &&& start.hear(payload, first).may_hear(second)
            &&& start.hear(payload, first).hear(payload, second).may_hear(third)
        }),
    ensures
        ({
            let start = Run { world, step: begin_create(bucket, owner, content_type, file_name) };
            let end = start.hear(payload, first).hear(payload, second).hear(payload, third);
            let key = object_key_of(owner, file_name);
            end.world.rows.dom().contains(id) && !world.rows.dom().contains(id) ==> {
                &&& end.world.rows[id].url == image_url_of(bucket, user_key_of(owner), file_name)
                &&& end.world.rows[id].user_id == owner
                &&& end.world.blobs.dom().contains((bucket, key))
                &&& end.world.blobs[(bucket, key)].body == payload
            }
        }),
{
}

/// A probe never fails, whatever the store answers, and it says `true` only
/// where the store saw the object. Where the store answers in keeping with
/// what it holds, `true` means that the object is there. `false` means
/// less: the probe may have failed.
pub proof fn probe_never_fails(
    world: World,
    bucket: Seq<char>,
    key: Seq<char>,
    payload: Seq<u8>,
    reply: ReplyView,
)
    ensures
        ({
            let start = Run { world, step: begin_probe(bucket, key) };
            let end = start.hear(payload, reply);
            let seen = reply == ReplyView::BlobFound;
            &&& end.step == StepView::Done(succeeded(OutcomeView::Exists(seen)))
            &&& end.world == world
            &&& start.may_hear(reply) && seen ==> world.blob_keys(bucket).contains(key)
        }),
{
}

/// A download of a key that is not there ends in `NotFound`; any other
/// failure is the store's own. Nothing is changed either way.
pub proof fn download_of_a_missing_key_is_not_found(
    world: World,
    bucket: Seq<char>,
    key: Seq<char>,
    payload: Seq<u8>,
    reply: ReplyView,
)
    requires
        (Run { world, step: begin_download(bucket, key) }).may_hear(reply),
        (reply !is Failed),
    ensures
        ({
            let end = Run { world, step: begin_download(bucket, key) }.hear(payload, reply);
            let there = world.blob_keys(bucket).contains(key);
            &&& end.world == world
            &&& there ==> end.step == StepView::Done(succeeded(OutcomeView::Fetched))
            &&& !there ==> end.step == StepView::Done(failed(ImageErrorView::NotFound))
        }),
{
}

/// A listing that meets no failure returns the keys of the bucket: every
/// key that is there, and no key twice.
pub proof fn listing_returns_the_keys_of_the_bucket(
    world: World,
    bucket: Seq<char>,
    payload: Seq<u8>,
    reply: ReplyView,
    key: Seq<char>,
)
    requires
        (Run { world, step: begin_listing(bucket) }).may_hear(reply),
        (reply !is Failed),
    ensures
        ({
            let end = Run { world, step: begin_listing(bucket) }.hear(payload, reply);
            &&& end.world == world
            &&& end.step matches StepView::Done(finished)
            &&& finished.compensation_failure is None
            &&& finished.result matches Ok(OutcomeView::Keys(keys))
            &&& world.lists_bucket(bucket, keys)
            &&& keys.contains(key) <==> world.blob_keys(bucket).contains(key)
        }),
{
}

/// After a create whose insert failed and whose compensation succeeded, a
/// listing of the bucket that meets no failure does not hold the key that
/// the create had written.
pub proof fn listing_after_a_compensated_create_lacks_the_key(
    world: World,
    bucket: Seq<char>,
    owner: u128,
    content_type: Seq<char>,
    file_name: Seq<char>,
    payload: Seq<u8>,
    error: ImageErrorView,
    listing: ReplyView,
)
    requires
        (listing !is Failed),
        ({
            let start = Run { world, step: begin_create(bucket, owner, content_type, file_name) };
            let end = start.hear(payload, ReplyView::Uploaded).hear(
                payload,
                ReplyView::Failed(error),
            ).hear(payload, ReplyView::BlobDeleted);
            let list = Run { world: end.world, step: begin_listing(bucket) };
            list.may_hear(listing)
        }),
    ensures
        ({
            let start = Run { world, step: begin_create(bucket, owner, content_type, file_name) };
            let end = start.hear(payload, ReplyView::Uploaded).hear(
                payload,
                ReplyView::Failed(error),
            ).hear(payload, ReplyView::BlobDeleted);
            let list = Run { world: end.world, step: begin_listing(bucket) };
            &&& list.hear(payload, listing).step matches StepView::Done(finished)
            &&& finished.result matches Ok(OutcomeView::Keys(keys))
            &&& !keys.contains(object_key_of(owner, file_name))
        }),
{
    let start = Run { world, step: begin_create(bucket, owner, content_type, file_name) };
    let end = start.hear(payload, ReplyView::Uploaded).hear(payload, ReplyView::Failed(error)).hear(
        payload,
        ReplyView::BlobDeleted,
    );
    let key = object_key_of(owner, file_name);
    assert(!end.world.blob_keys(bucket).contains(key));
}

/// A removal through the blob store's own operation succeeds on a key that
/// is not there, so it can be repeated: the second ends as the first did.
pub proof fn removal_can_be_repeated(
    world: World,
    bucket: Seq<char>,
    key: Seq<char>,
    payload: Seq<u8>,
)
    ensures
        ({
            let first = Run { world, step: begin_removal(bucket, key) };
            let once = first.hear(payload, ReplyView::BlobDeleted);
            let second = Run { world: once.world, step: begin_removal(bucket, key) };
            let twice = second.hear(payload, ReplyView::BlobDeleted);
            &&& first.may_hear(ReplyView::BlobDeleted)
            &&& second.may_hear(ReplyView::BlobDeleted)
            &&& once.step == StepView::Done(succeeded(OutcomeView::Removed))
            &&& twice.step == StepView::Done(succeeded(OutcomeView::Removed))
            &&& !twice.world.blob_keys(bucket).contains(key)
            &&& twice.world == once.world
        }),
{
    let first = Run { world, step: begin_removal(bucket, key) };
    let once = first.hear(payload, ReplyView::BlobDeleted);
    let second = Run { world: once.world, step: begin_removal(bucket, key) };
    let twice = second.hear(payload, ReplyView::BlobDeleted);
    assert(twice.world.blobs =~= once.world.blobs);
}

/// Idempotent delete: removing an object is a success whether or not the
/// key is there, so a second removal of the same key succeeds as the first
/// did and changes nothing more.
pub proof fn removing_a_blob_twice_succeeds_twice(
    world: World,
    bucket: Seq<char>,
    key: Seq<char>,
    payload: Seq<u8>,
)
    ensures
        ({
            let command = CommandView::DeleteBlob { bucket, key };
            let once = world.after(command, payload, ReplyView::BlobDeleted);
            let twice = once.after(command, payload, ReplyView::BlobDeleted);
            &&& world.may_answer(command, ReplyView::BlobDeleted)
            &&& once.may_answer(command, ReplyView::BlobDeleted)
            &&& !once.blob_keys(bucket).contains(key)
            &&& twice == once
        }),
{
    let command = CommandView::DeleteBlob { bucket, key };
    let once = world.after(command, payload, ReplyView::BlobDeleted);
    let twice = once.after(command, payload, ReplyView::BlobDeleted);
    assert(twice.blobs =~= once.blobs);
}

/// A delete that meets no failure removes the blob and the row and says
/// whether there was a row. Repeated, it meets no error on the blob that is
/// already gone, removes nothing and says so.
pub proof fn delete_twice_removes_once(
    world: World,
    bucket: Seq<char>,
    owner: u128,
    id: u128,
    file_name: Seq<char>,
    payload: Seq<u8>,
    first_count: u64,
    second_count: u64,
)
    requires
        world.may_answer(CommandView::DeleteRow { owner, id }, ReplyView::RowsDeleted(first_count)),
        world.after(
            CommandView::DeleteRow { owner, id },
            payload,
            ReplyView::RowsDeleted(first_count),
        ).may_answer(CommandView::DeleteRow { owner, id }, ReplyView::RowsDeleted(second_count)),
    ensures
        ({
            let key = object_key_of(owner, file_name);
            let start = Run { world, step: begin_delete(bucket, owner, id, file_name) };
            let end = start.hear(payload, ReplyView::BlobDeleted).hear(
                payload,
                ReplyView::RowsDeleted(first_count),
            );
            let again = Run { world: end.world, step: begin_delete(bucket, owner, id, file_name) };
            let end_again = again.hear(payload, ReplyView::BlobDeleted).hear(
                payload,
                ReplyView::RowsDeleted(second_count),
            );
            &&& start.may_hear(ReplyView::BlobDeleted)
            &&& start.hear(payload, ReplyView::BlobDeleted).may_hear(
                ReplyView::RowsDeleted(first_count),
            )
            &&& end.step == StepView::Done(
                succeeded(OutcomeView::Deleted(world.find(owner, id) is Some)),
            )
            &&& !end.world.blob_keys(bucket).contains(key)
            &&& end.world.find(owner, id) is None
            &&& again.may_hear(ReplyView::BlobDeleted)
            &&& again.hear(payload, ReplyView::BlobDeleted).may_hear(
                ReplyView::RowsDeleted(second_count),
            )
            &&& end_again.step == StepView::Done(succeeded(OutcomeView::Deleted(false)))
            &&& end_again.world.rows == end.world.rows
            &&& end_again.world.blobs == end.world.blobs
        }),
{
    let key = object_key_of(owner, file_name);
    let start = Run { world, step: begin_delete(bucket, owner, id, file_name) };
    let end = start.hear(payload, ReplyView::BlobDeleted).hear(
        payload,
        ReplyView::RowsDeleted(first_count),
    );
    let again = Run { world: end.world, step: begin_delete(bucket, owner, id, file_name) };
    let end_again = again.hear(payload, ReplyView::BlobDeleted).hear(
        payload,
        ReplyView::RowsDeleted(second_count),
    );
    assert(end_again.world.blobs =~= end.world.blobs);
    assert(end_again.world.rows =~= end.world.rows);
}

/// A delete whose blob removal fails ends there: the row is not touched and
/// the removal's error is returned.
pub proof fn delete_stops_at_a_failed_blob_removal(
    world: World,
    bucket: Seq<char>,
    owner: u128,
    id: u128,
    file_name: Seq<char>,
    payload: Seq<u8>,
    error: ImageErrorView,
)
    ensures
        ({
            let start = Run { world, step: begin_delete(bucket, owner, id, file_name) };
            let end = start.hear(payload, ReplyView::Failed(error));
            &&& end.step == StepView::Done(failed(error))
            &&& end.world == world
        }),
{
}

/// Scoped isolation: a get by one owner of an image that belongs to another
/// owner finds nothing.
pub proof fn get_finds_no_image_of_another_owner(
    world: World,
    owner: u128,
    other_owner: u128,
    id: u128,
    payload: Seq<u8>,
    reply: ReplyView,
)
    requires
        (world.find(other_owner, id) is Some),
        owner != other_owner,
        (reply !is Failed),
        (Run { world, step: begin_get(owner, id) }).may_hear(reply),
    ensures
        ({
            let end = Run { world, step: begin_get(owner, id) }.hear(payload, reply);
            &&& world.find(owner, id) is None
            &&& end.step == StepView::Done(succeeded(OutcomeView::Found(None)))
            &&& end.world == world
        }),
{
}

/// A list names the rows of its owner only, each once, and changes nothing.
pub proof fn list_names_the_owners_rows_only(
    world: World,
    owner: u128,
    payload: Seq<u8>,
    listing: Seq<ImageView>,
    i: int,
)
    requires
        (Run { world, step: begin_list(owner) }).may_hear(ReplyView::RowsSelected(listing)),
        0 <= i < listing.len(),
    ensures
        ({
            let start = Run { world, step: begin_list(owner) };
            let end = start.hear(payload, ReplyView::RowsSelected(listing));
            &&& end.step == StepView::Done(succeeded(OutcomeView::Listed(listing)))
            &&& end.world == world
            &&& listing[i].user_id == owner
            &&& world.rows.dom().contains(listing[i].id)
            &&& world.rows[listing[i].id] == listing[i]
        }),
{
    assert(world.holds_for(owner, listing[i]));
}

/// No-op on a missing target: an update of an image that the owner does not
/// have writes no blob, touches no row and returns `NotFound`.
pub proof fn update_of_a_missing_image_changes_nothing(
    world: World,
    bucket: Seq<char>,
    owner: u128,
    id: u128,
    file_name: Seq<char>,
    content_type: Seq<char>,
    payload: Seq<u8>,
    reply: ReplyView,
)
    requires
        (world.find(owner, id) is None),
        (reply !is Failed),
        ({
            let start = Run {
                world,
                step: begin_update(bucket, owner, id, file_name, content_type),
            };
            start.may_hear(reply)
        }),
    ensures
        ({
            let end = Run {
                world,
                step: begin_update(bucket, owner, id, file_name, content_type),
            }.hear(payload, reply);
            &&& end.step == StepView::Done(failed(ImageErrorView::NotFound))
            &&& end.world == world
        }),
{
}

/// An update that meets no failure leaves the payload under the derived key
/// and returns the row as the store holds it after the refresh: with the
/// derived address, with the identity, owner and creation time it had, and
/// with a time of update later than the one it had.
pub proof fn update_returns_the_refreshed_row(
    world: World,
    bucket: Seq<char>,
    owner: u128,
    id: u128,
    file_name: Seq<char>,
    content_type: Seq<char>,
    payload: Seq<u8>,
    found: ReplyView,
    refreshed: ReplyView,
)
    requires
        (world.find(owner, id) is Some),
        (found !is Failed),
        (refreshed !is Failed),
        ({
            let start = Run {
                world,
                step: begin_update(bucket, owner, id, file_name, content_type),
            };
            &&& start.may_hear(found)
            &&& start.hear(payload, found).hear(payload, ReplyView::Uploaded).may_hear(refreshed)
        }),
    ensures
        ({
            let start = Run {
                world,
                step: begin_update(bucket, owner, id, file_name, content_type),
            };
            let end = start.hear(payload, found).hear(payload, ReplyView::Uploaded).hear(
                payload,
                refreshed,
            );
            let key = object_key_of(owner, file_name);
            let old = world.find(owner, id)->0;
            &&& start.hear(payload, found).may_hear(ReplyView::Uploaded)
            &&& end.world.find(owner, id) matches Some(row)
            &&& end.step == StepView::Done(succeeded(OutcomeView::Updated(row)))
            &&& row.url == image_url_of(bucket, user_key_of(owner), file_name)
            &&& row.id == id
            &&& row.user_id == owner
            &&& row.created_at == old.created_at
            &&& old.updated_at.precedes(row.updated_at)
            &&& row.updated_at != old.updated_at
            &&& end.world.blobs.dom().contains((bucket, key))
            &&& end.world.blobs[(bucket, key)] == Blob { content_type, body: payload }
        }),
{
}

/// The owner of a record never changes: whatever command the stores answer,
/// a row that is there before and after belongs to the same owner, and
/// every row is still filed under its own identifier.
pub proof fn no_command_changes_an_owner(
    world: World,
    command: CommandView,
    payload: Seq<u8>,
    reply: ReplyView,
    id: u128,
)
    requires
        world.well_formed(),
        world.may_answer(command, reply),
    ensures
        world.after(command, payload, reply).well_formed(),
        world.rows.dom().contains(id) && world.after(command, payload, reply).rows.dom().contains(
            id,
        ) ==> world.after(command, payload, reply).rows[id].user_id == world.rows[id].user_id,
{
}

/// Partial success is never reported as success: an operation that returns
/// `Ok` met no failure on its way.
pub proof fn success_means_no_reply_failed(
    world: World,
    bucket: Seq<char>,
    owner: u128,
    id: u128,
    file_name: Seq<char>,
    content_type: Seq<char>,
    payload: Seq<u8>,
    first: ReplyView,
    second: ReplyView,
    third: ReplyView,
)
    ensures
        ({
            let end = Run { world, step: begin_create(bucket, owner, content_type, file_name) }.hear(
                payload,
                first,
            ).hear(payload, second);
            end.step matches StepView::Done(finished) && finished.result is Ok ==> first
                == ReplyView::Uploaded && second is RowInserted
        }),
        ({
            let end = Run { world, step: begin_delete(bucket, owner, id, file_name) }.hear(
                payload,
                first,
            ).hear(payload, second);
            end.step matches StepView::Done(finished) && finished.result is Ok ==> first
                == ReplyView::BlobDeleted && second is RowsDeleted
        }),
        ({
            let end = Run {
                world,
                step: begin_update(bucket, owner, id, file_name, content_type),
            }.hear(payload, first).hear(payload, second).hear(payload, third);
            end.step matches StepView::Done(finished) && finished.result is Ok ==> first
                is RowSelected && second == ReplyView::Uploaded && third is RowUpdated
        }),
{
}

/// A login saves a session only for a user that was found and whose stored
/// hash accepts the password: whatever the table answers and whatever the
/// hour, no other reply leads to a saved session.
pub proof fn login_saves_a_session_only_after_a_match(
    raw_password: Seq<char>,
    reply: UserReplyView,
    now: Timestamp,
)
    ensures
        ({
            let step = next_user_step(UserSagaView::LoggingIn { raw_password }, reply, now);
            step is Next ==> {
                &&& reply matches UserReplyView::UserFound(Some(user))
                &&& verified_against(raw_password, user.password) == Ok::<bool, PasswordErrorView>(
                    true,
                )
                &&& step matches UserStepView::Next(
                    saga,
                    UserCommandView::SaveSession { session },
                )
                &&& saga == UserSagaView::SavingSession { user: public_face(user) }
                &&& session.user_id == user.id
            }
        }),
{
}

/// The session that a login saves stands when it is made and ends exactly
/// one day later: it is live at every instant before its end and at none
/// from its end on.
pub proof fn a_saved_session_lasts_one_day(
    raw_password: Seq<char>,
    user: Option<UserView>,
    now: Timestamp,
    later: Timestamp,
)
    requires
        (login_decision(raw_password, user, now) is Next),
    ensures
        ({
            let step = login_decision(raw_password, user, now);
            &&& step matches UserStepView::Next(_, UserCommandView::SaveSession { session })
            &&& session.expires_at.secs == now.secs + 86_400
            &&& session.expires_at.nanos == now.nanos
            &&& session.live_at(now)
            &&& session.live_at(later) <==> later.precedes(session.expires_at)
            &&& !session.live_at(session.expires_at)
        }),
{
}

/// A session that has run out leads to no user: the question for the
/// current user fetches a user only while the session is live, and empties
/// the session otherwise.
pub proof fn an_expired_session_names_no_user(session: UserSession, now: Timestamp)
    ensures
        session.live_at(now) ==> session_decision(Some(session), now) == UserStepView::Next(
            UserSagaView::FetchingCurrentUser,
            UserCommandView::FindUserById { id: session.user_id },
        ),
        !session.live_at(now) ==> session_decision(Some(session), now) == UserStepView::Next(
            UserSagaView::FlushingExpired,
            UserCommandView::FlushSession,
        ),
        !session.live_at(now) ==> next_user_step(
            UserSagaView::FlushingExpired,
            UserReplyView::SessionFlushed,
            now,
        ) == UserStepView::Done(Ok(UserOutcomeView::CurrentUser(None))),
{
}

/// Every account operation ends after at most two replies, whatever they
/// are and whatever the hour.
pub proof fn every_account_operation_ends_within_two_replies(
    saga: UserSagaView,
    first: UserReplyView,
    second: UserReplyView,
    now: Timestamp,
    later: Timestamp,
)
    ensures
        ({
            let step = next_user_step(saga, first, now);
            step matches UserStepView::Next(next, _) ==> next_user_step(next, second, later) is Done
        }),
{
}

} // verus!
