//! What holds of the store over several requests, on storage that nobody else
//! changes and that does not fail.

use crate::data_source::{
    is_accepted_body, is_safe_name, key_record_name, next_turn, ActionView, DataSourceError,
    EventView, ReplyView, RequestView, Stage,
};
use crate::id::{is_alphanumeric, is_token, key_digest, key_digest_length, DIGEST_LENGTH};
use crate::storage::{
    create_comes_to, create_outcome, delete_comes_to, get_comes_to, guards, modify_comes_to, serve,
    with_entry, Disk,
};
use vstd::prelude::*;

verus! {

/// An identifier that can be given to a new bundle: letters and digits, at
/// least one, and not in use.
pub open spec fn is_fresh_id(disk: Disk, id: Seq<char>) -> bool {
    &&& is_token(id, id.len())
    &&& id.len() > 0
    &&& !disk.dom().contains(id)
}

/// The disk after a `Create` was served on `disk`.
pub open spec fn after_create(
    max_size: u64,
    disk: Disk,
    id: Seq<char>,
    change_key: Seq<char>,
    filename: Seq<char>,
    bytes: Seq<u8>,
) -> Disk {
    create_outcome(max_size, disk, id, change_key, filename, bytes).0
}

/// A text of letters and digits is a safe name.
pub proof fn token_is_safe_name(text: Seq<char>)
    requires
        is_token(text, text.len()),
    ensures
        is_safe_name(text),
{
    reveal_strlit("change.key");
    if text.contains('/') {
        let i = choose|i: int| 0 <= i < text.len() && text[i] == '/';
        assert(is_alphanumeric(text[i]));
    }
    if text == key_record_name() {
        assert(is_alphanumeric(text[6]));
        assert(text[6] == '.');
    }
}

/// What a `Create` leaves behind: on top of the disk as it was, one bundle
/// that holds the content file and the digest of the key, and nothing else.
proof fn created_bundle_is_whole(
    max_size: u64,
    disk: Disk,
    id: Seq<char>,
    change_key: Seq<char>,
    filename: Seq<char>,
    bytes: Seq<u8>,
)
    requires
        is_safe_name(filename),
        is_accepted_body(bytes, max_size),
        is_fresh_id(disk, id),
    ensures
        ({
            let created = after_create(max_size, disk, id, change_key, filename, bytes);
            &&& created[id][key_record_name()] == key_digest(change_key)
            &&& created[id][key_record_name()].subrange(0, DIGEST_LENGTH as int) == key_digest(
                change_key,
            )
            &&& guards(created, id, change_key)
            &&& created[id].dom() == set![filename, key_record_name()]
            &&& created.remove(id) == disk
        }),
{
    let created = after_create(max_size, disk, id, change_key, filename, bytes);
    key_digest_length(change_key);
    assert(key_digest(change_key).subrange(0, DIGEST_LENGTH as int) =~= key_digest(change_key));
    assert(created[id].dom() =~= set![filename, key_record_name()]);
    assert(created.remove(id) =~= disk);
}

/// A body of accepted size, created under a safe file name and a fresh
/// identifier, is stored, and a `Get` right after it brings exactly that body.
pub proof fn created_content_is_read(
    max_size: u64,
    disk: Disk,
    id: Seq<char>,
    change_key: Seq<char>,
    filename: Seq<char>,
    bytes: Seq<u8>,
)
    requires
        is_safe_name(filename),
        is_accepted_body(bytes, max_size),
        is_fresh_id(disk, id),
    ensures
        serve(max_size, RequestView::Create { id, change_key, filename, bytes }, disk) == Some(
            (
                after_create(max_size, disk, id, change_key, filename, bytes),
                ReplyView::Created(Ok((id, change_key))),
            ),
        ),
        serve(
            max_size,
            RequestView::Get { id, filename },
            after_create(max_size, disk, id, change_key, filename, bytes),
        ) == Some(
            (
                after_create(max_size, disk, id, change_key, filename, bytes),
                ReplyView::Content(Some(bytes)),
            ),
        ),
{
    token_is_safe_name(id);
    create_comes_to(max_size, disk, id, change_key, filename, bytes);
    get_comes_to(max_size, after_create(max_size, disk, id, change_key, filename, bytes), id, filename);
}

/// A request that names a file with a path separator in it is turned down at
/// once, before any step on storage: a `Create` as an invalid file name, a
/// `Modify` or a `Delete` as not found, a `Get` with nothing. The same holds
/// of a `Modify`, `Delete` or `Get` whose identifier has a path separator.
pub proof fn unsafe_names_touch_nothing(
    max_size: u64,
    disk: Disk,
    id: Seq<char>,
    filename: Seq<char>,
    change_key: Seq<char>,
    bytes: Seq<u8>,
    event: EventView,
)
    requires
        filename.contains('/') || id.contains('/'),
    ensures
        filename.contains('/') ==> next_turn(
            max_size,
            RequestView::Create { id, change_key, filename, bytes },
            Stage::Start,
            event,
        ).action == ActionView::Finish(ReplyView::Created(Err(DataSourceError::InvalidFilename))),
        next_turn(
            max_size,
            RequestView::Modify { id, filename, change_key, bytes },
            Stage::Start,
            event,
        ).action == ActionView::Finish(ReplyView::Changed(Err(DataSourceError::NotFound))),
        next_turn(
            max_size,
            RequestView::Delete { id, filename, change_key },
            Stage::Start,
            event,
        ).action == ActionView::Finish(ReplyView::Changed(Err(DataSourceError::NotFound))),
        next_turn(max_size, RequestView::Get { id, filename }, Stage::Start, event).action
            == ActionView::Finish(ReplyView::Content(None)),
        filename.contains('/') ==> serve(
            max_size,
            RequestView::Create { id, change_key, filename, bytes },
            disk,
        ) == Some((disk, ReplyView::Created(Err(DataSourceError::InvalidFilename)))),
        serve(max_size, RequestView::Modify { id, filename, change_key, bytes }, disk) == Some(
            (disk, ReplyView::Changed(Err(DataSourceError::NotFound))),
        ),
        serve(max_size, RequestView::Delete { id, filename, change_key }, disk) == Some(
            (disk, ReplyView::Changed(Err(DataSourceError::NotFound))),
        ),
{
    create_comes_to(max_size, disk, id, change_key, filename, bytes);
    modify_comes_to(max_size, disk, id, filename, change_key, bytes);
    delete_comes_to(max_size, disk, id, filename, change_key);
}

/// A body that is empty or longer than `max_size` is turned down at once,
/// before any step on storage, whatever else the request holds: a `Create`
/// under a safe file name, a `Modify` under safe names.
pub proof fn unaccepted_body_touches_nothing(
    max_size: u64,
    disk: Disk,
    id: Seq<char>,
    filename: Seq<char>,
    change_key: Seq<char>,
    bytes: Seq<u8>,
)
    requires
        is_safe_name(filename),
        !is_accepted_body(bytes, max_size),
    ensures
        serve(max_size, RequestView::Create { id, change_key, filename, bytes }, disk) == Some(
            (
                disk,
                ReplyView::Created(
                    Err(
                        if bytes.len() == 0 {
                            DataSourceError::EmptyBody
                        } else {
                            DataSourceError::TooBig
                        },
                    ),
                ),
            ),
        ),
        is_safe_name(id) ==> serve(
            max_size,
            RequestView::Modify { id, filename, change_key, bytes },
            disk,
        ) == Some(
            (
                disk,
                ReplyView::Changed(
                    Err(
                        if bytes.len() == 0 {
                            DataSourceError::EmptyBody
                        } else {
                            DataSourceError::TooBig
                        },
                    ),
                ),
            ),
        ),
{
    create_comes_to(max_size, disk, id, change_key, filename, bytes);
    modify_comes_to(max_size, disk, id, filename, change_key, bytes);
}

/// After a `Create`, a `Modify` with the change key that the `Create` gave
/// succeeds, and a `Get` then brings the new body, not the first one.
pub proof fn modified_content_is_read(
    max_size: u64,
    disk: Disk,
    id: Seq<char>,
    change_key: Seq<char>,
    filename: Seq<char>,
    bytes: Seq<u8>,
    new_bytes: Seq<u8>,
)
    requires
        is_safe_name(filename),
        is_accepted_body(bytes, max_size),
        is_accepted_body(new_bytes, max_size),
        is_fresh_id(disk, id),
    ensures
        ({
            let created = after_create(max_size, disk, id, change_key, filename, bytes);
            let modified = with_entry(created, id, filename, new_bytes);
            &&& serve(
                max_size,
                RequestView::Modify { id, filename, change_key, bytes: new_bytes },
                created,
            ) == Some((modified, ReplyView::Changed(Ok(()))))
            &&& serve(max_size, RequestView::Get { id, filename }, modified) == Some(
                (modified, ReplyView::Content(Some(new_bytes))),
            )
        }),
{
    token_is_safe_name(id);
    let created = after_create(max_size, disk, id, change_key, filename, bytes);
    let modified = with_entry(created, id, filename, new_bytes);
    modify_comes_to(max_size, created, id, filename, change_key, new_bytes);
    get_comes_to(max_size, modified, id, filename);
    created_bundle_is_whole(max_size, disk, id, change_key, filename, bytes);
}

/// After a `Create`, a `Modify` or a `Delete` with a change key whose digest
/// is not that of the key which the `Create` gave is turned down as an invalid
/// change key, and the disk stays as it was: a `Get` brings the body as
/// created.
pub proof fn wrong_key_changes_nothing(
    max_size: u64,
    disk: Disk,
    id: Seq<char>,
    change_key: Seq<char>,
    filename: Seq<char>,
    bytes: Seq<u8>,
    other_key: Seq<char>,
    new_bytes: Seq<u8>,
)
    requires
        is_safe_name(filename),
        is_accepted_body(bytes, max_size),
        is_accepted_body(new_bytes, max_size),
        is_fresh_id(disk, id),
        key_digest(other_key) != key_digest(change_key),
    ensures
        ({
            let created = after_create(max_size, disk, id, change_key, filename, bytes);
            &&& serve(
                max_size,
                RequestView::Modify { id, filename, change_key: other_key, bytes: new_bytes },
                created,
            ) == Some((created, ReplyView::Changed(Err(DataSourceError::InvalidChangeKey))))
            &&& serve(
                max_size,
                RequestView::Delete { id, filename, change_key: other_key },
                created,
            ) == Some((created, ReplyView::Changed(Err(DataSourceError::InvalidChangeKey))))
            &&& serve(max_size, RequestView::Get { id, filename }, created) == Some(
                (created, ReplyView::Content(Some(bytes))),
            )
        }),
{
    token_is_safe_name(id);
    let created = after_create(max_size, disk, id, change_key, filename, bytes);
    modify_comes_to(max_size, created, id, filename, other_key, new_bytes);
    delete_comes_to(max_size, created, id, filename, other_key);
    get_comes_to(max_size, created, id, filename);
    created_bundle_is_whole(max_size, disk, id, change_key, filename, bytes);
}

/// A `Get` for a bundle that was never created brings nothing. A `Delete`
/// with the right change key takes a created bundle away whole, so that the
/// disk is what it was before the `Create`, and a `Get` brings what it would
/// have brought then: nothing.
pub proof fn absent_and_deleted_read_alike(
    max_size: u64,
    disk: Disk,
    id: Seq<char>,
    change_key: Seq<char>,
    filename: Seq<char>,
    bytes: Seq<u8>,
)
    requires
        is_safe_name(filename),
        is_accepted_body(bytes, max_size),
        is_fresh_id(disk, id),
    ensures
        serve(max_size, RequestView::Get { id, filename }, disk) == Some(
            (disk, ReplyView::Content(None)),
        ),
        serve(
            max_size,
            RequestView::Delete { id, filename, change_key },
            after_create(max_size, disk, id, change_key, filename, bytes),
        ) == Some((disk, ReplyView::Changed(Ok(())))),
{
    token_is_safe_name(id);
    let created = after_create(max_size, disk, id, change_key, filename, bytes);
    get_comes_to(max_size, disk, id, filename);
    delete_comes_to(max_size, created, id, filename, change_key);
    created_bundle_is_whole(max_size, disk, id, change_key, filename, bytes);
}

/// The key record is out of every request's reach: under its name nothing
/// is read, created, modified or deleted, whatever the disk holds.
pub proof fn key_record_is_out_of_reach(
    max_size: u64,
    disk: Disk,
    id: Seq<char>,
    change_key: Seq<char>,
    bytes: Seq<u8>,
)
    ensures
        serve(max_size, RequestView::Get { id, filename: key_record_name() }, disk) == Some(
            (disk, ReplyView::Content(None)),
        ),
        serve(
            max_size,
            RequestView::Create { id, change_key, filename: key_record_name(), bytes },
            disk,
        ) == Some((disk, ReplyView::Created(Err(DataSourceError::InvalidFilename)))),
        serve(
            max_size,
            RequestView::Modify { id, filename: key_record_name(), change_key, bytes },
            disk,
        ) == Some((disk, ReplyView::Changed(Err(DataSourceError::NotFound)))),
        serve(
            max_size,
            RequestView::Delete { id, filename: key_record_name(), change_key },
            disk,
        ) == Some((disk, ReplyView::Changed(Err(DataSourceError::NotFound)))),
{
    get_comes_to(max_size, disk, id, key_record_name());
    create_comes_to(max_size, disk, id, change_key, key_record_name(), bytes);
    modify_comes_to(max_size, disk, id, key_record_name(), change_key, bytes);
    delete_comes_to(max_size, disk, id, key_record_name(), change_key);
}

} // verus!
