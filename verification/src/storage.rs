//! Storage as the store expects it to behave, and what each request comes to
//! when every step is performed on such storage without faults and without
//! anyone else changing it in between.

use crate::data_source::{
    is_accepted_body, is_safe_name, key_record_name, next_turn, ActionView, DataSourceError,
    EventView, ReplyView, RequestView, Stage,
};
use crate::id::{key_digest, DIGEST_LENGTH};
use vstd::prelude::*;

verus! {

/// What one bundle holds: its entries by name.
pub type Bundle = Map<Seq<char>, Seq<u8>>;

/// What lies under the storage root: the bundles by identifier.
pub type Disk = Map<Seq<char>, Bundle>;

/// Whether bundle `id` holds an entry `name`.
pub open spec fn has_entry(disk: Disk, id: Seq<char>, name: Seq<char>) -> bool {
    disk.dom().contains(id) && disk[id].dom().contains(name)
}

/// The disk with `bytes` as entry `name` of the existing bundle `id`.
pub open spec fn with_entry(disk: Disk, id: Seq<char>, name: Seq<char>, bytes: Seq<u8>) -> Disk {
    disk.insert(id, disk[id].insert(name, bytes))
}

/// The disk without the entry `name` of the existing bundle `id`.
pub open spec fn without_entry(disk: Disk, id: Seq<char>, name: Seq<char>) -> Disk {
    disk.insert(id, disk[id].remove(name))
}

/// What a step does to the disk and how it is answered. The bundle of the
/// empty name would be the storage root itself, so it cannot be made.
pub open spec fn perform(disk: Disk, action: ActionView) -> (Disk, EventView) {
    match action {
        ActionView::BundleExists { id } => (disk, EventView::Exists(disk.dom().contains(id))),
        ActionView::EntryExists { id, name } => (disk, EventView::Exists(has_entry(disk, id, name))),
        ActionView::FileExists { id, name } => (disk, EventView::Exists(has_entry(disk, id, name))),
        ActionView::Read { id, name } => if has_entry(disk, id, name) {
            (disk, EventView::Content(disk[id][name]))
        } else {
            (disk, EventView::Failed)
        },
        ActionView::ReadExact { id, name, len } => if has_entry(disk, id, name) && len
            <= disk[id][name].len() {
            (disk, EventView::Content(disk[id][name].subrange(0, len as int)))
        } else {
            (disk, EventView::Failed)
        },
        ActionView::CreateBundle { id } => if id.len() == 0 || disk.dom().contains(id) {
            (disk, EventView::Failed)
        } else {
            (disk.insert(id, Map::empty()), EventView::Done)
        },
        ActionView::CreateFile { id, name, bytes } => if disk.dom().contains(id) {
            (with_entry(disk, id, name, bytes), EventView::Done)
        } else {
            (disk, EventView::Failed)
        },
        ActionView::Overwrite { id, name, bytes } => if has_entry(disk, id, name) {
            (with_entry(disk, id, name, bytes), EventView::Done)
        } else {
            (disk, EventView::Failed)
        },
        ActionView::RemoveFile { id, name } => if has_entry(disk, id, name) {
            (without_entry(disk, id, name), EventView::Done)
        } else {
            (disk, EventView::Failed)
        },
        ActionView::RemoveBundle { id } => if disk.dom().contains(id) && disk[id].dom()
            =~= Set::empty() {
            (disk.remove(id), EventView::Done)
        } else {
            (disk, EventView::Failed)
        },
        ActionView::Finish(_) => (disk, EventView::Begin),
    }
}

/// Serving `request` from `stage` on, each step performed on the disk, for at
/// most `steps` steps: the disk and the reply at the end, if the end is reached.
pub open spec fn run(
    max_size: u64,
    request: RequestView,
    disk: Disk,
    stage: Stage,
    event: EventView,
    steps: nat,
) -> Option<(Disk, ReplyView)>
    decreases steps,
{
    let turn = next_turn(max_size, request, stage, event);
    match turn.action {
        ActionView::Finish(reply) => Some((disk, reply)),
        _ => if steps == 0 {
            None
        } else {
            let (after, answer) = perform(disk, turn.action);
            run(max_size, request, after, turn.stage, answer, (steps - 1) as nat)
        },
    }
}

/// Serving `request` from the start.
pub open spec fn serve(max_size: u64, request: RequestView, disk: Disk) -> Option<
    (Disk, ReplyView),
> {
    run(max_size, request, disk, Stage::Start, EventView::Begin, 8)
}

/// Whether bundle `id` keeps the digest of `change_key`.
pub open spec fn guards(disk: Disk, id: Seq<char>, change_key: Seq<char>) -> bool {
    &&& has_entry(disk, id, key_record_name())
    &&& DIGEST_LENGTH <= disk[id][key_record_name()].len()
    &&& disk[id][key_record_name()].subrange(0, DIGEST_LENGTH as int) == key_digest(change_key)
}

/// The bundle that a `Create` leaves behind.
pub open spec fn new_bundle(change_key: Seq<char>, filename: Seq<char>, bytes: Seq<u8>) -> Bundle {
    Map::<Seq<char>, Seq<u8>>::empty().insert(key_record_name(), key_digest(change_key)).insert(
        filename,
        bytes,
    )
}

/// What a `Get` comes to.
pub open spec fn get_outcome(disk: Disk, id: Seq<char>, filename: Seq<char>) -> (Disk, ReplyView) {
    if is_safe_name(id) && is_safe_name(filename) && has_entry(disk, id, filename) {
        (disk, ReplyView::Content(Some(disk[id][filename])))
    } else {
        (disk, ReplyView::Content(None))
    }
}

/// What a `Create` comes to.
pub open spec fn create_outcome(
    max_size: u64,
    disk: Disk,
    id: Seq<char>,
    change_key: Seq<char>,
    filename: Seq<char>,
    bytes: Seq<u8>,
) -> (Disk, ReplyView) {
    if !is_safe_name(filename) {
        (disk, ReplyView::Created(Err(DataSourceError::InvalidFilename)))
    } else if bytes.len() == 0 {
        (disk, ReplyView::Created(Err(DataSourceError::EmptyBody)))
    } else if bytes.len() > max_size {
        (disk, ReplyView::Created(Err(DataSourceError::TooBig)))
    } else if id.len() == 0 || disk.dom().contains(id) {
        (disk, ReplyView::Created(Err(DataSourceError::InternalServerError)))
    } else {
        (
            disk.insert(id, new_bundle(change_key, filename, bytes)),
            ReplyView::Created(Ok((id, change_key))),
        )
    }
}

/// What a `Modify` comes to.
pub open spec fn modify_outcome(
    max_size: u64,
    disk: Disk,
    id: Seq<char>,
    filename: Seq<char>,
    change_key: Seq<char>,
    bytes: Seq<u8>,
) -> (Disk, ReplyView) {
    if !is_safe_name(id) || !is_safe_name(filename) {
        (disk, ReplyView::Changed(Err(DataSourceError::NotFound)))
    } else if bytes.len() == 0 {
        (disk, ReplyView::Changed(Err(DataSourceError::EmptyBody)))
    } else if bytes.len() > max_size {
        (disk, ReplyView::Changed(Err(DataSourceError::TooBig)))
    } else if !disk.dom().contains(id) {
        (disk, ReplyView::Changed(Err(DataSourceError::NotFound)))
    } else if !guards(disk, id, change_key) {
        (disk, ReplyView::Changed(Err(DataSourceError::InvalidChangeKey)))
    } else if !has_entry(disk, id, filename) {
        (disk, ReplyView::Changed(Err(DataSourceError::InternalServerError)))
    } else {
        (with_entry(disk, id, filename, bytes), ReplyView::Changed(Ok(())))
    }
}

/// What a `Delete` comes to. Where the bundle holds more than the content file
/// and the key record, those two are gone and the bundle stays.
pub open spec fn delete_outcome(
    disk: Disk,
    id: Seq<char>,
    filename: Seq<char>,
    change_key: Seq<char>,
) -> (Disk, ReplyView) {
    if !is_safe_name(id) || !is_safe_name(filename) {
        (disk, ReplyView::Changed(Err(DataSourceError::NotFound)))
    } else if !disk.dom().contains(id) {
        (disk, ReplyView::Changed(Err(DataSourceError::NotFound)))
    } else if !guards(disk, id, change_key) {
        (disk, ReplyView::Changed(Err(DataSourceError::InvalidChangeKey)))
    } else if !has_entry(disk, id, filename) {
        (disk, ReplyView::Changed(Err(DataSourceError::NotFound)))
    } else if disk[id].dom() =~= set![filename, key_record_name()] {
        (disk.remove(id), ReplyView::Changed(Ok(())))
    } else {
        (
            disk.insert(id, disk[id].remove(filename).remove(key_record_name())),
            ReplyView::Changed(Err(DataSourceError::InternalServerError)),
        )
    }
}

/// Every `Get` ends, leaves the disk as it was, and brings the content that
/// the disk holds under safe names.
pub proof fn get_comes_to(max_size: u64, disk: Disk, id: Seq<char>, filename: Seq<char>)
    ensures
        serve(max_size, RequestView::Get { id, filename }, disk) == Some(
            get_outcome(disk, id, filename),
        ),
{
    reveal_with_fuel(run, 4);
}

/// Every `Create` ends as `create_outcome` says.
pub proof fn create_comes_to(
    max_size: u64,
    disk: Disk,
    id: Seq<char>,
    change_key: Seq<char>,
    filename: Seq<char>,
    bytes: Seq<u8>,
)
    ensures
        serve(max_size, RequestView::Create { id, change_key, filename, bytes }, disk) == Some(
            create_outcome(max_size, disk, id, change_key, filename, bytes),
        ),
{
    reveal_with_fuel(run, 5);
    if is_safe_name(filename) && is_accepted_body(bytes, max_size) && id.len() != 0
        && !disk.dom().contains(id) {
        let made = disk.insert(id, Map::<Seq<char>, Seq<u8>>::empty());
        let keyed = with_entry(made, id, key_record_name(), key_digest(change_key));
        let filled = with_entry(keyed, id, filename, bytes);
        assert(filled =~= disk.insert(id, new_bundle(change_key, filename, bytes)));
    }
}

/// Every `Modify` ends as `modify_outcome` says.
pub proof fn modify_comes_to(
    max_size: u64,
    disk: Disk,
    id: Seq<char>,
    filename: Seq<char>,
    change_key: Seq<char>,
    bytes: Seq<u8>,
)
    ensures
        serve(max_size, RequestView::Modify { id, filename, change_key, bytes }, disk) == Some(
            modify_outcome(max_size, disk, id, filename, change_key, bytes),
        ),
{
    reveal_with_fuel(run, 5);
}

/// Every `Delete` ends as `delete_outcome` says.
pub proof fn delete_comes_to(
    max_size: u64,
    disk: Disk,
    id: Seq<char>,
    filename: Seq<char>,
    change_key: Seq<char>,
)
    ensures
        serve(max_size, RequestView::Delete { id, filename, change_key }, disk) == Some(
            delete_outcome(disk, id, filename, change_key),
        ),
{
    reveal_with_fuel(run, 9);
    if is_safe_name(id) && is_safe_name(filename) && disk.dom().contains(id) && guards(
        disk,
        id,
        change_key,
    ) && has_entry(disk, id, filename) {
        let first = without_entry(disk, id, filename);
        let second = without_entry(first, id, key_record_name());
        assert(second[id] =~= disk[id].remove(filename).remove(key_record_name()));
        assert(second =~= disk.insert(id, disk[id].remove(filename).remove(key_record_name())));
        assert(second[id].dom() =~= Set::<Seq<char>>::empty() <==> disk[id].dom()
            =~= set![filename, key_record_name()]) by {
            if second[id].dom() =~= Set::<Seq<char>>::empty() {
                assert forall|name: Seq<char>| disk[id].dom().contains(name) implies name
                    == filename || name == key_record_name() by {
                    if name != filename && name != key_record_name() {
                        assert(second[id].dom().contains(name));
                    }
                }
                assert(disk[id].dom() =~= set![filename, key_record_name()]);
            }
        }
        assert(second.remove(id) =~= disk.remove(id));
    }
}

/// Every request ends after at most seven steps on storage, whatever the
/// disk holds.
pub proof fn every_request_ends(max_size: u64, request: RequestView, disk: Disk)
    ensures
        serve(max_size, request, disk) is Some,
{
    match request {
        RequestView::Get { id, filename } => get_comes_to(max_size, disk, id, filename),
        RequestView::Create { id, change_key, filename, bytes } => create_comes_to(
            max_size,
            disk,
            id,
            change_key,
            filename,
            bytes,
        ),
        RequestView::Modify { id, filename, change_key, bytes } => modify_comes_to(
            max_size,
            disk,
            id,
            filename,
            change_key,
            bytes,
        ),
        RequestView::Delete { id, filename, change_key } => delete_comes_to(
            max_size,
            disk,
            id,
            filename,
            change_key,
        ),
    }
}

} // verus!
