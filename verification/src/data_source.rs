//! The bundle store: its requests, and the storage steps by which each request
//! is served.
//!
//! The store never touches storage itself. For every request it says which
//! step comes next, is told how that step went, and in the end gives the
//! reply. Whoever performs the steps owns the files.

use crate::id::{
    generate_change_key, generate_file_id, hash_change_key, is_token, key_digest, same_bytes,
    DIGEST_LENGTH,
};
use vstd::prelude::*;
use vstd::slice::slice_to_vec;
use vstd::utf8::{encode_scalar, encode_utf8, has_width_1_encoding};

verus! {

/// Where bundles are kept and how large a content file may be.
#[derive(Clone, Debug)]
pub struct DataSource {
    pub directory: String,
    pub max_size: u64,
}

/// Why a request was turned down.
#[derive(Clone, Copy, Debug, PartialEq, Eq, Structural)]
pub enum DataSourceError {
    InvalidFilename,
    EmptyBody,
    TooBig,
    InvalidChangeKey,
    NotFound,
    InternalServerError,
}

/// One of the four things a client can ask of the store.
#[derive(Clone, Debug, PartialEq, Eq)]
pub enum Request {
    Get { id: String, filename: String },
    Create { id: String, change_key: String, filename: String, bytes: Vec<u8> },
    Modify { id: String, filename: String, change_key: String, bytes: Vec<u8> },
    Delete { id: String, filename: String, change_key: String },
}

pub enum RequestView {
    Get { id: Seq<char>, filename: Seq<char> },
    Create { id: Seq<char>, change_key: Seq<char>, filename: Seq<char>, bytes: Seq<u8> },
    Modify { id: Seq<char>, filename: Seq<char>, change_key: Seq<char>, bytes: Seq<u8> },
    Delete { id: Seq<char>, filename: Seq<char>, change_key: Seq<char> },
}

impl View for Request {
    type V = RequestView;

    open spec fn view(&self) -> RequestView {
        match *self {
            Request::Get { id, filename } => RequestView::Get { id: id@, filename: filename@ },
            Request::Create { id, change_key, filename, bytes } => RequestView::Create {
                id: id@,
                change_key: change_key@,
                filename: filename@,
                bytes: bytes@,
            },
            Request::Modify { id, filename, change_key, bytes } => RequestView::Modify {
                id: id@,
                filename: filename@,
                change_key: change_key@,
                bytes: bytes@,
            },
            Request::Delete { id, filename, change_key } => RequestView::Delete {
                id: id@,
                filename: filename@,
                change_key: change_key@,
            },
        }
    }
}

/// How far the serving of a request has come: which answer is awaited.
#[derive(Clone, Copy, Debug, PartialEq, Eq, Structural)]
pub enum Stage {
    Start,
    ProbingBundle,
    ReadingKey,
    ProbingEntry,
    ReadingContent,
    CreatingBundle,
    WritingKey,
    WritingContent,
    RemovingContent,
    RemovingKey,
    RemovingBundle,
    Finished,
}

/// The final answer to a request.
#[derive(Debug, PartialEq, Eq)]
pub enum Reply {
    /// To `Get`: the content, if there is any to be had.
    Content(Option<Vec<u8>>),
    /// To `Create`: the identifier and the change key of the new bundle.
    Created(Result<(String, String), DataSourceError>),
    /// To `Modify` and `Delete`.
    Changed(Result<(), DataSourceError>),
}

pub enum ReplyView {
    Content(Option<Seq<u8>>),
    Created(Result<(Seq<char>, Seq<char>), DataSourceError>),
    Changed(Result<(), DataSourceError>),
}

impl View for Reply {
    type V = ReplyView;

    open spec fn view(&self) -> ReplyView {
        match *self {
            Reply::Content(Some(bytes)) => ReplyView::Content(Some(bytes@)),
            Reply::Content(None) => ReplyView::Content(None),
            Reply::Created(Ok((id, change_key))) => ReplyView::Created(Ok((id@, change_key@))),
            Reply::Created(Err(e)) => ReplyView::Created(Err(e)),
            Reply::Changed(r) => ReplyView::Changed(r),
        }
    }
}

/// A step on storage, or the end of the request. A bundle is the directory
/// `id` under the storage root; an entry is the file `name` inside it.
#[derive(Debug, PartialEq, Eq)]
pub enum Action {
    /// Is there a bundle `id`? Answered by `Event::Exists`.
    BundleExists { id: String },
    /// Is there anything called `name` in the bundle? Answered by `Event::Exists`.
    EntryExists { id: String, name: String },
    /// Is there a regular file `name` in the bundle? Answered by `Event::Exists`.
    FileExists { id: String, name: String },
    /// Read the whole entry. Answered by `Event::Content` or `Event::Failed`.
    Read { id: String, name: String },
    /// Read the first `len` bytes of the entry, failing if it is shorter.
    /// Answered by `Event::Content` or `Event::Failed`.
    ReadExact { id: String, name: String, len: usize },
    /// Make the bundle, failing if it is there already. Answered by
    /// `Event::Done` or `Event::Failed`, like the steps below.
    CreateBundle { id: String },
    /// Create the entry, or empty it if it exists, and write `bytes` to it.
    CreateFile { id: String, name: String, bytes: Vec<u8> },
    /// Replace what an existing entry holds by `bytes`.
    Overwrite { id: String, name: String, bytes: Vec<u8> },
    /// Remove the entry.
    RemoveFile { id: String, name: String },
    /// Remove the bundle, which must be empty.
    RemoveBundle { id: String },
    /// Nothing more to do: hand the reply to the client.
    Finish(Reply),
}

pub enum ActionView {
    BundleExists { id: Seq<char> },
    EntryExists { id: Seq<char>, name: Seq<char> },
    FileExists { id: Seq<char>, name: Seq<char> },
    Read { id: Seq<char>, name: Seq<char> },
    ReadExact { id: Seq<char>, name: Seq<char>, len: usize },
    CreateBundle { id: Seq<char> },
    CreateFile { id: Seq<char>, name: Seq<char>, bytes: Seq<u8> },
    Overwrite { id: Seq<char>, name: Seq<char>, bytes: Seq<u8> },
    RemoveFile { id: Seq<char>, name: Seq<char> },
    RemoveBundle { id: Seq<char> },
    Finish(ReplyView),
}

impl View for Action {
    type V = ActionView;

    open spec fn view(&self) -> ActionView {
        match *self {
            Action::BundleExists { id } => ActionView::BundleExists { id: id@ },
            Action::EntryExists { id, name } => ActionView::EntryExists { id: id@, name: name@ },
            Action::FileExists { id, name } => ActionView::FileExists { id: id@, name: name@ },
            Action::Read { id, name } => ActionView::Read { id: id@, name: name@ },
            Action::ReadExact { id, name, len } => ActionView::ReadExact {
                id: id@,
                name: name@,
                len,
            },
            Action::CreateBundle { id } => ActionView::CreateBundle { id: id@ },
            Action::CreateFile { id, name, bytes } => ActionView::CreateFile {
                id: id@,
                name: name@,
                bytes: bytes@,
            },
            Action::Overwrite { id, name, bytes } => ActionView::Overwrite {
                id: id@,
                name: name@,
                bytes: bytes@,
            },
            Action::RemoveFile { id, name } => ActionView::RemoveFile { id: id@, name: name@ },
            Action::RemoveBundle { id } => ActionView::RemoveBundle { id: id@ },
            Action::Finish(reply) => ActionView::Finish(reply@),
        }
    }
}

/// How the last step went.
#[derive(Debug, PartialEq, Eq)]
pub enum Event {
    /// No step was taken yet.
    Begin,
    Exists(bool),
    Content(Vec<u8>),
    Done,
    Failed,
}

pub enum EventView {
    Begin,
    Exists(bool),
    Content(Seq<u8>),
    Done,
    Failed,
}

impl View for Event {
    type V = EventView;

    open spec fn view(&self) -> EventView {
        match *self {
            Event::Begin => EventView::Begin,
            Event::Exists(found) => EventView::Exists(found),
            Event::Content(bytes) => EventView::Content(bytes@),
            Event::Done => EventView::Done,
            Event::Failed => EventView::Failed,
        }
    }
}

/// What to do next, and the stage to come back with once it is done.
#[derive(Debug, PartialEq, Eq)]
pub struct Turn {
    pub stage: Stage,
    pub action: Action,
}

pub struct TurnView {
    pub stage: Stage,
    pub action: ActionView,
}

impl View for Turn {
    type V = TurnView;

    open spec fn view(&self) -> TurnView {
        TurnView { stage: self.stage, action: self.action@ }
    }
}

/// The name under which a bundle keeps the digest of its change key.
pub open spec fn key_record_name() -> Seq<char> {
    "change.key"@
}

/// A name that can stand for a bundle or for a content file: it holds no
/// path separator and is not the name of the key record.
pub open spec fn is_safe_name(name: Seq<char>) -> bool {
    !name.contains('/') && name != key_record_name()
}

/// A body that the store accepts: not empty and no longer than `max_size`.
pub open spec fn is_accepted_body(bytes: Seq<u8>, max_size: u64) -> bool {
    0 < bytes.len() <= max_size
}

/// Whether a file may be created under `filename` with a body of `len`
/// bytes, and if not, why.
pub open spec fn upload_verdict(max_size: u64, filename: Seq<char>, len: nat) -> Result<
    (),
    DataSourceError,
> {
    if !is_safe_name(filename) {
        Err(DataSourceError::InvalidFilename)
    } else if len == 0 {
        Err(DataSourceError::EmptyBody)
    } else if len > max_size {
        Err(DataSourceError::TooBig)
    } else {
        Ok(())
    }
}

/// The turn that ends a `Get`.
pub open spec fn content_turn(content: Option<Seq<u8>>) -> TurnView {
    TurnView { stage: Stage::Finished, action: ActionView::Finish(ReplyView::Content(content)) }
}

/// The turn that ends a `Create`.
pub open spec fn created_turn(
    result: Result<(Seq<char>, Seq<char>), DataSourceError>,
) -> TurnView {
    TurnView { stage: Stage::Finished, action: ActionView::Finish(ReplyView::Created(result)) }
}

/// The turn that ends a `Modify` or a `Delete`.
pub open spec fn changed_turn(result: Result<(), DataSourceError>) -> TurnView {
    TurnView { stage: Stage::Finished, action: ActionView::Finish(ReplyView::Changed(result)) }
}

/// Whether `event` brings the digest of `change_key`.
pub open spec fn key_matches(event: EventView, change_key: Seq<char>) -> bool {
    event matches EventView::Content(stored) && stored == key_digest(change_key)
}

/// How a `Get` goes on.
pub open spec fn get_turn(
    id: Seq<char>,
    filename: Seq<char>,
    stage: Stage,
    event: EventView,
) -> TurnView {
    match stage {
        Stage::Start => if is_safe_name(id) && is_safe_name(filename) {
            TurnView {
                stage: Stage::ProbingEntry,
                action: ActionView::FileExists { id, name: filename },
            }
        } else {
            content_turn(None)
        },
        Stage::ProbingEntry => if event == EventView::Exists(true) {
            TurnView { stage: Stage::ReadingContent, action: ActionView::Read { id, name: filename } }
        } else {
            content_turn(None)
        },
        Stage::ReadingContent => match event {
            EventView::Content(bytes) => content_turn(Some(bytes)),
            _ => content_turn(None),
        },
        _ => content_turn(None),
    }
}

/// How a `Create` goes on.
pub open spec fn create_turn(
    max_size: u64,
    id: Seq<char>,
    change_key: Seq<char>,
    filename: Seq<char>,
    bytes: Seq<u8>,
    stage: Stage,
    event: EventView,
) -> TurnView {
    match stage {
        Stage::Start => match upload_verdict(max_size, filename, bytes.len()) {
            Err(e) => created_turn(Err(e)),
            Ok(_) => TurnView {
                stage: Stage::CreatingBundle,
                action: ActionView::CreateBundle { id },
            },
        },
        Stage::CreatingBundle => if event == EventView::Done {
            TurnView {
                stage: Stage::WritingKey,
                action: ActionView::CreateFile {
                    id,
                    name: key_record_name(),
                    bytes: key_digest(change_key),
                },
            }
        } else {
            created_turn(Err(DataSourceError::InternalServerError))
        },
        Stage::WritingKey => if event == EventView::Done {
            TurnView {
                stage: Stage::WritingContent,
                action: ActionView::CreateFile { id, name: filename, bytes },
            }
        } else {
            created_turn(Err(DataSourceError::InternalServerError))
        },
        Stage::WritingContent => if event == EventView::Done {
            created_turn(Ok((id, change_key)))
        } else {
            created_turn(Err(DataSourceError::InternalServerError))
        },
        _ => created_turn(Err(DataSourceError::InternalServerError)),
    }
}

/// How a `Modify` goes on.
pub open spec fn modify_turn(
    max_size: u64,
    id: Seq<char>,
    filename: Seq<char>,
    change_key: Seq<char>,
    bytes: Seq<u8>,
    stage: Stage,
    event: EventView,
) -> TurnView {
    match stage {
        Stage::Start => if !is_safe_name(id) || !is_safe_name(filename) {
            changed_turn(Err(DataSourceError::NotFound))
        } else if bytes.len() == 0 {
            changed_turn(Err(DataSourceError::EmptyBody))
        } else if bytes.len() > max_size {
            changed_turn(Err(DataSourceError::TooBig))
        } else {
            TurnView { stage: Stage::ProbingBundle, action: ActionView::BundleExists { id } }
        },
        Stage::ProbingBundle => match event {
            EventView::Exists(true) => TurnView {
                stage: Stage::ReadingKey,
                action: ActionView::ReadExact { id, name: key_record_name(), len: DIGEST_LENGTH },
            },
            EventView::Exists(false) => changed_turn(Err(DataSourceError::NotFound)),
            _ => changed_turn(Err(DataSourceError::InternalServerError)),
        },
        Stage::ReadingKey => if key_matches(event, change_key) {
            TurnView {
                stage: Stage::WritingContent,
                action: ActionView::Overwrite { id, name: filename, bytes },
            }
        } else {
            changed_turn(Err(DataSourceError::InvalidChangeKey))
        },
        Stage::WritingContent => if event == EventView::Done {
            changed_turn(Ok(()))
        } else {
            changed_turn(Err(DataSourceError::InternalServerError))
        },
        _ => changed_turn(Err(DataSourceError::InternalServerError)),
    }
}

/// How a `Delete` goes on.
pub open spec fn delete_turn(
    id: Seq<char>,
    filename: Seq<char>,
    change_key: Seq<char>,
    stage: Stage,
    event: EventView,
) -> TurnView {
    match stage {
        Stage::Start => if !is_safe_name(id) || !is_safe_name(filename) {
            changed_turn(Err(DataSourceError::NotFound))
        } else {
            TurnView { stage: Stage::ProbingBundle, action: ActionView::BundleExists { id } }
        },
        Stage::ProbingBundle => match event {
            EventView::Exists(true) => TurnView {
                stage: Stage::ReadingKey,
                action: ActionView::ReadExact { id, name: key_record_name(), len: DIGEST_LENGTH },
            },
            EventView::Exists(false) => changed_turn(Err(DataSourceError::NotFound)),
            _ => changed_turn(Err(DataSourceError::InternalServerError)),
        },
        Stage::ReadingKey => if key_matches(event, change_key) {
            TurnView {
                stage: Stage::ProbingEntry,
                action: ActionView::EntryExists { id, name: filename },
            }
        } else {
            changed_turn(Err(DataSourceError::InvalidChangeKey))
        },
        Stage::ProbingEntry => match event {
            EventView::Exists(true) => TurnView {
                stage: Stage::RemovingContent,
                action: ActionView::RemoveFile { id, name: filename },
            },
            EventView::Exists(false) => changed_turn(Err(DataSourceError::NotFound)),
            _ => changed_turn(Err(DataSourceError::InternalServerError)),
        },
        Stage::RemovingContent => if event == EventView::Done {
            TurnView {
                stage: Stage::RemovingKey,
                action: ActionView::RemoveFile { id, name: key_record_name() },
            }
        } else {
            changed_turn(Err(DataSourceError::InternalServerError))
        },
        Stage::RemovingKey => if event == EventView::Done {
            TurnView { stage: Stage::RemovingBundle, action: ActionView::RemoveBundle { id } }
        } else {
            changed_turn(Err(DataSourceError::InternalServerError))
        },
        Stage::RemovingBundle => if event == EventView::Done {
            changed_turn(Ok(()))
        } else {
            changed_turn(Err(DataSourceError::InternalServerError))
        },
        _ => changed_turn(Err(DataSourceError::InternalServerError)),
    }
}

/// How a request goes on from `stage`, once the step before it was answered
/// by `event`.
pub open spec fn next_turn(
    max_size: u64,
    request: RequestView,
    stage: Stage,
    event: EventView,
) -> TurnView {
    match request {
        RequestView::Get { id, filename } => get_turn(id, filename, stage, event),
        RequestView::Create { id, change_key, filename, bytes } => create_turn(
            max_size,
            id,
            change_key,
            filename,
            bytes,
            stage,
            event,
        ),
        RequestView::Modify { id, filename, change_key, bytes } => modify_turn(
            max_size,
            id,
            filename,
            change_key,
            bytes,
            stage,
            event,
        ),
        RequestView::Delete { id, filename, change_key } => delete_turn(
            id,
            filename,
            change_key,
            stage,
            event,
        ),
    }
}

/// The path separator as a byte of UTF-8.
pub const SEPARATOR_BYTE: u8 = 0x2f;

proof fn or_sets_the_high_bit(low: u8)
    by (bit_vector)
    ensures
        0x80u8 | low >= 0x80u8,
        0xC0u8 | low >= 0x80u8,
        0xE0u8 | low >= 0x80u8,
        0xF0u8 | low >= 0x80u8,
{
}

proof fn low_scalar_is_its_byte(scalar: u32)
    by (bit_vector)
    requires
        scalar <= 0x7Fu32,
    ensures
        scalar & 0x7Fu32 == scalar,
{
}

/// In the UTF-8 bytes of a character, the separator byte stands for the
/// separator and for nothing else.
proof fn separator_shows_in_scalar(c: char)
    ensures
        encode_scalar(c as u32).len() > 0,
        forall|k: int|
            0 <= k < encode_scalar(c as u32).len() ==> ((#[trigger] encode_scalar(c as u32)[k])
                == SEPARATOR_BYTE) == (c == '/'),
{
    let scalar = c as u32;
    if has_width_1_encoding(scalar) {
        low_scalar_is_its_byte(scalar);
    } else {
        or_sets_the_high_bit(((scalar >> 6) & 0x1F) as u8);
        or_sets_the_high_bit(((scalar >> 12) & 0x0F) as u8);
        or_sets_the_high_bit(((scalar >> 18) & 0x7) as u8);
        or_sets_the_high_bit((scalar & 0x3F) as u8);
        or_sets_the_high_bit(((scalar >> 6) & 0x3F) as u8);
        or_sets_the_high_bit(((scalar >> 12) & 0x3F) as u8);
    }
}

/// A text holds a path separator exactly if its UTF-8 bytes hold the
/// separator byte.
proof fn separator_shows_in_bytes(text: Seq<char>)
    ensures
        encode_utf8(text).contains(SEPARATOR_BYTE) <==> text.contains('/'),
    decreases text.len(),
{
    if text.len() > 0 {
        let head = encode_scalar(text[0] as u32);
        let rest = text.drop_first();
        let tail = encode_utf8(rest);
        separator_shows_in_scalar(text[0]);
        separator_shows_in_bytes(rest);
        assert(encode_utf8(text) == head + tail);
        if (head + tail).contains(SEPARATOR_BYTE) {
            let k = choose|k: int| 0 <= k < (head + tail).len() && (head + tail)[k] == SEPARATOR_BYTE;
            if k < head.len() {
                assert(head[k] == SEPARATOR_BYTE);
                assert(text[0] == '/');
            } else {
                assert(tail[k - head.len()] == SEPARATOR_BYTE);
                assert(tail.contains(SEPARATOR_BYTE));
                let j = choose|j: int| 0 <= j < rest.len() && rest[j] == '/';
                assert(text[j + 1] == '/');
            }
        }
        if text.contains('/') {
            let j = choose|j: int| 0 <= j < text.len() && text[j] == '/';
            if j == 0 {
                assert((head + tail)[0] == head[0]);
            } else {
                assert(rest[j - 1] == '/');
                assert(rest.contains('/'));
                let k = choose|k: int| 0 <= k < tail.len() && tail[k] == SEPARATOR_BYTE;
                assert((head + tail)[head.len() + k] == SEPARATOR_BYTE);
            }
        }
    }
}

fn key_record() -> (name: String)
    ensures
        name@ == key_record_name(),
{
    String::from_str("change.key")
}

fn end_get(content: Option<Vec<u8>>) -> (turn: Turn)
    ensures
        turn@ == content_turn(
            match content {
                Some(bytes) => Some(bytes@),
                None => None,
            },
        ),
{
    Turn { stage: Stage::Finished, action: Action::Finish(Reply::Content(content)) }
}

fn end_create(error: DataSourceError) -> (turn: Turn)
    ensures
        turn@ == created_turn(Err(error)),
{
    Turn { stage: Stage::Finished, action: Action::Finish(Reply::Created(Err(error))) }
}

fn end_change(result: Result<(), DataSourceError>) -> (turn: Turn)
    ensures
        turn@ == changed_turn(result),
{
    Turn { stage: Stage::Finished, action: Action::Finish(Reply::Changed(result)) }
}

impl DataSourceError {
    /// The HTTP status under which the error is reported.
    pub fn status_code(&self) -> (code: u16)
        ensures
            code == match *self {
                DataSourceError::InvalidFilename => 400u16,
                DataSourceError::EmptyBody => 400u16,
                DataSourceError::TooBig => 400u16,
                DataSourceError::InvalidChangeKey => 403u16,
                DataSourceError::NotFound => 404u16,
                DataSourceError::InternalServerError => 500u16,
            },
    {
        match self {
            DataSourceError::InvalidFilename => 400,
            DataSourceError::EmptyBody => 400,
            DataSourceError::TooBig => 400,
            DataSourceError::InvalidChangeKey => 403,
            DataSourceError::NotFound => 404,
            DataSourceError::InternalServerError => 500,
        }
    }

    /// The text that the client is shown.
    pub fn message(&self) -> (text: &'static str)
        ensures
            text@ == match *self {
                DataSourceError::InvalidFilename => "Invalid filename"@,
                DataSourceError::EmptyBody => "Empty body"@,
                DataSourceError::TooBig => "File is too big"@,
                DataSourceError::InvalidChangeKey => "Invalid change key"@,
                DataSourceError::NotFound => "Not Found"@,
                DataSourceError::InternalServerError => "Internal Server Error"@,
            },
    {
        match self {
            DataSourceError::InvalidFilename => "Invalid filename",
            DataSourceError::EmptyBody => "Empty body",
            DataSourceError::TooBig => "File is too big",
            DataSourceError::InvalidChangeKey => "Invalid change key",
            DataSourceError::NotFound => "Not Found",
            DataSourceError::InternalServerError => "Internal Server Error",
        }
    }
}

impl DataSource {
    pub fn new(directory: String, max_size: u64) -> (source: DataSource)
        ensures
            source.directory == directory,
            source.max_size == max_size,
    {
        DataSource { directory, max_size }
    }

    /// Whether `filename` can name a bundle or a content file.
    pub fn check_filename(filename: &str) -> (safe: bool)
        ensures
            safe == is_safe_name(filename@),
    {
        let bytes = filename.as_bytes();
        proof {
            separator_shows_in_bytes(filename@);
        }
        let mut i: usize = 0;
        while i < bytes.len()
            invariant
                i <= bytes@.len(),
                bytes@.contains(SEPARATOR_BYTE) <==> filename@.contains('/'),
                forall|j: int| 0 <= j < i ==> bytes@[j] != SEPARATOR_BYTE,
            decreases bytes@.len() - i,
        {
            if bytes[i] == SEPARATOR_BYTE {
                assert(bytes@.contains(SEPARATOR_BYTE));
                return false;
            }
            i += 1;
        }
        assert(!bytes@.contains(SEPARATOR_BYTE));
        let reserved = key_record();
        let given = filename.to_owned();
        !(given == reserved)
    }

    /// Whether a body of `len` bytes may be stored, and if not, why.
    pub fn check_body(&self, len: usize) -> (result: Result<(), DataSourceError>)
        ensures
            result == (if len == 0 {
                Err::<(), DataSourceError>(DataSourceError::EmptyBody)
            } else if len > self.max_size {
                Err(DataSourceError::TooBig)
            } else {
                Ok(())
            }),
    {
        if len == 0 {
            Err(DataSourceError::EmptyBody)
        } else if len as u64 > self.max_size {
            Err(DataSourceError::TooBig)
        } else {
            Ok(())
        }
    }

    /// Whether `filename` may be created with a body of `len` bytes, and if
    /// not, why: the name is looked at first, then the size.
    pub fn check_upload(&self, filename: &str, len: usize) -> (result: Result<
        (),
        DataSourceError,
    >)
        ensures
            result == upload_verdict(self.max_size, filename@, len as nat),
    {
        if !Self::check_filename(filename) {
            return Err(DataSourceError::InvalidFilename);
        }
        self.check_body(len)
    }

    /// Whether `event` brings the stored digest of `change_key`. Anything
    /// else, an unreadable record too, is an invalid change key.
    pub fn verify_change_key(event: &Event, change_key: &str) -> (result: Result<
        (),
        DataSourceError,
    >)
        ensures
            result == (if key_matches(event@, change_key@) {
                Ok::<(), DataSourceError>(())
            } else {
                Err(DataSourceError::InvalidChangeKey)
            }),
    {
        match event {
            Event::Content(stored) => {
                let digest = hash_change_key(change_key);
                if same_bytes(stored.as_slice(), digest.as_slice()) {
                    Ok(())
                } else {
                    Err(DataSourceError::InvalidChangeKey)
                }
            },
            _ => Err(DataSourceError::InvalidChangeKey),
        }
    }

    /// The request to read `filename` of bundle `id`.
    pub fn get_file(&self, id: String, filename: String) -> (request: Request)
        ensures
            request@ == (RequestView::Get { id: id@, filename: filename@ }),
    {
        Request::Get { id, filename }
    }

    /// The request to store `bytes` as `filename` in the bundle `id`, which is
    /// to be made for it and guarded by `change_key`.
    pub fn create_file_as(
        &self,
        filename: String,
        bytes: Vec<u8>,
        id: String,
        change_key: String,
    ) -> (result: Result<Request, DataSourceError>)
        ensures
            match upload_verdict(self.max_size, filename@, bytes@.len()) {
                Err(e) => result == Err::<Request, DataSourceError>(e),
                Ok(_) => result is Ok && result->Ok_0@ == (RequestView::Create {
                    id: id@,
                    change_key: change_key@,
                    filename: filename@,
                    bytes: bytes@,
                }),
            },
    {
        match self.check_upload(filename.as_str(), bytes.len()) {
            Err(e) => Err(e),
            Ok(()) => Ok(Request::Create { id, change_key, filename, bytes }),
        }
    }

    /// The request to store `bytes` as `filename` in a new bundle, under a
    /// fresh identifier of `id_length` characters and a fresh change key of
    /// `change_key_length` characters.
    pub fn create_file(
        &self,
        filename: String,
        bytes: Vec<u8>,
        id_length: usize,
        change_key_length: usize,
    ) -> (result: Result<Request, DataSourceError>)
        requires
            id_length <= isize::MAX,
            change_key_length <= isize::MAX,
        ensures
            match upload_verdict(self.max_size, filename@, bytes@.len()) {
                Err(e) => result == Err::<Request, DataSourceError>(e),
                Ok(_) => result is Ok && exists|id: Seq<char>, change_key: Seq<char>|
                    {
                        &&& is_token(id, id_length as nat)
                        &&& is_token(change_key, change_key_length as nat)
                        &&& #[trigger] result->Ok_0@ == (RequestView::Create {
                            id,
                            change_key,
                            filename: filename@,
                            bytes: bytes@,
                        })
                    },
            },
    {
        if let Err(e) = self.check_upload(filename.as_str(), bytes.len()) {
            return Err(e);
        }
        let id = generate_file_id(id_length);
        let change_key = generate_change_key(change_key_length);
        let request = Request::Create { id, change_key, filename, bytes };
        assert(request@ == (RequestView::Create {
            id: request->Create_id@,
            change_key: request->Create_change_key@,
            filename: filename@,
            bytes: bytes@,
        }));
        Ok(request)
    }

    /// The request to replace what `filename` of bundle `id` holds by `bytes`.
    pub fn modify_file(
        &self,
        id: String,
        filename: String,
        change_key: String,
        bytes: Vec<u8>,
    ) -> (request: Request)
        ensures
            request@ == (RequestView::Modify {
                id: id@,
                filename: filename@,
                change_key: change_key@,
                bytes: bytes@,
            }),
    {
        Request::Modify { id, filename, change_key, bytes }
    }

    /// The request to remove `filename` of bundle `id`, and the bundle with it.
    pub fn delete_file(&self, id: String, filename: String, change_key: String) -> (request:
        Request)
        ensures
            request@ == (RequestView::Delete {
                id: id@,
                filename: filename@,
                change_key: change_key@,
            }),
    {
        Request::Delete { id, filename, change_key }
    }

    fn advance_get(id: &String, filename: &String, stage: Stage, event: Event) -> (turn: Turn)
        ensures
            turn@ == get_turn(id@, filename@, stage, event@),
    {
        match stage {
            Stage::Start => {
                if Self::check_filename(id.as_str()) && Self::check_filename(filename.as_str()) {
                    Turn {
                        stage: Stage::ProbingEntry,
                        action: Action::FileExists { id: id.clone(), name: filename.clone() },
                    }
                } else {
                    end_get(None)
                }
            },
            Stage::ProbingEntry => match event {
                Event::Exists(true) => Turn {
                    stage: Stage::ReadingContent,
                    action: Action::Read { id: id.clone(), name: filename.clone() },
                },
                _ => end_get(None),
            },
            Stage::ReadingContent => match event {
                Event::Content(bytes) => end_get(Some(bytes)),
                _ => end_get(None),
            },
            _ => end_get(None),
        }
    }

    fn advance_create(
        &self,
        id: &String,
        change_key: &String,
        filename: &String,
        bytes: &Vec<u8>,
        stage: Stage,
        event: Event,
    ) -> (turn: Turn)
        ensures
            turn@ == create_turn(
                self.max_size,
                id@,
                change_key@,
                filename@,
                bytes@,
                stage,
                event@,
            ),
    {
        match stage {
            Stage::Start => {
                match self.check_upload(filename.as_str(), bytes.len()) {
                    Err(e) => end_create(e),
                    Ok(()) => Turn {
                        stage: Stage::CreatingBundle,
                        action: Action::CreateBundle { id: id.clone() },
                    },
                }
            },
            Stage::CreatingBundle => match event {
                Event::Done => Turn {
                    stage: Stage::WritingKey,
                    action: Action::CreateFile {
                        id: id.clone(),
                        name: key_record(),
                        bytes: hash_change_key(change_key.as_str()),
                    },
                },
                _ => end_create(DataSourceError::InternalServerError),
            },
            Stage::WritingKey => match event {
                Event::Done => Turn {
                    stage: Stage::WritingContent,
                    action: Action::CreateFile {
                        id: id.clone(),
                        name: filename.clone(),
                        bytes: slice_to_vec(bytes.as_slice()),
                    },
                },
                _ => end_create(DataSourceError::InternalServerError),
            },
            Stage::WritingContent => match event {
                Event::Done => Turn {
                    stage: Stage::Finished,
                    action: Action::Finish(
                        Reply::Created(Ok((id.clone(), change_key.clone()))),
                    ),
                },
                _ => end_create(DataSourceError::InternalServerError),
            },
            _ => end_create(DataSourceError::InternalServerError),
        }
    }

    fn advance_modify(
        &self,
        id: &String,
        filename: &String,
        change_key: &String,
        bytes: &Vec<u8>,
        stage: Stage,
        event: Event,
    ) -> (turn: Turn)
        ensures
            turn@ == modify_turn(
                self.max_size,
                id@,
                filename@,
                change_key@,
                bytes@,
                stage,
                event@,
            ),
    {
        match stage {
            Stage::Start => {
                if !Self::check_filename(id.as_str()) || !Self::check_filename(
                    filename.as_str(),
                ) {
                    return end_change(Err(DataSourceError::NotFound));
                }
                match self.check_body(bytes.len()) {
                    Err(e) => end_change(Err(e)),
                    Ok(()) => Turn {
                        stage: Stage::ProbingBundle,
                        action: Action::BundleExists { id: id.clone() },
                    },
                }
            },
            Stage::ProbingBundle => match event {
                Event::Exists(true) => Turn {
                    stage: Stage::ReadingKey,
                    action: Action::ReadExact {
                        id: id.clone(),
                        name: key_record(),
                        len: DIGEST_LENGTH,
                    },
                },
                Event::Exists(false) => end_change(Err(DataSourceError::NotFound)),
                _ => end_change(Err(DataSourceError::InternalServerError)),
            },
            Stage::ReadingKey => match Self::verify_change_key(&event, change_key.as_str()) {
                Ok(()) => Turn {
                    stage: Stage::WritingContent,
                    action: Action::Overwrite {
                        id: id.clone(),
                        name: filename.clone(),
                        bytes: slice_to_vec(bytes.as_slice()),
                    },
                },
                Err(e) => end_change(Err(e)),
            },
            Stage::WritingContent => match event {
                Event::Done => end_change(Ok(())),
                _ => end_change(Err(DataSourceError::InternalServerError)),
            },
            _ => end_change(Err(DataSourceError::InternalServerError)),
        }
    }

    fn advance_delete(
        id: &String,
        filename: &String,
        change_key: &String,
        stage: Stage,
        event: Event,
    ) -> (turn: Turn)
        ensures
            turn@ == delete_turn(id@, filename@, change_key@, stage, event@),
    {
        match stage {
            Stage::Start => {
                if !Self::check_filename(id.as_str()) || !Self::check_filename(
                    filename.as_str(),
                ) {
                    return end_change(Err(DataSourceError::NotFound));
                }
                Turn {
                    stage: Stage::ProbingBundle,
                    action: Action::BundleExists { id: id.clone() },
                }
            },
            Stage::ProbingBundle => match event {
                Event::Exists(true) => Turn {
                    stage: Stage::ReadingKey,
                    action: Action::ReadExact {
                        id: id.clone(),
                        name: key_record(),
                        len: DIGEST_LENGTH,
                    },
                },
                Event::Exists(false) => end_change(Err(DataSourceError::NotFound)),
                _ => end_change(Err(DataSourceError::InternalServerError)),
            },
            Stage::ReadingKey => match Self::verify_change_key(&event, change_key.as_str()) {
                Ok(()) => Turn {
                    stage: Stage::ProbingEntry,
                    action: Action::EntryExists { id: id.clone(), name: filename.clone() },
                },
                Err(e) => end_change(Err(e)),
            },
            Stage::ProbingEntry => match event {
                Event::Exists(true) => Turn {
                    stage: Stage::RemovingContent,
                    action: Action::RemoveFile { id: id.clone(), name: filename.clone() },
                },
                Event::Exists(false) => end_change(Err(DataSourceError::NotFound)),
                _ => end_change(Err(DataSourceError::InternalServerError)),
            },
            Stage::RemovingContent => match event {
                Event::Done => Turn {
                    stage: Stage::RemovingKey,
                    action: Action::RemoveFile { id: id.clone(), name: key_record() },
                },
                _ => end_change(Err(DataSourceError::InternalServerError)),
            },
            Stage::RemovingKey => match event {
                Event::Done => Turn {
                    stage: Stage::RemovingBundle,
                    action: Action::RemoveBundle { id: id.clone() },
                },
                _ => end_change(Err(DataSourceError::InternalServerError)),
            },
            Stage::RemovingBundle => match event {
                Event::Done => end_change(Ok(())),
                _ => end_change(Err(DataSourceError::InternalServerError)),
            },
            _ => end_change(Err(DataSourceError::InternalServerError)),
        }
    }

    /// The next turn in serving `request`: what to do after the step that was
    /// asked for at `stage` has been answered by `event`. A request starts at
    /// `Stage::Start`, where the event does not matter, and is over with
    /// `Action::Finish`.
    pub fn advance(&self, request: &Request, stage: Stage, event: Event) -> (turn: Turn)
        ensures
            turn@ == next_turn(self.max_size, request@, stage, event@),
    {
        match request {
            Request::Get { id, filename } => Self::advance_get(id, filename, stage, event),
            Request::Create { id, change_key, filename, bytes } => self.advance_create(
                id,
                change_key,
                filename,
                bytes,
                stage,
                event,
            ),
            Request::Modify { id, filename, change_key, bytes } => self.advance_modify(
                id,
                filename,
                change_key,
                bytes,
                stage,
                event,
            ),
            Request::Delete { id, filename, change_key } => Self::advance_delete(
                id,
                filename,
                change_key,
                stage,
                event,
            ),
        }
    }
}

} // verus!
