use bundle_store::api;
use bundle_store::data_source::{
    Action, DataSource, DataSourceError, Event, Reply, Request, Stage,
};
use bundle_store::id::hash_change_key;
use std::collections::HashMap;

type Disk = HashMap<String, HashMap<String, Vec<u8>>>;

fn has_entry(disk: &Disk, id: &str, name: &str) -> bool {
    disk.get(id).map_or(false, |bundle| bundle.contains_key(name))
}

fn perform(disk: &mut Disk, action: Action) -> Event {
    match action {
        Action::BundleExists { id } => Event::Exists(disk.contains_key(&id)),
        Action::EntryExists { id, name } => Event::Exists(has_entry(disk, &id, &name)),
        Action::FileExists { id, name } => Event::Exists(has_entry(disk, &id, &name)),
        Action::Read { id, name } => match disk.get(&id).and_then(|bundle| bundle.get(&name)) {
            Some(bytes) => Event::Content(bytes.clone()),
            None => Event::Failed,
        },
        Action::ReadExact { id, name, len } => {
            match disk.get(&id).and_then(|bundle| bundle.get(&name)) {
                Some(bytes) if bytes.len() >= len => Event::Content(bytes[..len].to_vec()),
                _ => Event::Failed,
            }
        }
        Action::CreateBundle { id } => {
            if id.is_empty() || disk.contains_key(&id) {
                Event::Failed
            } else {
                disk.insert(id, HashMap::new());
                Event::Done
            }
        }
        Action::CreateFile { id, name, bytes } => match disk.get_mut(&id) {
            Some(bundle) => {
                bundle.insert(name, bytes);
                Event::Done
            }
            None => Event::Failed,
        },
        Action::Overwrite { id, name, bytes } => {
            if has_entry(disk, &id, &name) {
                disk.get_mut(&id).unwrap().insert(name, bytes);
                Event::Done
            } else {
                Event::Failed
            }
        }
        Action::RemoveFile { id, name } => {
            if has_entry(disk, &id, &name) {
                disk.get_mut(&id).unwrap().remove(&name);
                Event::Done
            } else {
                Event::Failed
            }
        }
        Action::RemoveBundle { id } => {
            if disk.get(&id).map_or(false, |bundle| bundle.is_empty()) {
                disk.remove(&id);
                Event::Done
            } else {
                Event::Failed
            }
        }
        Action::Finish(_) => Event::Begin,
    }
}

fn serve(source: &DataSource, request: &Request, disk: &mut Disk) -> Reply {
    let mut stage = Stage::Start;
    let mut event = Event::Begin;
    for _ in 0..16 {
        let turn = source.advance(request, stage, event);
        match turn.action {
            Action::Finish(reply) => {
                assert_eq!(turn.stage, Stage::Finished);
                return reply;
            }
            action => {
                stage = turn.stage;
                event = perform(disk, action);
            }
        }
    }
    panic!("the request did not end");
}

fn store() -> DataSource {
    DataSource::new("data".to_string(), 1048576)
}

fn created(source: &DataSource, disk: &mut Disk, filename: &str, body: &[u8]) -> (String, String) {
    let request = source
        .create_file(filename.to_string(), body.to_vec(), 10, 64)
        .unwrap();
    match serve(source, &request, disk) {
        Reply::Created(Ok(pair)) => pair,
        other => panic!("not created: {:?}", other),
    }
}

fn get(source: &DataSource, disk: &mut Disk, id: &str, filename: &str) -> Option<Vec<u8>> {
    let request = source.get_file(id.to_string(), filename.to_string());
    match serve(source, &request, disk) {
        Reply::Content(content) => content,
        other => panic!("not a content reply: {:?}", other),
    }
}

fn modify(
    source: &DataSource,
    disk: &mut Disk,
    id: &str,
    filename: &str,
    key: &str,
    body: &[u8],
) -> Result<(), DataSourceError> {
    let request = source.modify_file(
        id.to_string(),
        filename.to_string(),
        key.to_string(),
        body.to_vec(),
    );
    match serve(source, &request, disk) {
        Reply::Changed(result) => result,
        other => panic!("not a change reply: {:?}", other),
    }
}

fn delete(
    source: &DataSource,
    disk: &mut Disk,
    id: &str,
    filename: &str,
    key: &str,
) -> Result<(), DataSourceError> {
    let request = source.delete_file(id.to_string(), filename.to_string(), key.to_string());
    match serve(source, &request, disk) {
        Reply::Changed(result) => result,
        other => panic!("not a change reply: {:?}", other),
    }
}

#[test]
fn new_keeps_its_arguments() {
    let source = DataSource::new("somewhere".to_string(), 77);
    assert_eq!(source.directory, "somewhere");
    assert_eq!(source.max_size, 77);
}

#[test]
fn check_filename_accepts_plain_names() {
    assert!(DataSource::check_filename("notes.txt"));
    assert!(DataSource::check_filename(""));
    assert!(DataSource::check_filename("change.key.txt"));
    assert!(DataSource::check_filename("back\\slash"));
    assert!(DataSource::check_filename("na\u{ef}ve \u{1f600}.txt"));
}

#[test]
fn check_filename_rejects_separators_and_the_key_record() {
    assert!(!DataSource::check_filename("a/b"));
    assert!(!DataSource::check_filename("/"));
    assert!(!DataSource::check_filename("../x/"));
    assert!(!DataSource::check_filename("\u{1f600}/x"));
    assert!(!DataSource::check_filename("change.key"));
}

#[test]
fn check_upload_looks_at_the_name_first() {
    let source = DataSource::new("data".to_string(), 4);
    assert_eq!(source.check_upload("a/b", 0), Err(DataSourceError::InvalidFilename));
    assert_eq!(source.check_upload("a/b", 9), Err(DataSourceError::InvalidFilename));
    assert_eq!(source.check_upload("ab", 0), Err(DataSourceError::EmptyBody));
    assert_eq!(source.check_upload("ab", 5), Err(DataSourceError::TooBig));
    assert_eq!(source.check_upload("ab", 4), Ok(()));
}

#[test]
fn check_body_names_the_fault() {
    let source = DataSource::new("data".to_string(), 4);
    assert_eq!(source.check_body(0), Err(DataSourceError::EmptyBody));
    assert_eq!(source.check_body(1), Ok(()));
    assert_eq!(source.check_body(4), Ok(()));
    assert_eq!(source.check_body(5), Err(DataSourceError::TooBig));
}

#[test]
fn create_then_read_then_modify_then_delete() {
    let source = store();
    let mut disk = Disk::new();
    let (id, secret) = created(&source, &mut disk, "notes.txt", b"hello");
    assert_eq!(id.chars().count(), 10);
    assert_eq!(secret.chars().count(), 64);
    assert_eq!(get(&source, &mut disk, &id, "notes.txt"), Some(b"hello".to_vec()));
    assert_eq!(modify(&source, &mut disk, &id, "notes.txt", &secret, b"bye"), Ok(()));
    assert_eq!(get(&source, &mut disk, &id, "notes.txt"), Some(b"bye".to_vec()));
    assert_eq!(
        delete(&source, &mut disk, &id, "notes.txt", "wrong-secret"),
        Err(DataSourceError::InvalidChangeKey)
    );
    assert_eq!(delete(&source, &mut disk, &id, "notes.txt", &secret), Ok(()));
    assert_eq!(get(&source, &mut disk, &id, "notes.txt"), None);
    assert!(disk.is_empty());
}

#[test]
fn create_lays_the_bundle_out() {
    let source = store();
    let mut disk = Disk::new();
    let (id, secret) = created(&source, &mut disk, "notes.txt", b"hello");
    let bundle = disk.get(&id).unwrap();
    assert_eq!(bundle.len(), 2);
    assert_eq!(bundle.get("notes.txt"), Some(&b"hello".to_vec()));
    assert_eq!(bundle.get("change.key"), Some(&hash_change_key(&secret)));
    assert_eq!(bundle.get("change.key").unwrap().len(), 32);
}

#[test]
fn create_asks_for_the_steps_in_order() {
    let source = store();
    let request = source
        .create_file_as(
            "f.bin".to_string(),
            vec![1, 2, 3],
            "abc".to_string(),
            "key".to_string(),
        )
        .unwrap();
    let first = source.advance(&request, Stage::Start, Event::Begin);
    assert_eq!(first.stage, Stage::CreatingBundle);
    assert_eq!(first.action, Action::CreateBundle { id: "abc".to_string() });
    let second = source.advance(&request, first.stage, Event::Done);
    assert_eq!(second.stage, Stage::WritingKey);
    assert_eq!(
        second.action,
        Action::CreateFile {
            id: "abc".to_string(),
            name: "change.key".to_string(),
            bytes: hash_change_key("key"),
        }
    );
    let third = source.advance(&request, second.stage, Event::Done);
    assert_eq!(third.stage, Stage::WritingContent);
    assert_eq!(
        third.action,
        Action::CreateFile { id: "abc".to_string(), name: "f.bin".to_string(), bytes: vec![1, 2, 3] }
    );
    let last = source.advance(&request, third.stage, Event::Done);
    assert_eq!(
        last.action,
        Action::Finish(Reply::Created(Ok(("abc".to_string(), "key".to_string()))))
    );
}

#[test]
fn create_reports_a_failed_step_as_internal() {
    let source = store();
    let request = source
        .create_file_as("f".to_string(), vec![1], "abc".to_string(), "key".to_string())
        .unwrap();
    for stage in [Stage::CreatingBundle, Stage::WritingKey, Stage::WritingContent] {
        let turn = source.advance(&request, stage, Event::Failed);
        assert_eq!(
            turn.action,
            Action::Finish(Reply::Created(Err(DataSourceError::InternalServerError)))
        );
    }
    let mut disk = Disk::new();
    disk.insert("abc".to_string(), HashMap::new());
    assert_eq!(
        serve(&source, &request, &mut disk),
        Reply::Created(Err(DataSourceError::InternalServerError))
    );
}

#[test]
fn create_rejects_before_touching_storage() {
    let source = DataSource::new("data".to_string(), 8);
    assert_eq!(
        source.create_file("a/b".to_string(), vec![1], 10, 64),
        Err(DataSourceError::InvalidFilename)
    );
    assert_eq!(
        source.create_file("change.key".to_string(), vec![1], 10, 64),
        Err(DataSourceError::InvalidFilename)
    );
    assert_eq!(
        source.create_file("f".to_string(), vec![], 10, 64),
        Err(DataSourceError::EmptyBody)
    );
    assert_eq!(
        source.create_file("f".to_string(), vec![0; 9], 10, 64),
        Err(DataSourceError::TooBig)
    );
    assert!(source.create_file("f".to_string(), vec![0; 8], 10, 64).is_ok());
}

#[test]
fn oversized_body_creates_nothing() {
    let source = store();
    let mut disk = Disk::new();
    let body = vec![7u8; 1048577];
    assert_eq!(
        source.create_file("f".to_string(), body.clone(), 10, 64),
        Err(DataSourceError::TooBig)
    );
    let request = Request::Create {
        id: "abcdefghij".to_string(),
        change_key: "k".to_string(),
        filename: "f".to_string(),
        bytes: body,
    };
    assert_eq!(
        source.advance(&request, Stage::Start, Event::Begin).action,
        Action::Finish(Reply::Created(Err(DataSourceError::TooBig)))
    );
    assert_eq!(serve(&source, &request, &mut disk), Reply::Created(Err(DataSourceError::TooBig)));
    assert!(disk.is_empty());
}

#[test]
fn path_separators_are_turned_down_at_once() {
    let source = store();
    let mut disk = Disk::new();
    let (id, secret) = created(&source, &mut disk, "notes.txt", b"hello");
    let before = disk.clone();
    let create = Request::Create {
        id: "abcdefghij".to_string(),
        change_key: "k".to_string(),
        filename: "../notes.txt".to_string(),
        bytes: vec![1],
    };
    assert_eq!(
        source.advance(&create, Stage::Start, Event::Begin).action,
        Action::Finish(Reply::Created(Err(DataSourceError::InvalidFilename)))
    );
    assert_eq!(
        modify(&source, &mut disk, &id, "x/notes.txt", &secret, b"bye"),
        Err(DataSourceError::NotFound)
    );
    assert_eq!(
        modify(&source, &mut disk, "a/b", "notes.txt", &secret, b"bye"),
        Err(DataSourceError::NotFound)
    );
    assert_eq!(
        delete(&source, &mut disk, &id, "x/notes.txt", &secret),
        Err(DataSourceError::NotFound)
    );
    assert_eq!(get(&source, &mut disk, &id, "x/notes.txt"), None);
    assert_eq!(get(&source, &mut disk, &id, "change.key"), None);
    assert_eq!(disk, before);
}

#[test]
fn wrong_key_leaves_the_content() {
    let source = store();
    let mut disk = Disk::new();
    let (id, secret) = created(&source, &mut disk, "notes.txt", b"hello");
    let mut wrong = secret.clone();
    wrong.push('x');
    assert_eq!(
        modify(&source, &mut disk, &id, "notes.txt", &wrong, b"bye"),
        Err(DataSourceError::InvalidChangeKey)
    );
    assert_eq!(
        delete(&source, &mut disk, &id, "notes.txt", &wrong),
        Err(DataSourceError::InvalidChangeKey)
    );
    assert_eq!(get(&source, &mut disk, &id, "notes.txt"), Some(b"hello".to_vec()));
}

#[test]
fn unreadable_key_record_is_an_invalid_key() {
    let source = store();
    let mut disk = Disk::new();
    let (id, secret) = created(&source, &mut disk, "notes.txt", b"hello");
    disk.get_mut(&id).unwrap().remove("change.key");
    assert_eq!(
        modify(&source, &mut disk, &id, "notes.txt", &secret, b"bye"),
        Err(DataSourceError::InvalidChangeKey)
    );
    assert_eq!(
        DataSource::verify_change_key(&Event::Failed, &secret),
        Err(DataSourceError::InvalidChangeKey)
    );
    assert_eq!(
        DataSource::verify_change_key(&Event::Content(hash_change_key(&secret)), &secret),
        Ok(())
    );
    assert_eq!(
        DataSource::verify_change_key(&Event::Content(secret.as_bytes().to_vec()), &secret),
        Err(DataSourceError::InvalidChangeKey)
    );
}

#[test]
fn absent_and_deleted_bundles_read_alike() {
    let source = store();
    let mut disk = Disk::new();
    assert_eq!(get(&source, &mut disk, "neverthere", "notes.txt"), None);
    let (id, secret) = created(&source, &mut disk, "notes.txt", b"hello");
    assert_eq!(delete(&source, &mut disk, &id, "notes.txt", &secret), Ok(()));
    assert_eq!(get(&source, &mut disk, &id, "notes.txt"), None);
    assert_eq!(disk, Disk::new());
}

#[test]
fn modify_and_delete_of_what_is_not_there() {
    let source = store();
    let mut disk = Disk::new();
    assert_eq!(
        modify(&source, &mut disk, "neverthere", "notes.txt", "k", b"bye"),
        Err(DataSourceError::NotFound)
    );
    assert_eq!(
        delete(&source, &mut disk, "neverthere", "notes.txt", "k"),
        Err(DataSourceError::NotFound)
    );
    let (id, secret) = created(&source, &mut disk, "notes.txt", b"hello");
    assert_eq!(
        modify(&source, &mut disk, &id, "other.txt", &secret, b"bye"),
        Err(DataSourceError::InternalServerError)
    );
    assert_eq!(
        delete(&source, &mut disk, &id, "other.txt", &secret),
        Err(DataSourceError::NotFound)
    );
    assert_eq!(modify(&source, &mut disk, &id, "notes.txt", &secret, b""), Err(DataSourceError::EmptyBody));
    assert_eq!(
        modify(&source, &mut disk, &id, "notes.txt", &secret, &vec![0u8; 1048577]),
        Err(DataSourceError::TooBig)
    );
    assert_eq!(get(&source, &mut disk, &id, "notes.txt"), Some(b"hello".to_vec()));
}

#[test]
fn delete_fails_when_the_bundle_was_removed_meanwhile() {
    let source = store();
    let request = source.delete_file("abc".to_string(), "f".to_string(), "key".to_string());
    for stage in [Stage::RemovingContent, Stage::RemovingKey, Stage::RemovingBundle] {
        assert_eq!(
            source.advance(&request, stage, Event::Failed).action,
            Action::Finish(Reply::Changed(Err(DataSourceError::InternalServerError)))
        );
    }
    assert_eq!(
        source.advance(&request, Stage::ProbingEntry, Event::Exists(false)).action,
        Action::Finish(Reply::Changed(Err(DataSourceError::NotFound)))
    );
}

#[test]
fn get_reports_a_failed_read_as_nothing() {
    let source = store();
    let request = source.get_file("abc".to_string(), "f".to_string());
    assert_eq!(
        source.advance(&request, Stage::ReadingContent, Event::Failed).action,
        Action::Finish(Reply::Content(None))
    );
    assert_eq!(
        source.advance(&request, Stage::ReadingContent, Event::Content(vec![9; 3])).action,
        Action::Finish(Reply::Content(Some(vec![9; 3])))
    );
}

#[test]
fn get_returns_content_over_the_limit() {
    let source = DataSource::new("data".to_string(), 2);
    let mut disk = Disk::new();
    let mut bundle = HashMap::new();
    bundle.insert("big".to_string(), vec![1u8; 10]);
    disk.insert("abc".to_string(), bundle);
    assert_eq!(get(&source, &mut disk, "abc", "big"), Some(vec![1u8; 10]));
}

#[test]
fn errors_map_to_status_and_text() {
    assert_eq!(DataSourceError::InvalidFilename.status_code(), 400);
    assert_eq!(DataSourceError::InvalidFilename.message(), "Invalid filename");
    assert_eq!(DataSourceError::EmptyBody.status_code(), 400);
    assert_eq!(DataSourceError::EmptyBody.message(), "Empty body");
    assert_eq!(DataSourceError::TooBig.status_code(), 400);
    assert_eq!(DataSourceError::TooBig.message(), "File is too big");
    assert_eq!(DataSourceError::InvalidChangeKey.status_code(), 403);
    assert_eq!(DataSourceError::InvalidChangeKey.message(), "Invalid change key");
    assert_eq!(DataSourceError::NotFound.status_code(), 404);
    assert_eq!(DataSourceError::NotFound.message(), "Not Found");
    assert_eq!(DataSourceError::InternalServerError.status_code(), 500);
    assert_eq!(DataSourceError::InternalServerError.message(), "Internal Server Error");
}

#[test]
fn front_checks_the_size_first() {
    let source = DataSource::new("data".to_string(), 4);
    assert_eq!(
        api::create_file(&source, "a/b".to_string(), vec![0; 5], 10, 64),
        Err(DataSourceError::TooBig)
    );
    assert_eq!(
        api::create_file(&source, "a/b".to_string(), vec![0; 4], 10, 64),
        Err(DataSourceError::InvalidFilename)
    );
    assert_eq!(
        api::modify_file(&source, "i".to_string(), "f".to_string(), None, vec![0; 5]),
        Err(DataSourceError::TooBig)
    );
    assert_eq!(
        api::modify_file(&source, "i".to_string(), "f".to_string(), None, vec![0; 4]),
        Ok(None)
    );
    assert_eq!(
        api::modify_file(&source, "i".to_string(), "f".to_string(), Some("k".to_string()), vec![1]),
        Ok(Some(Request::Modify {
            id: "i".to_string(),
            filename: "f".to_string(),
            change_key: "k".to_string(),
            bytes: vec![1],
        }))
    );
    assert_eq!(api::delete_file(&source, "i".to_string(), "f".to_string(), None), None);
    assert_eq!(
        api::delete_file(&source, "i".to_string(), "f".to_string(), Some("k".to_string())),
        Some(Request::Delete {
            id: "i".to_string(),
            filename: "f".to_string(),
            change_key: "k".to_string(),
        })
    );
    assert_eq!(
        api::get_file(&source, "i".to_string(), "f".to_string()),
        Request::Get { id: "i".to_string(), filename: "f".to_string() }
    );
}

#[test]
fn content_type_goes_by_the_extension() {
    assert_eq!(api::content_type("notes.txt"), "text/plain");
    assert_eq!(api::content_type("picture.png"), "image/png");
    assert_eq!(api::content_type("noextension"), "text/plain");
}
