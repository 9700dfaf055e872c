//! What the HTTP front decides before a request reaches the store, and how it
//! words the answers.

use crate::data_source::{
    is_accepted_body, is_safe_name, DataSource, DataSourceError, Request, RequestView,
};
use crate::id::is_token;
use vstd::prelude::*;

verus! {

/// The body of the answer to a successful upload.
#[derive(Clone, Debug)]
pub struct CreateFileResponse {
    pub id: String,
    pub change_key: String,
}

/// The content type that `mime_guess` gives for a file name.
pub uninterp spec fn guessed_content_type(filename: Seq<char>) -> Seq<char>;

/// Asks `mime_guess` for the media types of the file name's extension and
/// takes the first, or `text/plain` where it knows none. The claim: the
/// result depends on the file name alone.
#[verifier::external_body]
fn guess_content_type(filename: &str) -> (content_type: String)
    ensures
        content_type@ == guessed_content_type(filename@),
{
    mime_guess::from_path(filename).first_or_text_plain().to_string()
}

/// The content type under which the content of `filename` is sent.
pub fn content_type(filename: &str) -> (content_type: String)
    ensures
        content_type@ == guessed_content_type(filename@),
{
    guess_content_type(filename)
}

/// The request to read a file.
pub fn get_file(source: &DataSource, id: String, filename: String) -> (request: Request)
    ensures
        request@ == (RequestView::Get { id: id@, filename: filename@ }),
{
    source.get_file(id, filename)
}

/// The request to store an uploaded body, unless the upload is turned down
/// at once. A body over the limit is too big whatever the file name is.
pub fn create_file(
    source: &DataSource,
    filename: String,
    body: Vec<u8>,
    id_length: usize,
    change_key_length: usize,
) -> (result: Result<Request, DataSourceError>)
    requires
        id_length <= isize::MAX,
        change_key_length <= isize::MAX,
    ensures
        body@.len() > source.max_size ==> result == Err::<Request, DataSourceError>(
            DataSourceError::TooBig,
        ),
        body@.len() <= source.max_size && !is_safe_name(filename@) ==> result == Err::<
            Request,
            DataSourceError,
        >(DataSourceError::InvalidFilename),
        body@.len() == 0 && is_safe_name(filename@) ==> result == Err::<Request, DataSourceError>(
            DataSourceError::EmptyBody,
        ),
        is_safe_name(filename@) && is_accepted_body(body@, source.max_size) ==> result is Ok
            && exists|id: Seq<char>, change_key: Seq<char>|
            {
                &&& is_token(id, id_length as nat)
                &&& is_token(change_key, change_key_length as nat)
                &&& #[trigger] result->Ok_0@ == (RequestView::Create {
                    id,
                    change_key,
                    filename: filename@,
                    bytes: body@,
                })
            },
{
    if body.len() as u64 > source.max_size {
        return Err(DataSourceError::TooBig);
    }
    source.create_file(filename, body, id_length, change_key_length)
}

/// The request to replace a file's content. A body over the limit is turned
/// down at once; without a change key there is no request, and the client is
/// told that one is needed.
pub fn modify_file(
    source: &DataSource,
    id: String,
    filename: String,
    change_key: Option<String>,
    body: Vec<u8>,
) -> (result: Result<Option<Request>, DataSourceError>)
    ensures
        body@.len() > source.max_size ==> result == Err::<Option<Request>, DataSourceError>(
            DataSourceError::TooBig,
        ),
        body@.len() <= source.max_size && change_key is None ==> result == Ok::<
            Option<Request>,
            DataSourceError,
        >(None),
        body@.len() <= source.max_size && change_key is Some ==> result is Ok
            && result->Ok_0 is Some && result->Ok_0->Some_0@ == (RequestView::Modify {
            id: id@,
            filename: filename@,
            change_key: change_key->Some_0@,
            bytes: body@,
        }),
{
    if body.len() as u64 > source.max_size {
        return Err(DataSourceError::TooBig);
    }
    match change_key {
        Some(key) => Ok(Some(source.modify_file(id, filename, key, body))),
        None => Ok(None),
    }
}

/// The request to delete a file; without a change key there is none, and the
/// client is told that one is needed.
pub fn delete_file(
    source: &DataSource,
    id: String,
    filename: String,
    change_key: Option<String>,
) -> (result: Option<Request>)
    ensures
        change_key is None ==> result is None,
        change_key is Some ==> result is Some && result->Some_0@ == (RequestView::Delete {
            id: id@,
            filename: filename@,
            change_key: change_key->Some_0@,
        }),
{
    match change_key {
        Some(key) => Some(source.delete_file(id, filename, key)),
        None => None,
    }
}

} // verus!
