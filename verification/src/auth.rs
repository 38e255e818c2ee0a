use vstd::prelude::*;

use crate::error::AccountsError;

verus! {

/// What `serde_json::from_slice::<serde_json::Value>` makes of `data`:
/// `None` where it refuses the bytes, otherwise whether the document's
/// top-level value is a JSON object.
pub uninterp spec fn json_document_is_object(data: Seq<u8>) -> Option<bool>;

/// The text (through `Display`) of the `serde_json::Error` that
/// `serde_json::from_slice::<serde_json::Value>` gives for `data`, where it
/// refuses the bytes.
pub uninterp spec fn json_error_message(data: Seq<u8>) -> Seq<char>;

/// Calls `serde_json::from_slice::<serde_json::Value>`, then
/// `Value::is_object` on success or the error's `Display` on failure. The
/// contract claims only that the outcome is a function of the bytes:
/// success exactly where `json_document_is_object` is `Some`, carrying
/// whether the parsed value is an object, and otherwise the error's text,
/// `json_error_message`. Which bytes serde_json accepts, and the wording of
/// its messages, are not stated.
#[verifier::external_body]
fn parse_json_document(data: &[u8]) -> (r: Result<bool, String>)
    ensures
        match r {
            Ok(is_object) => json_document_is_object(data@) == Some(is_object),
            Err(message) => json_document_is_object(data@) is None && message@
                == json_error_message(data@),
        },
{
    match serde_json::from_slice::<serde_json::Value>(data) {
        Ok(value) => Ok(value.is_object()),
        Err(error) => Err(error.to_string()),
    }
}

/// The outcomes that checking the bytes `data` of the credential file at
/// `path` may have: empty bytes are refused as empty; bytes that serde_json
/// refuses are refused as invalid JSON, quoting the parser's message; a JSON
/// document whose top-level value is not an object is refused as such; a
/// JSON object passes.
pub open spec fn auth_check_allows(path: String, data: Seq<u8>, r: Result<(), AccountsError>) -> bool {
    if data.len() == 0 {
        r == Err::<(), AccountsError>(AccountsError::AuthEmpty { path })
    } else {
        match json_document_is_object(data) {
            None => r matches Err(AccountsError::AuthInvalidJson { path: p, cause: c }) && p == path
                && c@ == json_error_message(data),
            Some(true) => r is Ok,
            Some(false) => r == Err::<(), AccountsError>(AccountsError::AuthNotObject { path }),
        }
    }
}

/// The bytes hold a credential document this tool accepts: a non-empty
/// JSON document whose top-level value is an object.
pub open spec fn is_auth_document(data: Seq<u8>) -> bool {
    data.len() > 0 && json_document_is_object(data) == Some(true)
}

/// What follows from the JSON parse of a non-empty credential file at
/// `path`: `parsed` is the parser's verdict, either the text of its error or
/// whether the top-level value is an object.
pub fn auth_verdict(path: &String, parsed: Result<bool, String>) -> (r: Result<(), AccountsError>)
    ensures
        match parsed {
            Err(cause) => r == Err::<(), AccountsError>(
                AccountsError::AuthInvalidJson { path: *path, cause },
            ),
            Ok(true) => r is Ok,
            Ok(false) => r == Err::<(), AccountsError>(AccountsError::AuthNotObject { path: *path }),
        },
{
    match parsed {
        Err(cause) => Err(AccountsError::AuthInvalidJson { path: path.clone(), cause }),
        Ok(true) => Ok(()),
        Ok(false) => Err(AccountsError::AuthNotObject { path: path.clone() }),
    }
}

/// Checks the bytes read from the credential file at `path`: they must be
/// non-empty and hold one JSON document whose top-level value is an object.
pub fn check_auth_contents(path: &String, data: &[u8]) -> (r: Result<(), AccountsError>)
    ensures
        auth_check_allows(*path, data@, r),
        r is Ok <==> is_auth_document(data@),
{
    if data.len() == 0 {
        return Err(AccountsError::AuthEmpty { path: path.clone() });
    }
    auth_verdict(path, parse_json_document(data))
}

} // verus!
