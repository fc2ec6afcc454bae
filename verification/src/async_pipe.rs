//! Names for the local socket or pipe over which processes on this machine
//! talk to the agent, and the rule for a pipe that is busy.

use vstd::prelude::*;
use vstd::string::*;
use crate::command::CodeError;
use crate::outside::new_uuid_text;

verus! {

/// System error that says that every instance of a pipe is busy.
pub const ERROR_PIPE_BUSY: i32 = 231;

/// How long to wait before a busy pipe is tried again, in milliseconds.
pub const PIPE_RETRY_MILLIS: u64 = 100;

/// Where named pipes live.
pub const PIPE_PREFIX: &'static str = "\\\\.\\pipe\\";

/// A digit of a lower-case hexadecimal numeral.
pub open spec fn is_lower_hex(c: char) -> bool {
    ('0' <= c && c <= '9') || ('a' <= c && c <= 'f')
}

/// The text form of an identifier: thirty-two lower-case hexadecimal
/// digits in groups of eight, four, four, four and twelve, with a dash
/// between the groups.
pub open spec fn is_uuid_text(s: Seq<char>) -> bool {
    &&& s.len() == 36
    &&& forall|i: int|
        0 <= i < 36 ==> if i == 8 || i == 13 || i == 18 || i == 23 {
            #[trigger] s[i] == '-'
        } else {
            is_lower_hex(s[i])
        }
}

/// The name of a socket of application `app` with identifier `id`.
pub open spec fn socket_name(app: Seq<char>, id: Seq<char>) -> Seq<char> {
    app + "-"@ + id
}

/// Builds the name of a socket from the application's name and an
/// identifier.
pub fn socket_name_with(app: &str, id: &str) -> (r: String)
    ensures
        r@ == socket_name(app@, id@),
{
    let mut out = String::from_str(app);
    out.append("-");
    out.append(id);
    out
}

/// A name for a new socket or pipe of application `app`: the application's
/// name, a dash, and a random identifier. On systems with socket files the
/// name is that of a file in the directory for temporary files; elsewhere
/// `pipe_path` makes a pipe's path of it.
pub fn get_socket_name(app: &str) -> (r: String)
    ensures
        exists|id: Seq<char>| is_uuid_text(id) && r@ == socket_name(app@, id),
{
    let id = new_uuid_text();
    socket_name_with(app, id.as_str())
}

/// The path of the named pipe called `name`.
pub fn pipe_path(name: &str) -> (r: String)
    ensures
        r@ == PIPE_PREFIX@ + name@,
{
    let mut out = String::from_str(PIPE_PREFIX);
    out.append(name);
    out
}

/// Decides what to do when opening a pipe failed with system error
/// `raw_os_error` and the message `cause`. A busy pipe is tried again after
/// a short wait, however often it is busy: the result is the wait in
/// milliseconds. Any other failure is final.
pub fn pipe_open_failed(raw_os_error: Option<i32>, cause: String) -> (r: Result<u64, CodeError>)
    ensures
        r == if raw_os_error == Some(ERROR_PIPE_BUSY) {
            Ok::<u64, CodeError>(PIPE_RETRY_MILLIS)
        } else {
            Err::<u64, CodeError>(CodeError::AsyncPipeFailed(cause))
        },
{
    match raw_os_error {
        Some(code) => if code == ERROR_PIPE_BUSY {
            Ok(PIPE_RETRY_MILLIS)
        } else {
            Err(CodeError::AsyncPipeFailed(cause))
        },
        None => Err(CodeError::AsyncPipeFailed(cause)),
    }
}

} // verus!
