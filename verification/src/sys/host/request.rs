//! Evaluation requests: a script in a file of its own, named by the request's cookie, next to
//! which the host leaves its reply.

use crate::text::{decimal, decimal_is_digits, decimal_reads_back, decimal_text, joined};
use vstd::prelude::*;

verus! {

/// The directory in which the host looks for requests.
pub const PRIMARY_DIRECTORY: &'static str = "/dev/host/eval";

/// The directory for requests where the primary one cannot be used.
pub const FALLBACK_DIRECTORY: &'static str = "./dev/host/eval";

/// The directory for requests, given whether the primary one can be used.
pub open spec fn request_directory(primary: bool) -> Seq<char> {
    if primary {
        PRIMARY_DIRECTORY@
    } else {
        FALLBACK_DIRECTORY@
    }
}

/// The name of the file that holds the script of request `cookie`.
pub open spec fn request_file(cookie: u32) -> Seq<char> {
    decimal(cookie as nat) + ".js"@
}

/// The name of the file in which the host leaves its reply to request `cookie`.
pub open spec fn reply_file(cookie: u32) -> Seq<char> {
    decimal(cookie as nat) + ".json"@
}

/// A request that is to be written out.
#[derive(Debug)]
pub struct EvalRequest {
    /// The directory that the file goes to.
    pub directory: &'static str,
    /// Whether that directory is to be created first, as far as that is possible.
    pub create_directory: bool,
    /// The file's name.
    pub file: String,
    /// The file's contents.
    pub script: String,
}

impl EvalRequest {
    /// Whether this asks, under `cookie`, for the evaluation of `script`.
    pub open spec fn asks(self, primary: bool, cookie: u32, script: Seq<char>) -> bool {
        &&& self.directory@ == request_directory(primary)
        &&& self.file@ == request_file(cookie)
        &&& self.script@ == script
    }
}

/// Where a reply is looked for.
#[derive(Debug)]
pub struct ReplyLocation {
    /// The directory.
    pub directory: &'static str,
    /// The name of the file in it.
    pub file: String,
}

/// Picks the directory for requests.
pub fn pick_directory(primary: bool) -> (directory: &'static str)
    ensures
        directory@ == request_directory(primary),
{
    if primary {
        PRIMARY_DIRECTORY
    } else {
        FALLBACK_DIRECTORY
    }
}

/// The name of the file that holds the script of request `cookie`.
pub fn request_file_name(cookie: u32) -> (name: String)
    ensures
        name@ == request_file(cookie),
{
    joined(decimal_text(cookie).as_str(), ".js")
}

/// The name of the file in which the host leaves its reply to request `cookie`.
pub fn reply_file_name(cookie: u32) -> (name: String)
    ensures
        name@ == reply_file(cookie),
{
    joined(decimal_text(cookie).as_str(), ".json")
}

/// Requests under different cookies share no file: neither their scripts, nor their replies,
/// nor the script of one and the reply to the other.
pub proof fn files_tell_cookies_apart(a: u32, b: u32)
    ensures
        a != b ==> request_file(a) != request_file(b),
        a != b ==> reply_file(a) != reply_file(b),
        request_file(a) != reply_file(b),
{
    reveal_strlit(".js");
    reveal_strlit(".json");
    decimal_is_digits(a as nat);
    decimal_is_digits(b as nat);
    decimal_reads_back(a as nat);
    decimal_reads_back(b as nat);
    let da = decimal(a as nat);
    let db = decimal(b as nat);
    assert(".js"@.len() == 3 && ".json"@.len() == 5);
    if request_file(a) == request_file(b) {
        assert(request_file(a).len() == da.len() + 3 && request_file(b).len() == db.len() + 3);
        assert(request_file(a).take(da.len() as int) =~= da);
        assert(request_file(b).take(db.len() as int) =~= db);
        assert(da == db);
    }
    if reply_file(a) == reply_file(b) {
        assert(reply_file(a).len() == da.len() + 5 && reply_file(b).len() == db.len() + 5);
        assert(reply_file(a).take(da.len() as int) =~= da);
        assert(reply_file(b).take(db.len() as int) =~= db);
        assert(da == db);
    }
    assert(request_file(a).last() == 's');
    assert(reply_file(b).last() == 'n');
}

} // verus!
