//! The state file: the running backend's PID and URL, one per line, kept on
//! disk so that a later run of the host can find the backend again.

use vstd::prelude::*;
use crate::decimal::{
    decimal, decimal_text, is_digit, lemma_decimal_digits, lemma_decimal_parses, parse_u32,
    parsed_u32,
};
use crate::text::{
    after_first_line, first_line, is_trim_stable, lemma_newline_pos, lemma_trim_stable,
    split_first_line, trim, trimmed,
};

verus! {

/// The address of the backend when the state file does not give one.
pub open spec fn default_url() -> Seq<char> {
    "http://127.0.0.1:8000"@
}

pub fn default_server_url() -> (r: String)
    ensures
        r@ == default_url(),
{
    String::from_str("http://127.0.0.1:8000")
}

/// What reading the state file gave.
#[derive(Clone, Debug)]
pub enum StateFile {
    /// There is no state file.
    Missing,
    /// The file is there but could not be read as text.
    Unreadable,
    Text(String),
}

/// Why no PID could be had from the state file, or the file could not be removed.
#[derive(Clone, Copy, Debug, PartialEq, Eq, Structural)]
pub enum ReadError {
    NotFound,
    Io,
    Parse,
}

/// What removing the state file reported.
#[derive(Clone, Copy, Debug, PartialEq, Eq, Structural)]
pub enum RemoveOutcome {
    Removed,
    AlreadyAbsent,
    Failed,
}

/// The content of the state file as text, if there is one.
pub open spec fn content_of(f: StateFile) -> Option<Seq<char>> {
    match f {
        StateFile::Text(s) => Some(s@),
        _ => None,
    }
}

/// The file's content for `pid` and `url`: each on a line of its own.
pub open spec fn state_text(pid: u32, url: Seq<char>) -> Seq<char> {
    decimal(pid as nat) + seq!['\n'] + url + seq!['\n']
}

/// The PID that a state file gives.
pub open spec fn pid_in(f: StateFile) -> Result<u32, ReadError> {
    match f {
        StateFile::Missing => Err(ReadError::NotFound),
        StateFile::Unreadable => Err(ReadError::Io),
        StateFile::Text(s) => pid_in_text(s@),
    }
}

/// The PID that the text of a state file gives: its first line, trimmed, as a
/// number.
pub open spec fn pid_in_text(s: Seq<char>) -> Result<u32, ReadError> {
    match parsed_u32(trimmed(first_line(s))) {
        Some(pid) => Ok(pid),
        None => Err(ReadError::Parse),
    }
}

/// The URL that a state file gives, or the default address when there is no
/// readable file.
pub open spec fn url_in(f: StateFile) -> Seq<char> {
    match f {
        StateFile::Text(s) => url_in_text(s@),
        _ => default_url(),
    }
}

/// The URL that the text of a state file gives: its second line, trimmed, or
/// the default address when that is empty.
pub open spec fn url_in_text(s: Seq<char>) -> Seq<char> {
    let u = trimmed(first_line(after_first_line(s)));
    if u.len() > 0 {
        u
    } else {
        default_url()
    }
}

/// The result of a deletion: success unless the removal itself failed, so that
/// a file already gone counts as removed.
pub open spec fn deletion_result(o: RemoveOutcome) -> Result<(), ReadError> {
    match o {
        RemoveOutcome::Failed => Err(ReadError::Io),
        _ => Ok(()),
    }
}

/// The text to write, replacing the whole file, for `pid` and `url`.
pub fn encode_state(pid: u32, url: &str) -> (r: String)
    ensures
        r@ == state_text(pid, url@),
{
    let mut r = decimal_text(pid as u64);
    proof {
        reveal_strlit("\n");
    }
    r.append("\n");
    r.append(url);
    r.append("\n");
    assert(r@ =~= state_text(pid, url@));
    r
}

/// The PID recorded in the state file.
pub fn read_pid(f: &StateFile) -> (r: Result<u32, ReadError>)
    ensures
        r == pid_in(*f),
{
    match f {
        StateFile::Missing => Err(ReadError::NotFound),
        StateFile::Unreadable => Err(ReadError::Io),
        StateFile::Text(s) => {
            let (line, _) = split_first_line(s.as_str());
            match parse_u32(trim(line)) {
                Some(pid) => Ok(pid),
                None => Err(ReadError::Parse),
            }
        },
    }
}

/// The backend's URL from the state file; never fails.
pub fn read_url(f: &StateFile) -> (r: String)
    ensures
        r@ == url_in(*f),
{
    match f {
        StateFile::Text(s) => {
            let (_, rest) = split_first_line(s.as_str());
            let (line, _) = split_first_line(rest);
            let u = trim(line);
            if u.unicode_len() > 0 {
                String::from_str(u)
            } else {
                default_server_url()
            }
        },
        _ => default_server_url(),
    }
}

/// Settles a removal of the state file: a file that was already gone is no error.
pub fn delete_result(o: RemoveOutcome) -> (r: Result<(), ReadError>)
    ensures
        r == deletion_result(o),
{
    match o {
        RemoveOutcome::Failed => Err(ReadError::Io),
        _ => Ok(()),
    }
}

/// A deletion that finds the state file already gone succeeds, so deleting
/// twice in a row never fails for the second time.
pub proof fn lemma_delete_when_absent()
    ensures
        deletion_result(RemoveOutcome::AlreadyAbsent) == Ok::<(), ReadError>(()),
{
}

/// A URL that the state file keeps as it is: not empty, on one line, and
/// without surrounding whitespace.
pub open spec fn is_storable_url(url: Seq<char>) -> bool {
    &&& url.len() > 0
    &&& forall|i: int| 0 <= i < url.len() ==> url[i] != '\n'
    &&& is_trim_stable(url)
}

/// Reading back what a write of `pid` and `url` put in the state file gives
/// that PID and that URL. A write replaces the whole file, so what is read
/// after two writes is what the second one wrote.
pub proof fn lemma_write_then_read(pid: u32, url: Seq<char>)
    requires
        is_storable_url(url),
    ensures
        pid_in_text(state_text(pid, url)) == Ok::<u32, ReadError>(pid),
        url_in_text(state_text(pid, url)) == url,
{
    let d = decimal(pid as nat);
    let s = state_text(pid, url);
    lemma_decimal_digits(pid as nat);
    assert forall|j: int| 0 <= j < d.len() implies s[j] != '\n' by {
        assert(s[j] == d[j]);
        assert(is_digit(d[j]));
    }
    lemma_newline_pos(s, d.len() as int);
    assert(first_line(s) =~= d);
    assert(is_digit(d[0]) && is_digit(d.last()));
    lemma_trim_stable(d);
    lemma_decimal_parses(pid);
    let rest = after_first_line(s);
    assert(rest =~= url + seq!['\n']);
    assert forall|j: int| 0 <= j < url.len() implies rest[j] != '\n' by {
        assert(rest[j] == url[j]);
    }
    lemma_newline_pos(rest, url.len() as int);
    assert(first_line(rest) =~= url);
    lemma_trim_stable(url);
}

} // verus!
