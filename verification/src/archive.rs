//! Reading members out of the active archive.
//!
//! An archive is a standard compressed container handed over as its raw
//! bytes. The zip crate does the parsing and the inflating; this module
//! states what those calls return and proves the lookup logic around them.
//!
//! The model of an archive is `zip_entries`: the names the container's
//! central directory lists, each mapped to the inflated bytes of its entry,
//! or to `None` where the entry's data cannot be inflated. An archive whose
//! container cannot be read at all has no such map.

use vstd::prelude::*;
use vstd::utf8::{decode_utf8, valid_utf8};

verus! {

/// How a member read can fail: the container is missing or corrupt, or the
/// named entry is absent. Callers that only show content collapse both to
/// an empty result.
#[derive(Clone, Copy, Debug, PartialEq, Eq, Structural)]
pub enum ArchiveError {
    Unreadable,
    MemberNotFound,
}

/// An in-memory reader over archive bytes.
#[verifier::external_type_specification]
#[verifier::external_body]
#[verifier::reject_recursive_types(T)]
pub struct ExCursor<T>(std::io::Cursor<T>);

/// An opened archive of the zip crate.
#[verifier::external_type_specification]
#[verifier::external_body]
#[verifier::reject_recursive_types(R)]
pub struct ExZipArchive<R>(zip::ZipArchive<R>);

/// What the container's bytes hold: `None` when the container itself cannot
/// be parsed; otherwise each listed member name, mapped to its inflated
/// bytes, or to `None` where the entry's data cannot be inflated.
pub uninterp spec fn zip_entries(archive: Seq<u8>) -> Option<Map<Seq<char>, Option<Seq<u8>>>>;

/// What an opened archive holds, in the same shape as `zip_entries`.
pub uninterp spec fn zip_contents(
    a: zip::ZipArchive<std::io::Cursor<Vec<u8>>>,
) -> Map<Seq<char>, Option<Seq<u8>>>;

/// Relies on zip::ZipArchive::new, which parses the container's central
/// directory from the bytes alone and fails exactly on a container it
/// cannot read.
#[verifier::external_body]
fn zip_open(bytes: Vec<u8>) -> (r: Result<
    zip::ZipArchive<std::io::Cursor<Vec<u8>>>,
    ArchiveError,
>)
    ensures
        r matches Ok(a) ==> zip_entries(bytes@) matches Some(m) && zip_contents(a) == m,
        r matches Err(e) ==> zip_entries(bytes@) is None && e is Unreadable,
{
    match zip::ZipArchive::new(std::io::Cursor::new(bytes)) {
        Ok(a) => Ok(a),
        Err(_) => Err(ArchiveError::Unreadable),
    }
}

/// Relies on zip::ZipArchive::by_name, which finds an entry in the central
/// directory and reports FileNotFound exactly when the name is absent, and
/// on std::io::Read::read_to_end to inflate the entry found.
#[verifier::external_body]
fn zip_read_entry(a: &mut zip::ZipArchive<std::io::Cursor<Vec<u8>>>, name: &str) -> (r: Result<
    Vec<u8>,
    ArchiveError,
>)
    ensures
        zip_contents(*final(a)) == zip_contents(*old(a)),
        r matches Ok(v) ==> zip_contents(*old(a)).dom().contains(name@) && (zip_contents(
            *old(a),
        )[name@] matches Some(b) && v@ == b),
        r matches Err(e) ==> (e is MemberNotFound <==> !zip_contents(*old(a)).dom().contains(
            name@,
        )),
        r is Err ==> !(zip_contents(*old(a)).dom().contains(name@) && zip_contents(
            *old(a),
        )[name@] is Some),
{
    match a.by_name(name) {
        Ok(mut f) => {
            let mut v = Vec::new();
            match std::io::Read::read_to_end(&mut f, &mut v) {
                Ok(_) => Ok(v),
                Err(_) => Err(ArchiveError::Unreadable),
            }
        },
        Err(zip::result::ZipError::FileNotFound) => Err(ArchiveError::MemberNotFound),
        Err(_) => Err(ArchiveError::Unreadable),
    }
}

/// What reading `name` out of a container with bytes `archive` yields.
pub open spec fn member_lookup(archive: Seq<u8>, name: Seq<char>) -> Result<
    Seq<u8>,
    ArchiveError,
> {
    match zip_entries(archive) {
        None => Err(ArchiveError::Unreadable),
        Some(m) => if !m.dom().contains(name) {
            Err(ArchiveError::MemberNotFound)
        } else {
            match m[name] {
                Some(b) => Ok(b),
                None => Err(ArchiveError::Unreadable),
            }
        },
    }
}

/// Reads the member called `name` out of the archive bytes: exactly the
/// member's stored bytes on success, and a distinct report of an unreadable
/// container and of an absent name otherwise.
pub fn read_member(archive_bytes: Vec<u8>, name: &str) -> (r: Result<Vec<u8>, ArchiveError>)
    ensures
        member_lookup(archive_bytes@, name@) matches Ok(b) ==> r matches Ok(v) && v@ == b,
        member_lookup(archive_bytes@, name@) matches Err(e) ==> r matches Err(e2) && e2 == e,
{
    let ghost bytes = archive_bytes@;
    match zip_open(archive_bytes) {
        Err(e) => Err(e),
        Ok(mut a) => zip_read_entry(&mut a, name),
    }
}

/// The text a member shows: its bytes decoded as UTF-8, with every failure
/// (no archive handed over, unreadable container, absent member, bytes that
/// are not UTF-8) collapsed to the empty string, since in each of those
/// cases there is simply nothing to show.
pub open spec fn member_text_spec(archive: Option<Seq<u8>>, name: Seq<char>) -> Seq<char> {
    match archive {
        None => Seq::<char>::empty(),
        Some(bytes) => match member_lookup(bytes, name) {
            Ok(b) => if valid_utf8(b) {
                decode_utf8(b)
            } else {
                Seq::<char>::empty()
            },
            Err(_) => Seq::<char>::empty(),
        },
    }
}

/// Reads a member as text, collapsing all failures to the empty string.
/// `archive_bytes` is `None` when no archive is selected or its file could
/// not be read.
pub fn member_text(archive_bytes: Option<Vec<u8>>, name: &str) -> (r: String)
    ensures
        r@ == member_text_spec(
            match archive_bytes {
                Some(v) => Some(v@),
                None => None,
            },
            name@,
        ),
{
    match archive_bytes {
        None => String::new(),
        Some(bytes) => match read_member(bytes, name) {
            Ok(v) => match crate::codec::string_from_utf8(v) {
                Some(s) => s,
                None => String::new(),
            },
            Err(_) => String::new(),
        },
    }
}

/// The fixed name of the session-log member.
pub fn log_member_name() -> (s: &'static str)
    ensures
        s@ == "output.suslog"@,
{
    "output.suslog"
}

/// The session log's text, or the empty string when there is none to show.
pub fn read_log_file(archive_bytes: Option<Vec<u8>>) -> (r: String)
    ensures
        r@ == member_text_spec(
            match archive_bytes {
                Some(v) => Some(v@),
                None => None,
            },
            "output.suslog"@,
        ),
{
    member_text(archive_bytes, log_member_name())
}

} // verus!
