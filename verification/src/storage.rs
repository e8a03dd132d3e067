//! Where the tool keeps its data, and the decisions made before data is removed or copied.
//! The file system work itself is done by the caller.
use vstd::prelude::*;

use crate::remote::repo::{join_path, spec_join_path};
use crate::text::push_str;

verus! {

/// Why stored data could not be handled.
#[derive(Debug)]
pub enum Error {
    /// The file system reported an error; its message is kept.
    Io(String),
    /// The destination already exists; `name` is the data being stored.
    DataExists { kind: String, name: String },
    /// The data to remove does not exist.
    DataNotFound { kind: String, name: String },
    /// A blocking task could not be joined; its message is kept.
    TokioBlocking(String),
}

/// `{kind} "{name}": {kind} already exists`.
pub open spec fn exists_text(kind: Seq<char>, name: Seq<char>) -> Seq<char> {
    kind + " \""@ + name + "\": "@ + kind + " already exists"@
}

/// `{kind} "{name}": {kind} does not exist`.
pub open spec fn not_found_text(kind: Seq<char>, name: Seq<char>) -> Seq<char> {
    kind + " \""@ + name + "\": "@ + kind + " does not exist"@
}

/// The text of an error.
pub open spec fn error_text(e: Error) -> Seq<char> {
    match e {
        Error::Io(m) => m@,
        Error::DataExists { kind, name } => exists_text(kind@, name@),
        Error::DataNotFound { kind, name } => not_found_text(kind@, name@),
        Error::TokioBlocking(m) => m@,
    }
}

/// `{kind} "{name}": {kind} {tail}`.
fn kind_name_text(kind: &str, name: &str, tail: &str) -> (r: String)
    ensures
        r@ == kind@ + " \""@ + name@ + "\": "@ + kind@ + tail@,
{
    let mut r = kind.to_owned();
    push_str(&mut r, " \"");
    push_str(&mut r, name);
    push_str(&mut r, "\": ");
    push_str(&mut r, kind);
    push_str(&mut r, tail);
    r
}

impl Error {
    /// The error's text.
    pub fn message(&self) -> (r: String)
        ensures
            r@ == error_text(*self),
    {
        match self {
            Error::Io(m) => m.clone(),
            Error::DataExists { kind, name } => kind_name_text(
                kind.as_str(),
                name.as_str(),
                " already exists",
            ),
            Error::DataNotFound { kind, name } => kind_name_text(
                kind.as_str(),
                name.as_str(),
                " does not exist",
            ),
            Error::TokioBlocking(m) => m.clone(),
        }
    }
}

/// How existing data is removed.
#[derive(Debug, Clone, Copy, PartialEq, Eq, Structural)]
pub enum Removal {
    /// A directory, with everything in it.
    Directory,
    /// A single file.
    File,
}

/// Removing `path`: data that does not exist is an error naming it; a directory is removed
/// with its contents, anything else as a file.
pub fn plan_removal(kind: &str, path: &str, exists: bool, is_dir: bool) -> (r: Result<
    Removal,
    Error,
>)
    ensures
        !exists ==> (r matches Err(Error::DataNotFound { kind: k, name }) && k@ == kind@
            && name@ == path@),
        exists && is_dir ==> r == Ok::<Removal, Error>(Removal::Directory),
        exists && !is_dir ==> r == Ok::<Removal, Error>(Removal::File),
{
    if !exists {
        return Err(Error::DataNotFound { kind: kind.to_owned(), name: path.to_owned() });
    }
    if is_dir {
        Ok(Removal::Directory)
    } else {
        Ok(Removal::File)
    }
}

/// Copying `src` to a destination: an existing destination is an error naming `src` unless
/// forced.
pub fn check_copy(kind: &str, src: &str, dest_exists: bool, force: bool) -> (r: Result<
    (),
    Error,
>)
    ensures
        !force && dest_exists ==> (r matches Err(Error::DataExists { kind: k, name }) && k@
            == kind@ && name@ == src@),
        force || !dest_exists ==> r is Ok,
{
    if !force && dest_exists {
        return Err(Error::DataExists { kind: kind.to_owned(), name: src.to_owned() });
    }
    Ok(())
}

/// Whether a single file is copied over its destination: when forced, or when there is
/// nothing there yet.
pub fn copies_file(force: bool, dest_exists: bool) -> (r: bool)
    ensures
        r == (force || !dest_exists),
{
    force || !dest_exists
}

/// Where a directory entry named `name` is copied to under `dest`.
pub fn entry_destination(dest: &str, name: &str) -> (r: String)
    ensures
        r@ == spec_join_path(dest@, name@),
{
    join_path(dest, name)
}

/// The directory holding the tool's state: the platform's state directory where it has one,
/// else `state` under the data directory.
pub fn state_dir(platform_state_dir: Option<String>, data_dir: &str) -> (r: String)
    ensures
        r@ == match platform_state_dir {
            Some(d) => d@,
            None => spec_join_path(data_dir@, "state"@),
        },
{
    match platform_state_dir {
        Some(d) => d,
        None => join_path(data_dir, "state"),
    }
}

} // verus!
