//! The image store: a flat directory `images` below the working directory,
//! addressed by file name alone.
//!
//! Each command is decided here and carried out by the caller: the library
//! says which location to touch, the caller touches it and reports back, and
//! the library says what the command returns.

use vstd::prelude::*;
use vstd::string::*;
use crate::encoding::{can_encode, data_uri, data_uri_text, encodable_len};
use crate::failure::{CommandError, IoFailure, Stage};
use crate::text::texts;
use crate::workdir::StorePath;

verus! {

/// The name of the directory that holds the images.
pub open spec fn images_name() -> Seq<char> {
    "images"@
}

/// A character that parts the components of a path on some platform: the
/// two slashes, and the colon that ends a drive.
pub open spec fn parts_paths(c: char) -> bool {
    c == '/' || c == '\\' || c == ':'
}

/// A name that denotes one entry directly inside a directory on every
/// platform: not empty, not `.` or `..`, and free of `/`, `\` and `:`.
pub open spec fn plain_name(name: Seq<char>) -> bool {
    &&& name.len() > 0
    &&& !(name.len() == 1 && name[0] == '.')
    &&& !(name.len() == 2 && name[0] == '.' && name[1] == '.')
    &&& forall|i: int| 0 <= i < name.len() ==> !parts_paths(#[trigger] name[i])
}

/// Tells whether `name` is a plain name, in one pass over its characters.
pub fn is_plain_name(name: &str) -> (r: bool)
    ensures
        r == plain_name(name@),
{
    broadcast use vstd::string::axiom_spec_iter;

    let mut seen: u8 = 0;
    let mut dots = true;
    let mut clean = true;
    for c in it: name.chars()
        invariant
            it.seq() == name@,
            seen as int == if it.index() < 3 {
                it.index()
            } else {
                3
            },
            dots == (forall|j: int| 0 <= j < it.index() ==> name@[j] == '.'),
            clean == (forall|j: int| 0 <= j < it.index() ==> !parts_paths(#[trigger] name@[j])),
    {
        if seen < 3 {
            seen = seen + 1;
        }
        if c != '.' {
            dots = false;
        }
        if c == '/' || c == '\\' || c == ':' {
            clean = false;
        }
    }
    clean && seen > 0 && !(dots && seen < 3)
}

/// The `images` directory of a working directory.
pub fn images_dir(workdir: StorePath) -> (r: StorePath)
    ensures
        r.is(workdir.root, workdir.names().push(images_name())),
{
    workdir.child("images".to_owned())
}

/// The `images` directory of a working directory that may have failed to
/// resolve: the failure is passed on as it is, before anything is touched.
pub fn images_dir_of(workdir: Result<StorePath, CommandError>) -> (r: Result<
    StorePath,
    CommandError,
>)
    ensures
        match workdir {
            Err(e) => r == Err::<StorePath, CommandError>(e),
            Ok(dir) => r is Ok && r->Ok_0.is(dir.root, dir.names().push(images_name())),
        },
{
    match workdir {
        Err(e) => Err(e),
        Ok(dir) => Ok(images_dir(dir)),
    }
}

/// True when `path` is an entry directly inside the directory `dir`: the
/// same root, the same names and one more, and that one plain.
pub open spec fn entry_of(dir: StorePath, path: StorePath) -> bool {
    &&& path.root == dir.root
    &&& path.names().len() == dir.names().len() + 1
    &&& path.names().drop_last() == dir.names()
    &&& plain_name(path.names().last())
}

/// True when `path` is an image of the store below `workdir`: an entry
/// directly inside the `images` directory of `workdir`.
pub open spec fn image_of(workdir: StorePath, path: StorePath) -> bool {
    &&& path.root == workdir.root
    &&& path.names().len() == workdir.names().len() + 2
    &&& path.names().take(workdir.names().len() as int) == workdir.names()
    &&& path.names()[workdir.names().len() as int] == images_name()
    &&& plain_name(path.names().last())
}

/// Where the image called `filename` lives: directly inside the `images`
/// directory of the working directory. A failure to resolve the working
/// directory is passed on; a name that is not plain is refused, so that no
/// location outside `images` is ever handed out.
pub fn image_path(workdir: Result<StorePath, CommandError>, filename: &str) -> (r: Result<
    StorePath,
    CommandError,
>)
    ensures
        match workdir {
            Err(e) => r == Err::<StorePath, CommandError>(e),
            Ok(dir) => if plain_name(filename@) {
                r is Ok && r->Ok_0.is(dir.root, dir.names().push(images_name()).push(filename@))
            } else {
                r is Err && r->Err_0.is(Stage::InvalidFilename, false, Seq::empty())
            },
        },
        workdir is Ok && r is Ok ==> image_of(workdir->Ok_0, r->Ok_0),
{
    match workdir {
        Err(e) => Err(e),
        Ok(dir) => if is_plain_name(filename) {
            let path = images_dir(dir).child(filename.to_owned());
            proof {
                let names = dir.names().push(images_name()).push(filename@);
                assert(names.take(dir.names().len() as int) =~= dir.names());
            }
            Ok(path)
        } else {
            Err(CommandError::bare(Stage::InvalidFilename))
        },
    }
}

/// The last component of the path written in `path`, as `Path::file_name`
/// finds it on the platform this library is built for, or nothing where the
/// path ends in `..` or has no component at all.
pub uninterp spec fn file_name_text(path: Seq<char>) -> Option<Seq<char>>;

/// Calls `Path::file_name` on the path written in `source_path`, and copies
/// the name, if there is one, into a string. Assumed, not proved: the answer
/// depends on the text of the path alone, and is the one that
/// `file_name_text` names.
#[verifier::external_body]
pub(crate) fn file_name_of(source_path: &str) -> (r: Option<String>)
    ensures
        r is Some <==> file_name_text(source_path@) is Some,
        r is Some ==> r->Some_0@ == file_name_text(source_path@)->Some_0,
{
    std::path::Path::new(source_path).file_name().map(|name| name.to_string_lossy().to_string())
}

/// Where a saved image goes, and under which name.
#[derive(Debug, PartialEq, Eq)]
pub struct SaveTarget {
    pub filename: String,
    pub path: StorePath,
}

/// Decides where to copy a source file, given the `images` directory, how
/// creating that directory went, and the file name that the platform found
/// in the source path. A failed creation comes first; then a source path
/// without a file name, or with one that is not plain, is invalid; otherwise
/// the target is that name directly inside `images`.
pub fn save_target_named(
    images: StorePath,
    created: Result<(), IoFailure>,
    candidate: Option<String>,
) -> (r: Result<SaveTarget, CommandError>)
    ensures
        match created {
            Err(failure) => r is Err && r->Err_0.is(
                Stage::CreateDirectory,
                failure.not_found,
                failure.text@,
            ),
            Ok(_) => if candidate is Some && plain_name(candidate->Some_0@) {
                &&& r is Ok
                &&& r->Ok_0.filename@ == candidate->Some_0@
                &&& r->Ok_0.path.is(images.root, images.names().push(candidate->Some_0@))
            } else {
                r is Err && r->Err_0.is(Stage::InvalidFilename, false, Seq::empty())
            },
        },
        r is Ok ==> entry_of(images, r->Ok_0.path),
{
    match created {
        Err(failure) => Err(CommandError::from_io(Stage::CreateDirectory, failure)),
        Ok(_) => match candidate {
            None => Err(CommandError::bare(Stage::InvalidFilename)),
            Some(name) => if is_plain_name(name.as_str()) {
                let path = images.child(name.clone());
                proof {
                    assert(images.names().push(name@).drop_last() =~= images.names());
                }
                Ok(SaveTarget { filename: name, path })
            } else {
                Err(CommandError::bare(Stage::InvalidFilename))
            },
        },
    }
}

/// Decides where to copy the file at `source_path`: under its own file name,
/// directly inside `images`. A failed creation of the directory comes first;
/// then a source path without a file name, or with one that is not plain, is
/// invalid.
pub fn save_target(images: StorePath, created: Result<(), IoFailure>, source_path: &str) -> (r:
    Result<SaveTarget, CommandError>)
    ensures
        match created {
            Err(failure) => r is Err && r->Err_0.is(
                Stage::CreateDirectory,
                failure.not_found,
                failure.text@,
            ),
            Ok(_) => if file_name_text(source_path@) is Some && plain_name(
                file_name_text(source_path@)->Some_0,
            ) {
                &&& r is Ok
                &&& r->Ok_0.filename@ == file_name_text(source_path@)->Some_0
                &&& r->Ok_0.path.is(
                    images.root,
                    images.names().push(file_name_text(source_path@)->Some_0),
                )
            } else {
                r is Err && r->Err_0.is(Stage::InvalidFilename, false, Seq::empty())
            },
        },
        r is Ok ==> entry_of(images, r->Ok_0.path),
{
    let candidate = file_name_of(source_path);
    save_target_named(images, created, candidate)
}

/// The result of saving an image, given the name it was stored under and how
/// the copy went: the stored name, or a copy failure.
pub fn save_image(filename: String, copied: Result<(), IoFailure>) -> (r: Result<
    String,
    CommandError,
>)
    ensures
        match copied {
            Ok(_) => r == Ok::<String, CommandError>(filename),
            Err(failure) => r is Err && r->Err_0.is(Stage::Copy, failure.not_found, failure.text@),
        },
{
    match copied {
        Ok(_) => Ok(filename),
        Err(failure) => Err(CommandError::from_io(Stage::Copy, failure)),
    }
}

/// The result of reading an image, given what reading its file gave: the
/// data URI of the bytes, or a read failure that keeps the not-found flag.
pub fn read_image(content: Result<Vec<u8>, IoFailure>) -> (r: Result<String, CommandError>)
    requires
        content is Ok ==> encodable_len(content->Ok_0@.len()),
    ensures
        match content {
            Ok(bytes) => r is Ok && r->Ok_0@ == data_uri_text(bytes@),
            Err(failure) => r is Err && r->Err_0.is(Stage::Read, failure.not_found, failure.text@),
        },
{
    match content {
        Ok(bytes) => Ok(data_uri(bytes.as_slice())),
        Err(failure) => Err(CommandError::from_io(Stage::Read, failure)),
    }
}

/// As `read_image`, for content of any length: gives nothing where the file
/// was read but holds more bytes than a data URI can be built for.
pub fn read_image_checked(content: Result<Vec<u8>, IoFailure>) -> (r: Option<
    Result<String, CommandError>,
>)
    ensures
        match content {
            Ok(bytes) => if encodable_len(bytes@.len()) {
                r is Some && r->Some_0 is Ok && r->Some_0->Ok_0@ == data_uri_text(bytes@)
            } else {
                r is None
            },
            Err(failure) => r is Some && r->Some_0 is Err && r->Some_0->Err_0.is(
                Stage::Read,
                failure.not_found,
                failure.text@,
            ),
        },
{
    let fits = match &content {
        Ok(bytes) => can_encode(bytes.len()),
        Err(_) => true,
    };
    if fits {
        Some(read_image(content))
    } else {
        None
    }
}

/// The result of deleting an image, given how removing its file went. A
/// removal that failed is never reported as done: an absent file gives a
/// delete failure with the not-found flag set.
pub fn delete_image(removed: Result<(), IoFailure>) -> (r: Result<(), CommandError>)
    ensures
        match removed {
            Ok(_) => r is Ok,
            Err(failure) => r is Err && r->Err_0.is(
                Stage::Delete,
                failure.not_found,
                failure.text@,
            ),
        },
{
    match removed {
        Ok(_) => Ok(()),
        Err(failure) => Err(CommandError::from_io(Stage::Delete, failure)),
    }
}

/// The size of an image in bytes, given what its metadata said.
pub fn get_image_size(length: Result<u64, IoFailure>) -> (r: Result<u64, CommandError>)
    ensures
        match length {
            Ok(bytes) => r == Ok::<u64, CommandError>(bytes),
            Err(failure) => r is Err && r->Err_0.is(Stage::Stat, failure.not_found, failure.text@),
        },
{
    match length {
        Ok(bytes) => Ok(bytes),
        Err(failure) => Err(CommandError::from_io(Stage::Stat, failure)),
    }
}

/// What enumerating the `images` directory gave.
#[derive(Debug, PartialEq, Eq)]
pub enum Listing {
    /// There is no `images` directory.
    Missing,
    /// The directory exists but could not be enumerated.
    Unreadable(IoFailure),
    /// One item per directory entry, in the order the platform gave them:
    /// the entry's name, or nothing where the entry could not be read or its
    /// name is not text.
    Entries(Vec<Option<String>>),
}

/// The names among `entries`, in order, skipping the entries without one.
pub open spec fn readable_names(entries: Seq<Option<String>>) -> Seq<Seq<char>>
    decreases entries.len(),
{
    if entries.len() == 0 {
        Seq::empty()
    } else {
        let before = readable_names(entries.drop_last());
        match entries.last() {
            Some(name) => before.push(name@),
            None => before,
        }
    }
}

/// The names among `entries`, in order, skipping the entries without one.
pub fn names_of(entries: &Vec<Option<String>>) -> (r: Vec<String>)
    ensures
        texts(r@) == readable_names(entries@),
{
    let mut files: Vec<String> = Vec::new();
    let mut i: usize = 0;
    while i < entries.len()
        invariant
            i <= entries.len(),
            texts(files@) == readable_names(entries@.take(i as int)),
        decreases entries.len() - i,
    {
        proof {
            assert(entries@.take(i + 1).drop_last() =~= entries@.take(i as int));
        }
        match &entries[i] {
            Some(name) => files.push(name.clone()),
            None => {},
        }
        i = i + 1;
    }
    proof {
        assert(entries@.take(i as int) =~= entries@);
    }
    files
}

/// How many elements of `names` are `name`.
pub open spec fn occurrences(names: Seq<Seq<char>>, name: Seq<char>) -> nat
    decreases names.len(),
{
    if names.len() == 0 {
        0
    } else {
        occurrences(names.drop_last(), name) + if names.last() == name {
            1nat
        } else {
            0nat
        }
    }
}

/// How many of `entries` carry the name `name`.
pub open spec fn entries_named(entries: Seq<Option<String>>, name: Seq<char>) -> nat
    decreases entries.len(),
{
    if entries.len() == 0 {
        0
    } else {
        entries_named(entries.drop_last(), name) + if entries.last() is Some
            && entries.last()->Some_0@ == name {
            1nat
        } else {
            0nat
        }
    }
}

/// A listing neither drops nor repeats a name: every name appears in it as
/// often as the directory's entries carry it. A file that is in the
/// directory once, under a readable name, is therefore listed exactly once.
pub proof fn lemma_listing_keeps_each_name(entries: Seq<Option<String>>, name: Seq<char>)
    ensures
        occurrences(readable_names(entries), name) == entries_named(entries, name),
    decreases entries.len(),
{
    if entries.len() > 0 {
        lemma_listing_keeps_each_name(entries.drop_last(), name);
        let before = readable_names(entries.drop_last());
        match entries.last() {
            Some(last) => {
                assert(before.push(last@).drop_last() =~= before);
            },
            None => {},
        }
    }
}

/// The result of listing the images, given what enumerating the directory
/// gave: no directory is an empty list, not a failure; an unreadable
/// directory is a failure; otherwise every entry that has a readable name,
/// in the platform's order, files and directories alike.
pub fn list_images(listing: Listing) -> (r: Result<Vec<String>, CommandError>)
    ensures
        match listing {
            Listing::Missing => r is Ok && r->Ok_0@.len() == 0,
            Listing::Unreadable(failure) => r is Err && r->Err_0.is(
                Stage::ReadDirectory,
                failure.not_found,
                failure.text@,
            ),
            Listing::Entries(entries) => r is Ok && texts(r->Ok_0@) == readable_names(entries@),
        },
{
    match listing {
        Listing::Missing => Ok(Vec::new()),
        Listing::Unreadable(failure) => Err(CommandError::from_io(Stage::ReadDirectory, failure)),
        Listing::Entries(entries) => Ok(names_of(&entries)),
    }
}

} // verus!
