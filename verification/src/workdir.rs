//! Paths under the storage root, and how the root is resolved.
//!
//! A location is a root directory, carried as the platform gave it, and the
//! names to descend through from there. The library decides which names; the
//! caller joins them onto the root when it touches the disk.

use vstd::prelude::*;
use std::path::PathBuf;
use crate::failure::{CommandError, Stage};
use crate::text::texts;

verus! {

/// `std::path::PathBuf`. The library never looks inside one: it receives
/// directories from the platform and hands them back as roots.
#[verifier::external_type_specification]
#[verifier::external_body]
pub struct ExPathBuf(PathBuf);

/// The parent of `dir` as `Path::parent` finds it on the platform this
/// library is built for, or nothing where `dir` is a root or is empty.
pub uninterp spec fn parent_path(dir: PathBuf) -> Option<PathBuf>;

/// Calls `Path::parent` on `dir` and copies the parent, if there is one, into
/// a path of its own. Assumed, not proved: the answer depends on `dir` alone,
/// and is the one that `parent_path` names.
#[verifier::external_body]
pub(crate) fn parent_of(dir: &PathBuf) -> (r: Option<PathBuf>)
    ensures
        r == parent_path(*dir),
{
    dir.parent().map(|parent| parent.to_path_buf())
}

/// A location: `root`, then one directory entry per element of `segments`.
#[derive(Debug, PartialEq, Eq)]
pub struct StorePath {
    pub root: PathBuf,
    pub segments: Vec<String>,
}

impl StorePath {
    /// The names to descend through below the root.
    pub open spec fn names(self) -> Seq<Seq<char>> {
        texts(self.segments@)
    }

    /// True when this is the location `names` below `root`.
    pub open spec fn is(self, root: PathBuf, names: Seq<Seq<char>>) -> bool {
        self.root == root && self.names() == names
    }

    /// The location of `root` itself.
    pub fn at(root: PathBuf) -> (p: StorePath)
        ensures
            p.is(root, Seq::empty()),
    {
        let p = StorePath { root, segments: Vec::new() };
        assert(p.names() =~= Seq::<Seq<char>>::empty());
        p
    }

    /// The entry `name` directly below this location.
    pub fn child(self, name: String) -> (p: StorePath)
        ensures
            p.is(self.root, self.names().push(name@)),
    {
        let ghost before = self.names();
        let StorePath { root, mut segments } = self;
        segments.push(name);
        let p = StorePath { root, segments };
        assert(p.names() =~= before.push(name@));
        p
    }
}

/// The name of the directory below the canonical resource directory that
/// holds the application's files in a packaged build.
pub open spec fn bundle_dir() -> Seq<char> {
    "_up_"@
}

/// What the platform reported when asked where the application runs.
#[derive(Debug, PartialEq, Eq)]
pub enum WorkdirProbe {
    /// A development build: the process's current directory, if it has one.
    Development { current_dir: Option<PathBuf> },
    /// A packaged build: the bundled resource directory, or why it is not
    /// known; and its canonical form, if the platform could give one.
    Production { resource_dir: Result<PathBuf, String>, canonical: Option<PathBuf> },
}

/// The working directory of a development build, given the parent of the
/// current directory: that parent, or a failure where there is none.
pub fn development_workdir(parent: Option<PathBuf>) -> (r: Result<StorePath, CommandError>)
    ensures
        match parent {
            Some(dir) => r is Ok && r->Ok_0.is(dir, Seq::empty()),
            None => r is Err && r->Err_0.is(Stage::CurrentDirectory, false, Seq::empty()),
        },
{
    match parent {
        Some(dir) => Ok(StorePath::at(dir)),
        None => Err(CommandError::bare(Stage::CurrentDirectory)),
    }
}

/// The working directory of a packaged build: the bundle directory below the
/// canonical resource directory, or below the resource directory as reported
/// where no canonical form is known; a failure where the resource directory
/// itself is unknown.
pub fn production_workdir(resource_dir: Result<PathBuf, String>, canonical: Option<PathBuf>) -> (r:
    Result<StorePath, CommandError>)
    ensures
        match resource_dir {
            Ok(dir) => r is Ok && r->Ok_0.is(
                match canonical {
                    Some(plain) => plain,
                    None => dir,
                },
                seq![bundle_dir()],
            ),
            Err(cause) => r is Err && r->Err_0.is(Stage::ResourceDirectory, false, cause@),
        },
{
    match resource_dir {
        Ok(dir) => {
            let root = match canonical {
                Some(plain) => plain,
                None => dir,
            };
            Ok(StorePath::at(root).child("_up_".to_owned()))
        },
        Err(cause) => Err(CommandError::with_detail(Stage::ResourceDirectory, cause)),
    }
}

/// Resolves the working directory from what the platform reported. A
/// packaged build resolves as `production_workdir` says. A development build
/// resolves to the parent of the current directory, and fails exactly where
/// the current directory is unknown or has no parent.
pub fn resolve_workdir(probe: WorkdirProbe) -> (r: Result<StorePath, CommandError>)
    ensures
        match probe {
            WorkdirProbe::Development { current_dir } => if current_dir is Some && parent_path(
                current_dir->Some_0,
            ) is Some {
                r is Ok && r->Ok_0.is(parent_path(current_dir->Some_0)->Some_0, Seq::empty())
            } else {
                r is Err && r->Err_0.is(Stage::CurrentDirectory, false, Seq::empty())
            },
            WorkdirProbe::Production { resource_dir, canonical } => match resource_dir {
                Ok(dir) => r is Ok && r->Ok_0.is(
                    match canonical {
                        Some(plain) => plain,
                        None => dir,
                    },
                    seq![bundle_dir()],
                ),
                Err(cause) => r is Err && r->Err_0.is(Stage::ResourceDirectory, false, cause@),
            },
        },
{
    match probe {
        WorkdirProbe::Development { current_dir } => {
            let parent = match current_dir {
                Some(dir) => parent_of(&dir),
                None => None,
            };
            development_workdir(parent)
        },
        WorkdirProbe::Production { resource_dir, canonical } => production_workdir(
            resource_dir,
            canonical,
        ),
    }
}

} // verus!
