//! The errors that commands report. Each one names the stage that failed and
//! carries the text of the underlying cause; the message shown to the user is
//! the stage's fixed prefix followed by that text.

use vstd::prelude::*;
use vstd::string::*;

verus! {

/// The stage of a command at which it gave up.
#[derive(Clone, Copy, Debug, PartialEq, Eq, Hash, Structural)]
pub enum Stage {
    /// The current directory, or its parent, could not be determined.
    CurrentDirectory,
    /// The bundled resource directory could not be determined.
    ResourceDirectory,
    /// The `images` directory could not be created.
    CreateDirectory,
    /// A path or name does not denote a single file inside `images`.
    InvalidFilename,
    /// Copying the source file into the store failed.
    Copy,
    /// Reading an image failed.
    Read,
    /// Removing an image failed.
    Delete,
    /// Querying an image's metadata failed.
    Stat,
    /// Enumerating the `images` directory failed.
    ReadDirectory,
    /// The health check could not reach the service.
    Connection,
    /// The publish request could not reach the service.
    Publication,
    /// The service answered with something that is not JSON.
    Parse,
    /// The configuration text is not well-formed JSON.
    InvalidJson,
}

/// The kind of failure, as callers tell failures apart. Several stages can
/// fail in the same way: both ways of resolving the working directory, both
/// file operations of a save, both requests to the service.
#[derive(Clone, Copy, Debug, PartialEq, Eq, Hash, Structural)]
pub enum ErrorClass {
    DirectoryResolution,
    InvalidFilename,
    Copy,
    Read,
    Delete,
    Stat,
    ReadDirectory,
    Connection,
    Parse,
    InvalidJson,
}

/// The class of a failure at `stage`.
pub open spec fn class_of(stage: Stage) -> ErrorClass {
    match stage {
        Stage::CurrentDirectory => ErrorClass::DirectoryResolution,
        Stage::ResourceDirectory => ErrorClass::DirectoryResolution,
        Stage::CreateDirectory => ErrorClass::Copy,
        Stage::InvalidFilename => ErrorClass::InvalidFilename,
        Stage::Copy => ErrorClass::Copy,
        Stage::Read => ErrorClass::Read,
        Stage::Delete => ErrorClass::Delete,
        Stage::Stat => ErrorClass::Stat,
        Stage::ReadDirectory => ErrorClass::ReadDirectory,
        Stage::Connection => ErrorClass::Connection,
        Stage::Publication => ErrorClass::Connection,
        Stage::Parse => ErrorClass::Parse,
        Stage::InvalidJson => ErrorClass::InvalidJson,
    }
}

/// What the operating system reported about a failed file operation.
#[derive(Clone, Debug, PartialEq, Eq)]
pub struct IoFailure {
    /// True when the failure is that the file or directory does not exist.
    pub not_found: bool,
    /// The system's description of the failure.
    pub text: String,
}

/// A failed command.
#[derive(Clone, Debug, PartialEq, Eq)]
pub struct CommandError {
    pub stage: Stage,
    /// True when the failure is that a file or directory does not exist.
    pub not_found: bool,
    /// The text of the underlying cause; empty where the stage says it all.
    pub detail: String,
}

/// The fixed text that opens the message of a failure at `stage`.
pub open spec fn stage_prefix(stage: Stage) -> Seq<char> {
    match stage {
        Stage::CurrentDirectory => "Failed to get current dir"@,
        Stage::ResourceDirectory => "Failed to get resource_dir: "@,
        Stage::CreateDirectory => "Erreur création dossier images: "@,
        Stage::InvalidFilename => "Nom de fichier invalide"@,
        Stage::Copy => "Erreur copie image: "@,
        Stage::Read => "Erreur lecture image: "@,
        Stage::Delete => "Erreur suppression image: "@,
        Stage::Stat => "Erreur metadata image: "@,
        Stage::ReadDirectory => "Erreur lecture dossier images: "@,
        Stage::Connection => "Erreur connexion API: "@,
        Stage::Publication => "Erreur publication: "@,
        Stage::Parse => "Erreur parsing JSON: "@,
        Stage::InvalidJson => "JSON invalide: "@,
    }
}

/// The text that opens the message of a failure at `stage`.
pub fn prefix(stage: Stage) -> (r: &'static str)
    ensures
        r@ == stage_prefix(stage),
{
    match stage {
        Stage::CurrentDirectory => "Failed to get current dir",
        Stage::ResourceDirectory => "Failed to get resource_dir: ",
        Stage::CreateDirectory => "Erreur création dossier images: ",
        Stage::InvalidFilename => "Nom de fichier invalide",
        Stage::Copy => "Erreur copie image: ",
        Stage::Read => "Erreur lecture image: ",
        Stage::Delete => "Erreur suppression image: ",
        Stage::Stat => "Erreur metadata image: ",
        Stage::ReadDirectory => "Erreur lecture dossier images: ",
        Stage::Connection => "Erreur connexion API: ",
        Stage::Publication => "Erreur publication: ",
        Stage::Parse => "Erreur parsing JSON: ",
        Stage::InvalidJson => "JSON invalide: ",
    }
}

impl CommandError {
    /// True when this error is a failure at `stage` caused by `detail`, with
    /// the given not-found flag.
    pub open spec fn is(self, stage: Stage, not_found: bool, detail: Seq<char>) -> bool {
        &&& self.stage == stage
        &&& self.not_found == not_found
        &&& self.detail@ == detail
    }

    /// The message shown to the user: the stage's prefix, then the cause.
    pub open spec fn spec_message(self) -> Seq<char> {
        stage_prefix(self.stage) + self.detail@
    }

    /// A failure at `stage` with no underlying cause to report.
    pub fn bare(stage: Stage) -> (e: CommandError)
        ensures
            e.is(stage, false, Seq::<char>::empty()),
    {
        CommandError { stage, not_found: false, detail: String::new() }
    }

    /// A failure at `stage` whose cause is described by `detail`.
    pub fn with_detail(stage: Stage, detail: String) -> (e: CommandError)
        ensures
            e.is(stage, false, detail@),
    {
        CommandError { stage, not_found: false, detail }
    }

    /// A failure at `stage` caused by what the operating system reported.
    pub fn from_io(stage: Stage, failure: IoFailure) -> (e: CommandError)
        ensures
            e.is(stage, failure.not_found, failure.text@),
    {
        CommandError { stage, not_found: failure.not_found, detail: failure.text }
    }

    /// The class of this failure.
    pub fn class(&self) -> (r: ErrorClass)
        ensures
            r == class_of(self.stage),
    {
        match self.stage {
            Stage::CurrentDirectory => ErrorClass::DirectoryResolution,
            Stage::ResourceDirectory => ErrorClass::DirectoryResolution,
            Stage::CreateDirectory => ErrorClass::Copy,
            Stage::InvalidFilename => ErrorClass::InvalidFilename,
            Stage::Copy => ErrorClass::Copy,
            Stage::Read => ErrorClass::Read,
            Stage::Delete => ErrorClass::Delete,
            Stage::Stat => ErrorClass::Stat,
            Stage::ReadDirectory => ErrorClass::ReadDirectory,
            Stage::Connection => ErrorClass::Connection,
            Stage::Publication => ErrorClass::Connection,
            Stage::Parse => ErrorClass::Parse,
            Stage::InvalidJson => ErrorClass::InvalidJson,
        }
    }

    /// The message shown to the user.
    pub fn message(&self) -> (r: String)
        ensures
            r@ == self.spec_message(),
    {
        String::from_str(prefix(self.stage)).concat(self.detail.as_str())
    }
}

} // verus!
