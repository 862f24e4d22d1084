//! Backend logic of a desktop publishing shell: the requests it sends to a
//! remote publishing service, the image files it keeps under a storage root,
//! the configuration pass-through, and the reactions of its tray and window.
//!
//! Nothing here touches the network or the disk. Every command is split into
//! the decision (which request, which path, which error) and the effect; the
//! decisions live here with their contracts, the effects are carried out by
//! the caller, who reports what happened as plain values.

pub mod failure;
pub mod text;
pub mod json;
pub mod config;
pub mod client;
pub mod workdir;
pub mod encoding;
pub mod images;
pub mod shell;
