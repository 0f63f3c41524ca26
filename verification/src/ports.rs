//! Value objects exchanged with the service adapters.
use vstd::prelude::*;

verus! {

/// A spreadsheet's identity.
#[derive(Debug, PartialEq, Eq)]
pub struct SheetFile {
    pub id: String,
    pub title: String,
}

/// A document and, where fetched, its contents.
#[derive(Debug, PartialEq, Eq)]
pub struct DocFile {
    pub id: String,
    pub contents: Option<String>,
}

/// A photo album.
#[derive(Debug, PartialEq, Eq)]
pub struct PhotoAlbum {
    pub id: String,
    pub title: String,
}

/// A photo library item.
#[derive(Debug, PartialEq, Eq)]
pub struct PhotoMediaItem {
    pub id: String,
    pub mime_type: Option<String>,
    pub base_url: Option<String>,
}

/// A NotebookLM notebook as listed.
#[derive(Debug, PartialEq, Eq)]
pub struct NotebookLmEntry {
    pub id: String,
    pub title: String,
    pub created_at: Option<String>,
}

} // verus!
