use vstd::prelude::*;
use crate::collaborator_errors::DocumentLinkCatalogError;
use crate::document::{DocumentChangeEvent, DocumentChangeEventView};
use crate::text::{opt_sstr_view, opt_str_view, opt_to_string, opt_ref_view, pairs_view, strings_view};

verus! {
#[derive(Debug, Clone, Copy, PartialEq, Eq, Structural)]
pub enum DocumentLinkCatalogChangeOutcome {
    Upserted,
    Removed,
    Ignored,
}

#[derive(Debug, Clone, Copy, PartialEq, Eq, Structural)]
pub enum ApplyDocumentLinkCatalogChangeError {
    InvalidEvent,
    RepositoryUnavailable,
    CorruptedCatalog,
}

impl ApplyDocumentLinkCatalogChangeError {
    pub fn code(self) -> (result: &'static str)
        ensures
            result@ == match self {
                Self::InvalidEvent => "document_catalog.invalid_event"@,
                Self::RepositoryUnavailable => "document_catalog.storage_unavailable"@,
                Self::CorruptedCatalog => "document_catalog.corrupted"@,
            },
    {
        match self {
            Self::InvalidEvent => "document_catalog.invalid_event",
            Self::RepositoryUnavailable => "document_catalog.storage_unavailable",
            Self::CorruptedCatalog => "document_catalog.corrupted",
        }
    }
}

#[derive(Debug, Clone, Copy, PartialEq, Eq, Structural)]
pub struct ApplyDocumentLinkCatalogChangeUsecase;

impl ApplyDocumentLinkCatalogChangeUsecase {
    pub fn new() -> (result: Self)
        ensures
            result == (ApplyDocumentLinkCatalogChangeUsecase),
    {
        ApplyDocumentLinkCatalogChangeUsecase
    }
}

impl Default for ApplyDocumentLinkCatalogChangeUsecase {
    fn default() -> (result: Self)
        ensures
            result == (ApplyDocumentLinkCatalogChangeUsecase),
    {
        Self::new()
    }
}

/// What a document change does to the link catalog: a created or renamed
/// document is written with its title and (new) path, a deleted one is
/// removed, and other changes leave the catalog alone.
pub fn planned_catalog_change(event: &DocumentChangeEvent) -> (result: DocumentLinkCatalogChangeOutcome)
    ensures
        result == match event@ {
            DocumentChangeEventView::DocumentCreated { .. } => DocumentLinkCatalogChangeOutcome::Upserted,
            DocumentChangeEventView::DocumentRenamed { .. } => DocumentLinkCatalogChangeOutcome::Upserted,
            DocumentChangeEventView::DocumentDeleted { .. } => DocumentLinkCatalogChangeOutcome::Removed,
            _ => DocumentLinkCatalogChangeOutcome::Ignored,
        },
{
    match event {
        DocumentChangeEvent::DocumentCreated { .. } => DocumentLinkCatalogChangeOutcome::Upserted,
        DocumentChangeEvent::DocumentRenamed { .. } => DocumentLinkCatalogChangeOutcome::Upserted,
        DocumentChangeEvent::DocumentDeleted { .. } => DocumentLinkCatalogChangeOutcome::Removed,
        _ => DocumentLinkCatalogChangeOutcome::Ignored,
    }
}

/// The catalog entry a change writes: its workspace, document, title and
/// path, for a created document and (with the new path) a renamed one.
pub fn catalog_entry_of(event: &DocumentChangeEvent) -> (result: Option<(&str, &str, &str, &str)>)
    ensures
        match event@ {
            DocumentChangeEventView::DocumentCreated { workspace_id, document_id, title, path, .. } =>
                result is Some && result->Some_0.0@ == workspace_id && result->Some_0.1@ == document_id
                    && result->Some_0.2@ == title && result->Some_0.3@ == path,
            DocumentChangeEventView::DocumentRenamed { workspace_id, document_id, title, new_path, .. } =>
                result is Some && result->Some_0.0@ == workspace_id && result->Some_0.1@ == document_id
                    && result->Some_0.2@ == title && result->Some_0.3@ == new_path,
            _ => result is None,
        },
{
    match event {
        DocumentChangeEvent::DocumentCreated { workspace_id, document_id, title, path, .. } =>
            Some((workspace_id.as_str(), document_id.as_str(), title.as_str(), path.as_str())),
        DocumentChangeEvent::DocumentRenamed { workspace_id, document_id, title, new_path, .. } =>
            Some((workspace_id.as_str(), document_id.as_str(), title.as_str(), new_path.as_str())),
        _ => None,
    }
}

/// How this usecase reports each document link catalog failure.
pub fn map_catalog_error(error: DocumentLinkCatalogError) -> (result: ApplyDocumentLinkCatalogChangeError)
    ensures
        result == match error {
            DocumentLinkCatalogError::InvalidRecord => ApplyDocumentLinkCatalogChangeError::InvalidEvent,
            DocumentLinkCatalogError::StorageUnavailable => ApplyDocumentLinkCatalogChangeError::RepositoryUnavailable,
            DocumentLinkCatalogError::CorruptedCatalog => ApplyDocumentLinkCatalogChangeError::CorruptedCatalog,
        },
{
    match error {
        DocumentLinkCatalogError::InvalidRecord => ApplyDocumentLinkCatalogChangeError::InvalidEvent,
        DocumentLinkCatalogError::StorageUnavailable => ApplyDocumentLinkCatalogChangeError::RepositoryUnavailable,
        DocumentLinkCatalogError::CorruptedCatalog => ApplyDocumentLinkCatalogChangeError::CorruptedCatalog,
    }
}

} // verus!
