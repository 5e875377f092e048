use vstd::prelude::*;
use crate::collaborator_errors::DocumentRevisionMetadataPortError;
use crate::text::{opt_sstr_view, opt_str_view, opt_to_string, opt_ref_view, pairs_view, strings_view};

verus! {
#[derive(Debug, Clone, Copy, PartialEq, Eq, Structural)]
pub enum GenerateDocumentRevisionMetadataError {
    InvalidTimestamp,
    GenerationUnavailable,
    Conflict,
    StorageUnavailable,
}

impl GenerateDocumentRevisionMetadataError {
    pub fn code(self) -> (result: &'static str)
        ensures
            result@ == match self {
                Self::InvalidTimestamp => "document_revision_metadata.invalid_timestamp"@,
                Self::GenerationUnavailable => "document_revision_metadata.generation_unavailable"@,
                Self::Conflict => "document_revision_metadata.conflict"@,
                Self::StorageUnavailable => "document_revision_metadata.storage_unavailable"@,
            },
    {
        match self {
            Self::InvalidTimestamp => "document_revision_metadata.invalid_timestamp",
            Self::GenerationUnavailable => "document_revision_metadata.generation_unavailable",
            Self::Conflict => "document_revision_metadata.conflict",
            Self::StorageUnavailable => "document_revision_metadata.storage_unavailable",
        }
    }
}

#[derive(Debug, Clone, Copy, PartialEq, Eq, Structural)]
pub struct GenerateDocumentRevisionMetadataUsecase;

impl GenerateDocumentRevisionMetadataUsecase {
    pub fn new() -> (result: Self)
        ensures
            result == (GenerateDocumentRevisionMetadataUsecase),
    {
        GenerateDocumentRevisionMetadataUsecase
    }
}

impl Default for GenerateDocumentRevisionMetadataUsecase {
    fn default() -> (result: Self)
        ensures
            result == (GenerateDocumentRevisionMetadataUsecase),
    {
        Self::new()
    }
}

/// A revision's creation time must be after the epoch.
pub fn check_created_at(created_at_epoch_ms: u64) -> (result: Result<u64, GenerateDocumentRevisionMetadataError>)
    ensures
        created_at_epoch_ms == 0 ==> result == Err::<u64, GenerateDocumentRevisionMetadataError>(GenerateDocumentRevisionMetadataError::InvalidTimestamp),
        created_at_epoch_ms != 0 ==> result == Ok::<u64, GenerateDocumentRevisionMetadataError>(created_at_epoch_ms),
{
    if created_at_epoch_ms == 0 {
        return Err(GenerateDocumentRevisionMetadataError::InvalidTimestamp);
    }
    Ok(created_at_epoch_ms)
}

/// How this usecase reports each document revision metadata store failure.
pub fn map_port_error(error: DocumentRevisionMetadataPortError) -> (result: GenerateDocumentRevisionMetadataError)
    ensures
        result == match error {
            DocumentRevisionMetadataPortError::GenerationUnavailable => GenerateDocumentRevisionMetadataError::GenerationUnavailable,
            DocumentRevisionMetadataPortError::Conflict => GenerateDocumentRevisionMetadataError::Conflict,
            DocumentRevisionMetadataPortError::StorageUnavailable => GenerateDocumentRevisionMetadataError::StorageUnavailable,
        },
{
    match error {
        DocumentRevisionMetadataPortError::GenerationUnavailable => GenerateDocumentRevisionMetadataError::GenerationUnavailable,
        DocumentRevisionMetadataPortError::Conflict => GenerateDocumentRevisionMetadataError::Conflict,
        DocumentRevisionMetadataPortError::StorageUnavailable => GenerateDocumentRevisionMetadataError::StorageUnavailable,
    }
}

} // verus!
