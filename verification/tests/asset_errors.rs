use cabinet_usecases::asset_external_open::OpenAssetExternallyError;
use cabinet_usecases::asset_import::{
    CancelAssetImportError, ImportAssetError, ListCatalogDocumentAssetsError, RecoverAssetImportsError,
    StageAssetImportError,
};
use cabinet_usecases::asset_lifecycle::AssetLifecycleError;
use cabinet_usecases::asset_preview::AssetPreviewError;

#[test]
fn import_error_codes_are_stable() {
    assert_eq!(ImportAssetError::InvalidInput.code(), "asset_import.invalid_input");
    assert_eq!(ImportAssetError::DocumentNotFound.code(), "asset_import.document_not_found");
    assert_eq!(ImportAssetError::Publish("asset_object.unavailable").code(), "asset_object.unavailable");
    assert_eq!(
        ImportAssetError::Staging(StageAssetImportError::SizeMismatch).code(),
        "asset_import.size_mismatch"
    );
    assert_eq!(StageAssetImportError::Source("asset_source.closed").code(), "asset_source.closed");
}

#[test]
fn query_recovery_and_cancel_error_codes() {
    assert_eq!(ListCatalogDocumentAssetsError::DanglingMetadata.code(), "asset_query.dangling_metadata");
    assert_eq!(RecoverAssetImportsError::InvalidState.code(), "asset_recovery.invalid_state");
    assert_eq!(CancelAssetImportError::NotFound.code(), "asset_cancel.not_found");
    assert_eq!(CancelAssetImportError::Repository("repo.down").code(), "repo.down");
}

#[test]
fn lifecycle_preview_and_open_error_codes() {
    assert_eq!(AssetLifecycleError::AssetNotFound.code(), "asset_lifecycle.asset_not_found");
    assert_eq!(AssetPreviewError::NotFound.code(), "asset_preview.not_found");
    assert_eq!(OpenAssetExternallyError::InvalidInput.code(), "asset_external_open.invalid_input");
    assert_eq!(OpenAssetExternallyError::Open("opener.failed").code(), "opener.failed");
}
