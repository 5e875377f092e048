use vstd::prelude::*;
use crate::collaborator_errors::AssetSearchError;
use crate::text::{opt_sstr_view, opt_str_view, opt_to_string, opt_ref_view, pairs_view, strings_view};

verus! {
#[derive(Debug, Clone, PartialEq, Eq)]
pub struct SearchAssetsInput {
    workspace_id: String,
    query: String,
    limit: usize,
}

impl View for SearchAssetsInput {
    type V = (Seq<char>, Seq<char>, usize);

    closed spec fn view(&self) -> (Seq<char>, Seq<char>, usize) {
        (self.workspace_id@, self.query@, self.limit)
    }
}

impl SearchAssetsInput {
    pub fn new(workspace_id: &str, query: &str, limit: usize) -> (result: Self)
        ensures
            result@ == (workspace_id@, query@, limit),
    {
        Self {
            workspace_id: workspace_id.to_string(),
            query: query.to_string(),
            limit: limit,
        }
    }

}

#[derive(Debug, Clone, Copy, PartialEq, Eq, Structural)]
pub struct SearchAssetsUsecase;

impl SearchAssetsUsecase {
    pub fn new() -> (result: Self)
        ensures
            result == (SearchAssetsUsecase),
    {
        SearchAssetsUsecase
    }
}

impl Default for SearchAssetsUsecase {
    fn default() -> (result: Self)
        ensures
            result == (SearchAssetsUsecase),
    {
        Self::new()
    }
}

#[derive(Debug, Clone, Copy, PartialEq, Eq, Structural)]
pub enum SearchAssetsError {
    InvalidInput,
    StorageUnavailable,
}

impl SearchAssetsError {
    pub fn code(self) -> (result: &'static str)
        ensures
            result@ == match self {
                Self::InvalidInput => "asset_search.invalid_input"@,
                Self::StorageUnavailable => "asset_search.storage_unavailable"@,
            },
    {
        match self {
            Self::InvalidInput => "asset_search.invalid_input",
            Self::StorageUnavailable => "asset_search.storage_unavailable",
        }
    }
}



impl SearchAssetsError {
    /// How this usecase reports each asset search failure.
    pub fn from_asset_search_error(error: AssetSearchError) -> (result: Self)
        ensures
            result == match error {
                AssetSearchError::InvalidQuery | AssetSearchError::InvalidLimit | AssetSearchError::InvalidAssetMetadata => Self::InvalidInput,
                AssetSearchError::StorageUnavailable | AssetSearchError::CorruptedIndex => Self::StorageUnavailable,
            },
    {
        match error {
            AssetSearchError::InvalidQuery | AssetSearchError::InvalidLimit | AssetSearchError::InvalidAssetMetadata => Self::InvalidInput,
            AssetSearchError::StorageUnavailable | AssetSearchError::CorruptedIndex => Self::StorageUnavailable,
        }
    }
}

} // verus!
