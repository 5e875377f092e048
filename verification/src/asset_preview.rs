use vstd::prelude::*;
use crate::text::{opt_sstr_view, opt_str_view, opt_to_string, opt_ref_view, pairs_view, strings_view};

verus! {
#[derive(Debug, Clone, PartialEq, Eq)]
pub enum AssetPreviewResult {
    Content(Vec<u8>),
    Unsupported,
}

#[derive(Debug, Clone, Copy, PartialEq, Eq, Structural)]
pub struct GetAssetPreviewUsecase;

impl GetAssetPreviewUsecase {
    pub fn new() -> (result: Self)
        ensures
            result == (GetAssetPreviewUsecase),
    {
        GetAssetPreviewUsecase
    }
}

/// Why previewing an asset failed.
#[derive(Debug, Clone, Copy, PartialEq, Eq)]
pub enum AssetPreviewError {
    InvalidInput,
    NotFound,
    /// Carries the code that the failing metadata catalog reported.
    Metadata(&'static str),
    /// Carries the code that the failing preview reader reported.
    Read(&'static str),
}

impl AssetPreviewError {
    /// The stable code reported for this error.
    pub fn code(self) -> (result: &'static str)
        ensures
            result@ == self.code_view(),
    {
        match self {
            Self::InvalidInput => "asset_preview.invalid_input",
            Self::NotFound => "asset_preview.not_found",
            Self::Metadata(code) => code,
            Self::Read(code) => code,
        }
    }

    /// The code of this error as a character sequence.
    pub open spec fn code_view(self) -> Seq<char> {
        match self {
            Self::InvalidInput => "asset_preview.invalid_input"@,
            Self::NotFound => "asset_preview.not_found"@,
            Self::Metadata(code) => code@,
            Self::Read(code) => code@,
        }
    }
}
} // verus!
