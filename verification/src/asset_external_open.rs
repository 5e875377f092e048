use vstd::prelude::*;
use crate::text::{opt_sstr_view, opt_str_view, opt_to_string, opt_ref_view, pairs_view, strings_view};

verus! {

#[derive(Debug, Clone, Copy, PartialEq, Eq, Structural)]
pub struct OpenAssetExternallyOutput;

impl OpenAssetExternallyOutput {
    /// The answer of an opening that went through.
    pub fn new() -> (result: Self)
        ensures
            result == OpenAssetExternallyOutput,
    {
        OpenAssetExternallyOutput
    }

    pub fn opened(&self) -> (result: bool)
        ensures
            result,
    {
        true
    }
}

#[derive(Debug, Clone, Copy, PartialEq, Eq)]
pub enum AssetExternalOpenProductEvent {
    Failed { error_code: &'static str },
}

impl AssetExternalOpenProductEvent {
    pub fn name(self) -> (result: &'static str)
        ensures
            result@ == "document.attachment.open_failed"@,
    {
        match self {
            AssetExternalOpenProductEvent::Failed { .. } => "document.attachment.open_failed",
        }
    }
}

pub trait AssetExternalOpenProductLogger {
    fn write_product(&mut self, event: AssetExternalOpenProductEvent);
}

#[derive(Debug, Clone, Copy, PartialEq, Eq, Structural)]
pub struct OpenAssetExternallyUsecase;

impl OpenAssetExternallyUsecase {
    pub fn new() -> (result: Self)
        ensures
            result == (OpenAssetExternallyUsecase),
    {
        OpenAssetExternallyUsecase
    }
}

/// Why opening an asset in an outside application failed.
#[derive(Debug, Clone, Copy, PartialEq, Eq)]
pub enum OpenAssetExternallyError {
    InvalidInput,
    NotFound,
    /// Carries the code that the failing metadata catalog reported.
    Metadata(&'static str),
    /// Carries the code that the failing external opener reported.
    Open(&'static str),
}

impl OpenAssetExternallyError {
    /// The stable code reported for this error.
    pub fn code(self) -> (result: &'static str)
        ensures
            result@ == self.code_view(),
    {
        match self {
            Self::InvalidInput => "asset_external_open.invalid_input",
            Self::NotFound => "asset_external_open.not_found",
            Self::Metadata(code) => code,
            Self::Open(code) => code,
        }
    }

    /// The code of this error as a character sequence.
    pub open spec fn code_view(self) -> Seq<char> {
        match self {
            Self::InvalidInput => "asset_external_open.invalid_input"@,
            Self::NotFound => "asset_external_open.not_found"@,
            Self::Metadata(code) => code@,
            Self::Open(code) => code@,
        }
    }
}

/// What opening an asset externally came to, from what the catalog and the
/// opener answered: `None` for an asset the catalog does not hold (or the
/// catalog's failure code), else the opener's answer (or its failure
/// code). Every failure is logged with its code.
pub fn open_externally_outcome(
    catalog: Result<bool, &'static str>,
    opened: Result<(), &'static str>,
) -> (result: (Option<AssetExternalOpenProductEvent>, Result<OpenAssetExternallyOutput, OpenAssetExternallyError>))
    ensures
        result.1 == (match catalog {
            Err(code) => Err(OpenAssetExternallyError::Metadata(code)),
            Ok(false) => Err(OpenAssetExternallyError::NotFound),
            Ok(true) => match opened {
                Err(code) => Err(OpenAssetExternallyError::Open(code)),
                Ok(()) => Ok(OpenAssetExternallyOutput),
            },
        }),
        result.1 matches Err(error) ==> result.0 matches Some(AssetExternalOpenProductEvent::Failed { error_code })
            && error_code@ == error.code_view(),
        result.1 is Ok ==> result.0 is None,
{
    let result = match catalog {
        Err(code) => Err(OpenAssetExternallyError::Metadata(code)),
        Ok(false) => Err(OpenAssetExternallyError::NotFound),
        Ok(true) => match opened {
            Err(code) => Err(OpenAssetExternallyError::Open(code)),
            Ok(()) => Ok(OpenAssetExternallyOutput),
        },
    };
    match result {
        Err(error) => (Some(AssetExternalOpenProductEvent::Failed { error_code: error.code() }), Err(error)),
        Ok(output) => (None, Ok(output)),
    }
}

} // verus!
