use vstd::prelude::*;
use crate::text::{opt_sstr_view, opt_str_view, opt_to_string, opt_ref_view, pairs_view, strings_view};

verus! {
#[derive(Debug, Clone, Copy, PartialEq, Eq, Structural)]
pub struct ListWorkspaceAssetsUsecase;

impl ListWorkspaceAssetsUsecase {
    pub fn new() -> (result: Self)
        ensures
            result == (ListWorkspaceAssetsUsecase),
    {
        ListWorkspaceAssetsUsecase
    }
}

#[derive(Debug, Clone, Copy, PartialEq, Eq, Structural)]
pub struct GetAssetDetailUsecase;

impl GetAssetDetailUsecase {
    pub fn new() -> (result: Self)
        ensures
            result == (GetAssetDetailUsecase),
    {
        GetAssetDetailUsecase
    }
}

#[derive(Debug, Clone, Copy, PartialEq, Eq, Structural)]
pub struct UnlinkAssetOutput {
    removed: bool,
    remaining_references: u64,
}

impl View for UnlinkAssetOutput {
    type V = (bool, u64);

    closed spec fn view(&self) -> (bool, u64) {
        (self.removed, self.remaining_references)
    }
}

impl UnlinkAssetOutput {
    /// The answer of an unlink: whether the association was removed, and
    /// how many references remain.
    pub fn new(removed: bool, remaining_references: u64) -> (result: Self)
        ensures
            result@ == (removed, remaining_references),
    {
        UnlinkAssetOutput { removed, remaining_references }
    }

    pub fn removed(self) -> (result: bool)
        ensures
            result == self@.0,
    {
        self.removed
    }

    pub fn remaining_references(self) -> (result: u64)
        ensures
            result == self@.1,
    {
        self.remaining_references
    }

}

#[derive(Debug, Clone, PartialEq, Eq)]
pub enum AssetLifecycleProductEvent {
    Linked { document_id: String },
    Unlinked { document_id: String },
}

pub trait AssetLifecycleProductLogger {
    fn write_product(&mut self, event: AssetLifecycleProductEvent);
}

#[derive(Debug, Clone, Copy, PartialEq, Eq, Structural)]
pub struct LinkAssetOutput {
    linked: bool,
    reference_count: u64,
}

impl View for LinkAssetOutput {
    type V = (bool, u64);

    closed spec fn view(&self) -> (bool, u64) {
        (self.linked, self.reference_count)
    }
}

impl LinkAssetOutput {
    /// The answer of a link: whether the association is new, and how many
    /// references the asset has.
    pub fn new(linked: bool, reference_count: u64) -> (result: Self)
        ensures
            result@ == (linked, reference_count),
    {
        LinkAssetOutput { linked, reference_count }
    }

    pub fn linked(self) -> (result: bool)
        ensures
            result == self@.0,
    {
        self.linked
    }

    pub fn reference_count(self) -> (result: u64)
        ensures
            result == self@.1,
    {
        self.reference_count
    }

}

#[derive(Debug, Clone, Copy, PartialEq, Eq, Structural)]
pub struct LinkAssetUsecase;

impl LinkAssetUsecase {
    pub fn new() -> (result: Self)
        ensures
            result == (LinkAssetUsecase),
    {
        LinkAssetUsecase
    }
}

#[derive(Debug, Clone, Copy, PartialEq, Eq, Structural)]
pub struct UnlinkAssetUsecase;

impl UnlinkAssetUsecase {
    pub fn new() -> (result: Self)
        ensures
            result == (UnlinkAssetUsecase),
    {
        UnlinkAssetUsecase
    }
}

/// Why listing, reading, linking or unlinking an asset failed.
#[derive(Debug, Clone, Copy, PartialEq, Eq)]
pub enum AssetLifecycleError {
    InvalidInput,
    AssetNotFound,
    DocumentNotFound,
    /// Carries the code that the failing document lookup reported.
    Document(&'static str),
    /// Carries the code that the failing metadata catalog reported.
    Metadata(&'static str),
    /// Carries the code that the failing association catalog reported.
    Association(&'static str),
}

impl AssetLifecycleError {
    /// The stable code reported for this error.
    pub fn code(self) -> (result: &'static str)
        ensures
            result@ == self.code_view(),
    {
        match self {
            Self::InvalidInput => "asset_lifecycle.invalid_input",
            Self::AssetNotFound => "asset_lifecycle.asset_not_found",
            Self::DocumentNotFound => "asset_lifecycle.document_not_found",
            Self::Document(code) => code,
            Self::Metadata(code) => code,
            Self::Association(code) => code,
        }
    }

    /// The code of this error as a character sequence.
    pub open spec fn code_view(self) -> Seq<char> {
        match self {
            Self::InvalidInput => "asset_lifecycle.invalid_input"@,
            Self::AssetNotFound => "asset_lifecycle.asset_not_found"@,
            Self::DocumentNotFound => "asset_lifecycle.document_not_found"@,
            Self::Document(code) => code@,
            Self::Metadata(code) => code@,
            Self::Association(code) => code@,
        }
    }
}

/// A call that linking or unlinking an asset makes to the outside world.
#[derive(Debug, Clone, Copy, PartialEq, Eq, Structural)]
pub enum AssetLinkCall {
    /// Ask whether the document exists.
    CheckDocument,
    /// Read the asset's catalog record.
    GetMetadata,
    /// Link the asset to the document under the label (building the
    /// association first), or unlink it.
    Change,
    /// Count the documents that reference the asset.
    CountReferences,
}

/// What came back from the last call of a link or unlink.
#[derive(Debug, Clone, Copy, PartialEq, Eq)]
pub enum AssetLinkReply {
    Done,
    DocumentMissing,
    AssetMissing,
    /// The asset's catalog record was found.
    AssetFound,
    /// The association changed (it was newly linked, or removed) or not.
    Changed(bool),
    /// The asset is referenced this many times.
    Counted(u64),
    /// The call failed with this error.
    Failed(AssetLifecycleError),
}

/// Where a link or unlink stands: the call whose reply is awaited.
#[derive(Debug, Clone, Copy, PartialEq, Eq, Structural)]
pub enum AssetLinkStep {
    CheckingDocument,
    ReadingMetadata,
    Changing,
    /// Counting references after a change that did or did not happen.
    Counting(bool),
}

/// What a link or unlink is about: the document, and whether it links
/// (or unlinks).
pub struct AssetLinkRun {
    pub document_id: String,
    pub linking: bool,
}

/// What a link or unlink does next: make a call, or end, logging the
/// product event (if any).
#[derive(Debug, PartialEq, Eq)]
pub enum AssetLinkAction {
    Call(AssetLinkCall),
    /// The product event logged, and the result: whether the association
    /// changed and how many references remain.
    Finish(Option<AssetLifecycleProductEvent>, Result<(bool, u64), AssetLifecycleError>),
}

/// The product event of a change of the association: `Linked` or
/// `Unlinked` for the run's document.
pub open spec fn asset_link_event(run: AssetLinkRun) -> AssetLifecycleProductEvent {
    if run.linking {
        AssetLifecycleProductEvent::Linked { document_id: run.document_id }
    } else {
        AssetLifecycleProductEvent::Unlinked { document_id: run.document_id }
    }
}

/// A link or unlink starts by checking the document.
pub open spec fn asset_link_start() -> (AssetLinkStep, AssetLinkAction) {
    (AssetLinkStep::CheckingDocument, AssetLinkAction::Call(AssetLinkCall::CheckDocument))
}

/// One step of a link or unlink: a missing document or asset ends it as
/// not found, a failed call with its error; otherwise the association is
/// changed, the references counted, and the change, if any, logged for the
/// run's document.
pub open spec fn asset_link_transition(run: AssetLinkRun, step: AssetLinkStep, reply: AssetLinkReply) -> (AssetLinkStep, AssetLinkAction) {
    match reply {
        AssetLinkReply::Failed(error) => (step, AssetLinkAction::Finish(None, Err(error))),
        AssetLinkReply::DocumentMissing => (step, AssetLinkAction::Finish(None, Err(AssetLifecycleError::DocumentNotFound))),
        AssetLinkReply::AssetMissing => (step, AssetLinkAction::Finish(None, Err(AssetLifecycleError::AssetNotFound))),
        AssetLinkReply::Done => (AssetLinkStep::ReadingMetadata, AssetLinkAction::Call(AssetLinkCall::GetMetadata)),
        AssetLinkReply::Changed(changed) => (AssetLinkStep::Counting(changed), AssetLinkAction::Call(AssetLinkCall::CountReferences)),
        AssetLinkReply::AssetFound => (AssetLinkStep::Changing, AssetLinkAction::Call(AssetLinkCall::Change)),
        AssetLinkReply::Counted(count) => {
            let changed = match step {
                AssetLinkStep::Counting(changed) => changed,
                _ => false,
            };
            (step, AssetLinkAction::Finish(
                if changed { Some(asset_link_event(run)) } else { None },
                Ok((changed, count)),
            ))
        },
    }
}

/// Which replies answer the call a link or unlink awaits at a step.
pub open spec fn asset_link_reply_fits(step: AssetLinkStep, reply: AssetLinkReply) -> bool {
    &&& reply is Done ==> step == AssetLinkStep::CheckingDocument
    &&& (reply is AssetMissing || reply is AssetFound) ==> step == AssetLinkStep::ReadingMetadata
    &&& reply is Changed ==> step == AssetLinkStep::Changing
    &&& reply is Counted ==> step is Counting
}

/// Starts a link or unlink, as `asset_link_start` describes.
pub fn asset_link_begin() -> (result: (AssetLinkStep, AssetLinkAction))
    ensures
        result == asset_link_start(),
{
    (AssetLinkStep::CheckingDocument, AssetLinkAction::Call(AssetLinkCall::CheckDocument))
}

/// Takes the reply to the last call of a link or unlink and says what comes
/// next, as `asset_link_transition` describes.
pub fn asset_link_next(run: &AssetLinkRun, step: AssetLinkStep, reply: AssetLinkReply) -> (result: (AssetLinkStep, AssetLinkAction))
    requires
        asset_link_reply_fits(step, reply),
    ensures
        result == asset_link_transition(*run, step, reply),
{
    match reply {
        AssetLinkReply::Failed(error) => (step, AssetLinkAction::Finish(None, Err(error))),
        AssetLinkReply::DocumentMissing => (step, AssetLinkAction::Finish(None, Err(AssetLifecycleError::DocumentNotFound))),
        AssetLinkReply::AssetMissing => (step, AssetLinkAction::Finish(None, Err(AssetLifecycleError::AssetNotFound))),
        AssetLinkReply::Done => (AssetLinkStep::ReadingMetadata, AssetLinkAction::Call(AssetLinkCall::GetMetadata)),
        AssetLinkReply::Changed(changed) => (AssetLinkStep::Counting(changed), AssetLinkAction::Call(AssetLinkCall::CountReferences)),
        AssetLinkReply::AssetFound => (AssetLinkStep::Changing, AssetLinkAction::Call(AssetLinkCall::Change)),
        AssetLinkReply::Counted(count) => {
            let changed = match step {
                AssetLinkStep::Counting(changed) => changed,
                _ => false,
            };
            let log = if !changed {
                None
            } else if run.linking {
                Some(AssetLifecycleProductEvent::Linked { document_id: run.document_id.clone() })
            } else {
                Some(AssetLifecycleProductEvent::Unlinked { document_id: run.document_id.clone() })
            };
            (step, AssetLinkAction::Finish(log, Ok((changed, count))))
        },
    }
}

/// Whether the reply can answer the call of the step, as
/// `asset_link_reply_fits` says; a runner checks this before it hands the
/// reply on.
pub fn check_asset_link_reply(step: AssetLinkStep, reply: AssetLinkReply) -> (result: bool)
    ensures
        result == asset_link_reply_fits(step, reply),
{
    match reply {
        AssetLinkReply::Done => step == AssetLinkStep::CheckingDocument,
        AssetLinkReply::AssetMissing | AssetLinkReply::AssetFound => step == AssetLinkStep::ReadingMetadata,
        AssetLinkReply::Changed(_) => step == AssetLinkStep::Changing,
        AssetLinkReply::Counted(_) => match step {
            AssetLinkStep::Counting(_) => true,
            _ => false,
        },
        _ => true,
    }
}

} // verus!
