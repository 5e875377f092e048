use vstd::prelude::*;
use crate::collaborator_errors::{CanvasCatalogError, LastCanvasSelectionError};
use crate::text::{opt_sstr_view, opt_str_view, opt_to_string, opt_ref_view, pairs_view, strings_view};
use crate::text::str_equal;

verus! {
#[derive(Debug, Clone, PartialEq, Eq)]
pub struct ResolveInitialCanvasInput {
    workspace_id: String,
    limit: usize,
    include_archived: bool,
}

impl View for ResolveInitialCanvasInput {
    type V = (Seq<char>, usize, bool);

    closed spec fn view(&self) -> (Seq<char>, usize, bool) {
        (self.workspace_id@, self.limit, self.include_archived)
    }
}

impl ResolveInitialCanvasInput {
    pub fn new(workspace_id: &str, limit: usize, include_archived: bool) -> (result: Self)
        ensures
            result@ == (workspace_id@, limit, include_archived),
    {
        Self {
            workspace_id: workspace_id.to_string(),
            limit: limit,
            include_archived: include_archived,
        }
    }

}

#[derive(Debug, Clone, Copy, PartialEq, Eq, Structural)]
pub enum ResolvedCanvasSelectionSource {
    LastUsed,
    Fallback,
    Empty,
}

#[derive(Debug, Clone, Copy, PartialEq, Eq, Structural)]
pub enum ResolveInitialCanvasError {
    InvalidInput,
    CatalogLimitExceeded,
    CatalogUnavailable,
    CorruptedCatalog,
    SelectionUnavailable,
    CorruptedSelection,
}

impl ResolveInitialCanvasError {
    pub fn code(self) -> (result: &'static str)
        ensures
            result@ == match self {
                Self::InvalidInput => "canvas_catalog.invalid_input"@,
                Self::CatalogLimitExceeded => "canvas_catalog.limit_exceeded"@,
                Self::CatalogUnavailable => "canvas_catalog.unavailable"@,
                Self::CorruptedCatalog => "canvas_catalog.corrupted"@,
                Self::SelectionUnavailable => "canvas_selection.unavailable"@,
                Self::CorruptedSelection => "canvas_selection.corrupted"@,
            },
    {
        match self {
            Self::InvalidInput => "canvas_catalog.invalid_input",
            Self::CatalogLimitExceeded => "canvas_catalog.limit_exceeded",
            Self::CatalogUnavailable => "canvas_catalog.unavailable",
            Self::CorruptedCatalog => "canvas_catalog.corrupted",
            Self::SelectionUnavailable => "canvas_selection.unavailable",
            Self::CorruptedSelection => "canvas_selection.corrupted",
        }
    }

    pub fn retryable(self) -> (result: bool)
        ensures
            result == match self {
                Self::InvalidInput => false,
                Self::CatalogLimitExceeded => false,
                Self::CatalogUnavailable => true,
                Self::CorruptedCatalog => false,
                Self::SelectionUnavailable => true,
                Self::CorruptedSelection => false,
            },
    {
        match self {
            Self::InvalidInput => false,
            Self::CatalogLimitExceeded => false,
            Self::CatalogUnavailable => true,
            Self::CorruptedCatalog => false,
            Self::SelectionUnavailable => true,
            Self::CorruptedSelection => false,
        }
    }

}

#[derive(Debug, Clone, Copy, PartialEq, Eq, Structural)]
pub struct ResolveInitialCanvasUsecase;

impl ResolveInitialCanvasUsecase {
    pub fn new() -> (result: Self)
        ensures
            result == (ResolveInitialCanvasUsecase),
    {
        ResolveInitialCanvasUsecase
    }
}

impl Default for ResolveInitialCanvasUsecase {
    fn default() -> (result: Self)
        ensures
            result == (ResolveInitialCanvasUsecase),
    {
        Self::new()
    }
}

/// The first position whose entry is not archived and, when `last` is given,
/// has that canvas id; `None` when there is no such entry.
pub open spec fn first_selectable(ids: Seq<Seq<char>>, archived: Seq<bool>, last: Option<Seq<char>>) -> Option<int> {
    if exists|i: int| 0 <= i < ids.len() && #[trigger] selectable(ids, archived, last, i) {
        Some(choose|i: int| 0 <= i < ids.len() && #[trigger] selectable(ids, archived, last, i) && forall|j: int| 0 <= j < i ==> !selectable(ids, archived, last, j))
    } else {
        None
    }
}

/// An optional position as an integer.
pub open spec fn opt_index(found: Option<usize>) -> Option<int> {
    match found {
        Some(i) => Some(i as int),
        None => None,
    }
}

/// The entry at position `i` is not archived and matches `last` when given.
pub open spec fn selectable(ids: Seq<Seq<char>>, archived: Seq<bool>, last: Option<Seq<char>>, i: int) -> bool {
    !archived[i] && match last {
        Some(id) => ids[i] == id,
        None => true,
    }
}

fn first_selectable_index(ids: &Vec<String>, archived: &Vec<bool>, last: Option<&str>) -> (result: Option<usize>)
    requires
        ids@.len() == archived@.len(),
    ensures
        match result {
            Some(i) => i < ids@.len() && selectable(strings_view(ids@), archived@, opt_ref_view(last), i as int)
                && forall|j: int| 0 <= j < i ==> !selectable(strings_view(ids@), archived@, opt_ref_view(last), j),
            None => forall|j: int| 0 <= j < ids@.len() ==> !selectable(strings_view(ids@), archived@, opt_ref_view(last), j),
        },
{
    let ghost view = strings_view(ids@);
    let mut i: usize = 0;
    while i < ids.len()
        invariant
            ids@.len() == archived@.len(),
            view == strings_view(ids@),
            i <= ids@.len(),
            forall|j: int| 0 <= j < i ==> !selectable(view, archived@, opt_ref_view(last), j),
        decreases ids@.len() - i,
    {
        let matches_last = match last {
            Some(id) => str_equal(ids[i].as_str(), id),
            None => true,
        };
        assert(view[i as int] == ids@[i as int]@);
        if !archived[i] && matches_last {
            return Some(i);
        }
        i = i + 1;
    }
    None
}

/// Picks the canvas to open first from the catalog entries, given their ids
/// and whether each is archived: the last used canvas when it is listed and
/// not archived, otherwise the first entry that is not archived. Returns the
/// chosen position and where the choice came from.
pub fn select_initial_canvas(
    entry_ids: &Vec<String>,
    archived: &Vec<bool>,
    last: Option<&str>,
) -> (result: (Option<usize>, ResolvedCanvasSelectionSource))
    requires
        entry_ids@.len() == archived@.len(),
    ensures
        ({
            let ids = strings_view(entry_ids@);
            let last_index = match last {
                Some(id) => first_selectable(ids, archived@, Some(id@)),
                None => None,
            };
            let fallback = first_selectable(ids, archived@, None);
            &&& opt_index(result.0) == (if last_index is Some { last_index } else { fallback })
            &&& result.1 == if last_index is Some {
                ResolvedCanvasSelectionSource::LastUsed
            } else if fallback is Some {
                ResolvedCanvasSelectionSource::Fallback
            } else {
                ResolvedCanvasSelectionSource::Empty
            }
        }),
{
    let ghost ids = strings_view(entry_ids@);
    let last_index = match last {
        Some(id) => first_selectable_index(entry_ids, archived, Some(id)),
        None => None,
    };
    let fallback_index = first_selectable_index(entry_ids, archived, None);
    proof {
        lemma_first_selectable(ids, archived@, None, fallback_index);
        match last {
            Some(id) => lemma_first_selectable(ids, archived@, Some(id@), last_index),
            None => {},
        }
    }
    let selected = match last_index {
        Some(i) => Some(i),
        None => fallback_index,
    };
    let source = if last_index.is_some() {
        ResolvedCanvasSelectionSource::LastUsed
    } else if selected.is_some() {
        ResolvedCanvasSelectionSource::Fallback
    } else {
        ResolvedCanvasSelectionSource::Empty
    };
    (selected, source)
}

proof fn lemma_first_selectable(ids: Seq<Seq<char>>, archived: Seq<bool>, last: Option<Seq<char>>, found: Option<usize>)
    requires
        ids.len() == archived.len(),
        match found {
            Some(i) => i < ids.len() && selectable(ids, archived, last, i as int)
                && forall|j: int| 0 <= j < i ==> !selectable(ids, archived, last, j),
            None => forall|j: int| 0 <= j < ids.len() ==> !selectable(ids, archived, last, j),
        },
    ensures
        first_selectable(ids, archived, last) == opt_index(found),
{
    match found {
        Some(i) => {
            assert(selectable(ids, archived, last, i as int));
            let c = choose|c: int| 0 <= c < ids.len() && #[trigger] selectable(ids, archived, last, c) && forall|j: int| 0 <= j < c ==> !selectable(ids, archived, last, j);
            if c < i {
                assert(!selectable(ids, archived, last, c));
            }
            if c > i {
                assert(!selectable(ids, archived, last, i as int));
            }
        },
        None => {},
    }
}

#[derive(Debug, Clone, PartialEq, Eq)]
pub struct SelectCanvasInput {
    workspace_id: String,
    canvas_id: String,
    catalog_limit: usize,
}

impl View for SelectCanvasInput {
    type V = (Seq<char>, Seq<char>, usize);

    closed spec fn view(&self) -> (Seq<char>, Seq<char>, usize) {
        (self.workspace_id@, self.canvas_id@, self.catalog_limit)
    }
}

impl SelectCanvasInput {
    pub fn new(workspace_id: &str, canvas_id: &str, catalog_limit: usize) -> (result: Self)
        ensures
            result@ == (workspace_id@, canvas_id@, catalog_limit),
    {
        Self {
            workspace_id: workspace_id.to_string(),
            canvas_id: canvas_id.to_string(),
            catalog_limit: catalog_limit,
        }
    }

}

#[derive(Debug, Clone, PartialEq, Eq)]
pub struct SelectCanvasOutput {
    selected_canvas_id: String,
}

impl View for SelectCanvasOutput {
    type V = Seq<char>;

    closed spec fn view(&self) -> Seq<char> {
        self.selected_canvas_id@
    }
}

impl SelectCanvasOutput {
    /// The answer that names the selected canvas.
    pub fn new(selected_canvas_id: &str) -> (result: Self)
        ensures
            result@ == selected_canvas_id@,
    {
        SelectCanvasOutput { selected_canvas_id: selected_canvas_id.to_string() }
    }

    pub fn selected_canvas_id(&self) -> (result: &str)
        ensures
            result@ == self@,
    {
        self.selected_canvas_id.as_str()
    }

}

#[derive(Debug, Clone, Copy, PartialEq, Eq, Structural)]
pub enum SelectCanvasError {
    InvalidInput,
    CanvasNotFound,
    CanvasArchived,
    CatalogLimitExceeded,
    CatalogUnavailable,
    CorruptedCatalog,
    SelectionUnavailable,
    CorruptedSelection,
}

impl SelectCanvasError {
    pub fn code(self) -> (result: &'static str)
        ensures
            result@ == match self {
                Self::InvalidInput => "canvas_selection.invalid_input"@,
                Self::CanvasNotFound => "canvas_selection.not_found"@,
                Self::CanvasArchived => "canvas_selection.archived"@,
                Self::CatalogLimitExceeded => "canvas_selection.catalog_limit_exceeded"@,
                Self::CatalogUnavailable => "canvas_selection.catalog_unavailable"@,
                Self::CorruptedCatalog => "canvas_selection.catalog_corrupted"@,
                Self::SelectionUnavailable => "canvas_selection.unavailable"@,
                Self::CorruptedSelection => "canvas_selection.corrupted"@,
            },
    {
        match self {
            Self::InvalidInput => "canvas_selection.invalid_input",
            Self::CanvasNotFound => "canvas_selection.not_found",
            Self::CanvasArchived => "canvas_selection.archived",
            Self::CatalogLimitExceeded => "canvas_selection.catalog_limit_exceeded",
            Self::CatalogUnavailable => "canvas_selection.catalog_unavailable",
            Self::CorruptedCatalog => "canvas_selection.catalog_corrupted",
            Self::SelectionUnavailable => "canvas_selection.unavailable",
            Self::CorruptedSelection => "canvas_selection.corrupted",
        }
    }

    pub fn retryable(self) -> (result: bool)
        ensures
            result == match self {
                Self::InvalidInput => false,
                Self::CanvasNotFound => false,
                Self::CanvasArchived => false,
                Self::CatalogLimitExceeded => false,
                Self::CatalogUnavailable => true,
                Self::CorruptedCatalog => false,
                Self::SelectionUnavailable => true,
                Self::CorruptedSelection => false,
            },
    {
        match self {
            Self::InvalidInput => false,
            Self::CanvasNotFound => false,
            Self::CanvasArchived => false,
            Self::CatalogLimitExceeded => false,
            Self::CatalogUnavailable => true,
            Self::CorruptedCatalog => false,
            Self::SelectionUnavailable => true,
            Self::CorruptedSelection => false,
        }
    }

}

#[derive(Debug, Clone, Copy, PartialEq, Eq, Structural)]
pub struct SelectCanvasUsecase;

impl SelectCanvasUsecase {
    pub fn new() -> (result: Self)
        ensures
            result == (SelectCanvasUsecase),
    {
        SelectCanvasUsecase
    }
}

impl Default for SelectCanvasUsecase {
    fn default() -> (result: Self)
        ensures
            result == (SelectCanvasUsecase),
    {
        Self::new()
    }
}

/// How this usecase reports each canvas catalog failure.
pub fn map_catalog_error(error: CanvasCatalogError) -> (result: ResolveInitialCanvasError)
    ensures
        result == match error {
            CanvasCatalogError::InvalidLimit => ResolveInitialCanvasError::InvalidInput,
            CanvasCatalogError::LimitExceeded => ResolveInitialCanvasError::CatalogLimitExceeded,
            CanvasCatalogError::StorageUnavailable => ResolveInitialCanvasError::CatalogUnavailable,
            CanvasCatalogError::CorruptedCatalog => ResolveInitialCanvasError::CorruptedCatalog,
        },
{
    match error {
        CanvasCatalogError::InvalidLimit => ResolveInitialCanvasError::InvalidInput,
        CanvasCatalogError::LimitExceeded => ResolveInitialCanvasError::CatalogLimitExceeded,
        CanvasCatalogError::StorageUnavailable => ResolveInitialCanvasError::CatalogUnavailable,
        CanvasCatalogError::CorruptedCatalog => ResolveInitialCanvasError::CorruptedCatalog,
    }
}

/// How this usecase reports each last canvas selection failure.
pub fn map_selection_error(error: LastCanvasSelectionError) -> (result: ResolveInitialCanvasError)
    ensures
        result == match error {
            LastCanvasSelectionError::StorageUnavailable => ResolveInitialCanvasError::SelectionUnavailable,
            LastCanvasSelectionError::CorruptedSelection => ResolveInitialCanvasError::CorruptedSelection,
        },
{
    match error {
        LastCanvasSelectionError::StorageUnavailable => ResolveInitialCanvasError::SelectionUnavailable,
        LastCanvasSelectionError::CorruptedSelection => ResolveInitialCanvasError::CorruptedSelection,
    }
}

/// How this usecase reports each canvas catalog failure.
pub fn map_select_catalog_error(error: CanvasCatalogError) -> (result: SelectCanvasError)
    ensures
        result == match error {
            CanvasCatalogError::InvalidLimit => SelectCanvasError::InvalidInput,
            CanvasCatalogError::LimitExceeded => SelectCanvasError::CatalogLimitExceeded,
            CanvasCatalogError::StorageUnavailable => SelectCanvasError::CatalogUnavailable,
            CanvasCatalogError::CorruptedCatalog => SelectCanvasError::CorruptedCatalog,
        },
{
    match error {
        CanvasCatalogError::InvalidLimit => SelectCanvasError::InvalidInput,
        CanvasCatalogError::LimitExceeded => SelectCanvasError::CatalogLimitExceeded,
        CanvasCatalogError::StorageUnavailable => SelectCanvasError::CatalogUnavailable,
        CanvasCatalogError::CorruptedCatalog => SelectCanvasError::CorruptedCatalog,
    }
}

/// How this usecase reports each last canvas selection failure.
pub fn map_select_selection_error(error: LastCanvasSelectionError) -> (result: SelectCanvasError)
    ensures
        result == match error {
            LastCanvasSelectionError::StorageUnavailable => SelectCanvasError::SelectionUnavailable,
            LastCanvasSelectionError::CorruptedSelection => SelectCanvasError::CorruptedSelection,
        },
{
    match error {
        LastCanvasSelectionError::StorageUnavailable => SelectCanvasError::SelectionUnavailable,
        LastCanvasSelectionError::CorruptedSelection => SelectCanvasError::CorruptedSelection,
    }
}


/// The first position whose id is the one asked for.
pub open spec fn first_position_of(ids: Seq<Seq<char>>, id: Seq<char>) -> Option<int> {
    if exists|i: int| 0 <= i < ids.len() && ids[i] == id {
        Some(choose|i: int| 0 <= i < ids.len() && ids[i] == id && forall|j: int| 0 <= j < i ==> ids[j] != id)
    } else {
        None
    }
}

/// Whether a canvas may be selected, from the request and the catalog
/// listed (its ids and whether each is archived, in order): a request with
/// an invalid id or no catalog room is invalid input; a catalog failure is
/// mapped; a canvas the catalog does not list is not found, one whose
/// first entry is archived cannot be selected.
pub fn select_canvas_check(
    ids_valid: bool,
    catalog_limit: usize,
    canvas_id: &str,
    listed: Result<(&Vec<String>, &Vec<bool>), CanvasCatalogError>,
) -> (result: Result<(), SelectCanvasError>)
    requires
        listed matches Ok((ids, archived)) ==> ids@.len() == archived@.len(),
    ensures
        result == (if !ids_valid || catalog_limit == 0 {
            Err(SelectCanvasError::InvalidInput)
        } else {
            match listed {
                Err(error) => Err(match error {
                    CanvasCatalogError::InvalidLimit => SelectCanvasError::InvalidInput,
                    CanvasCatalogError::LimitExceeded => SelectCanvasError::CatalogLimitExceeded,
                    CanvasCatalogError::StorageUnavailable => SelectCanvasError::CatalogUnavailable,
                    CanvasCatalogError::CorruptedCatalog => SelectCanvasError::CorruptedCatalog,
                }),
                Ok((ids, archived)) => match first_position_of(strings_view(ids@), canvas_id@) {
                    None => Err(SelectCanvasError::CanvasNotFound),
                    Some(i) => if archived@[i] {
                        Err(SelectCanvasError::CanvasArchived)
                    } else {
                        Ok(())
                    },
                },
            }
        }),
{
    if !ids_valid || catalog_limit == 0 {
        return Err(SelectCanvasError::InvalidInput);
    }
    match listed {
        Err(error) => Err(map_select_catalog_error(error)),
        Ok((ids, archived)) => {
            let ghost view = strings_view(ids@);
            let mut i: usize = 0;
            while i < ids.len()
                invariant
                    i <= ids@.len(),
                    ids@.len() == archived@.len(),
                    view == strings_view(ids@),
                    ids_valid && catalog_limit != 0,
                    listed == Ok::<(&Vec<String>, &Vec<bool>), CanvasCatalogError>((ids, archived)),
                    forall|j: int| 0 <= j < i ==> view[j] != canvas_id@,
                decreases ids@.len() - i,
            {
                if str_equal(ids[i].as_str(), canvas_id) {
                    assert(view[i as int] == canvas_id@);
                    let ghost k = choose|k: int| 0 <= k < view.len() && view[k] == canvas_id@ && forall|j: int| 0 <= j < k ==> view[j] != canvas_id@;
                    assert(0 <= k < view.len() && view[k] == canvas_id@ && forall|j: int| 0 <= j < k ==> view[j] != canvas_id@);
                    proof {
                        if k > i as int {
                            assert(view[i as int] != canvas_id@);
                        }
                    }
                    assert(k == i as int);
                    assert(first_position_of(view, canvas_id@) == Some(i as int));
                    if archived[i] {
                        return Err(SelectCanvasError::CanvasArchived);
                    } else {
                        return Ok(());
                    }
                }
                i = i + 1;
            }
            assert(first_position_of(view, canvas_id@) is None);
            Err(SelectCanvasError::CanvasNotFound)
        },
    }
}

/// The answer of a selection once the choice was saved (or the save failed
/// with the mapped error).
pub fn select_canvas_saved(canvas_id: &str, saved: Result<(), LastCanvasSelectionError>) -> (result: Result<SelectCanvasOutput, SelectCanvasError>)
    ensures
        saved is Ok ==> (result matches Ok(output) && output@ == canvas_id@),
        saved matches Err(error) ==> result == Err::<SelectCanvasOutput, SelectCanvasError>(match error {
            LastCanvasSelectionError::StorageUnavailable => SelectCanvasError::SelectionUnavailable,
            LastCanvasSelectionError::CorruptedSelection => SelectCanvasError::CorruptedSelection,
        }),
{
    match saved {
        Ok(()) => Ok(SelectCanvasOutput::new(canvas_id)),
        Err(error) => Err(map_select_selection_error(error)),
    }
}

} // verus!
