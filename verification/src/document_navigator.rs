use vstd::prelude::*;
use crate::text::{decimal_text_value, opt_ref_view, opt_sstr_view, parse_decimal};

verus! {

#[derive(Debug, Clone, Copy, PartialEq, Eq, Structural)]
pub enum NavigatorLoadState {
    Loading,
    Ready,
    Filtering,
    EmptyResult,
    Degraded,
    Failed,
}

#[derive(Debug, Clone, Copy, PartialEq, Eq, Structural)]
pub enum NavigatorLoadEvent {
    FilterChanged,
    ProjectionLoaded { item_count: usize, degraded: bool },
    ProjectionFailed,
}

#[derive(Debug, Clone, Copy, PartialEq, Eq)]
pub struct NavigatorLoadTransition {
    pub state: NavigatorLoadState,
    pub error_code: Option<&'static str>,
}

/// Whether the navigator still waits for a projection in this state.
pub open spec fn is_pending(state: NavigatorLoadState) -> bool {
    state == NavigatorLoadState::Loading || state == NavigatorLoadState::Filtering
}

/// The state that follows `state` on `event`.
pub open spec fn next_navigator_state(state: NavigatorLoadState, event: NavigatorLoadEvent) -> NavigatorLoadState {
    match event {
        NavigatorLoadEvent::FilterChanged => {
            if state == NavigatorLoadState::Loading {
                NavigatorLoadState::Filtering
            } else {
                NavigatorLoadState::Failed
            }
        },
        NavigatorLoadEvent::ProjectionLoaded { item_count, degraded } => {
            if !is_pending(state) {
                NavigatorLoadState::Failed
            } else if degraded {
                NavigatorLoadState::Degraded
            } else if item_count == 0 {
                NavigatorLoadState::EmptyResult
            } else {
                NavigatorLoadState::Ready
            }
        },
        NavigatorLoadEvent::ProjectionFailed => NavigatorLoadState::Failed,
    }
}

/// The error code that comes with the step from `state` on `event`.
pub open spec fn navigator_error_code(state: NavigatorLoadState, event: NavigatorLoadEvent) -> Option<Seq<char>> {
    let accepted = match event {
        NavigatorLoadEvent::FilterChanged => state == NavigatorLoadState::Loading,
        NavigatorLoadEvent::ProjectionLoaded { .. } => is_pending(state),
        NavigatorLoadEvent::ProjectionFailed => false,
    };
    if accepted {
        None
    } else if is_pending(state) && event is ProjectionFailed {
        Some("document_navigator.projection_unavailable"@)
    } else {
        Some("document_navigator.invalid_transition"@)
    }
}

/// One step of the navigator's loading state machine. Only a loading or
/// filtering navigator accepts events; a settled one answers every event with
/// a failed transition. A code comes with the result exactly when it fails.
pub fn transition_navigator_load(state: NavigatorLoadState, event: NavigatorLoadEvent) -> (result: NavigatorLoadTransition)
    ensures
        result.state == next_navigator_state(state, event),
        opt_sstr_view(result.error_code) == navigator_error_code(state, event),
        (result.error_code is Some) <==> result.state == NavigatorLoadState::Failed,
        !is_pending(state) ==> result.state == NavigatorLoadState::Failed,
        (event is ProjectionLoaded && is_pending(state)) ==> !is_pending(result.state)
            && result.state != NavigatorLoadState::Failed,
{
    let pending = match state {
        NavigatorLoadState::Loading | NavigatorLoadState::Filtering => true,
        _ => false,
    };
    match event {
        NavigatorLoadEvent::FilterChanged => {
            if let NavigatorLoadState::Loading = state {
                return transition(NavigatorLoadState::Filtering, None);
            }
        },
        NavigatorLoadEvent::ProjectionLoaded { item_count, degraded } => {
            if pending {
                if degraded {
                    return transition(NavigatorLoadState::Degraded, None);
                } else if item_count == 0 {
                    return transition(NavigatorLoadState::EmptyResult, None);
                } else {
                    return transition(NavigatorLoadState::Ready, None);
                }
            }
        },
        NavigatorLoadEvent::ProjectionFailed => {
            if pending {
                return transition(
                    NavigatorLoadState::Failed,
                    Some("document_navigator.projection_unavailable"),
                );
            }
        },
    }
    transition(NavigatorLoadState::Failed, Some("document_navigator.invalid_transition"))
}

fn transition(state: NavigatorLoadState, error_code: Option<&'static str>) -> (result: NavigatorLoadTransition)
    ensures
        result.state == state,
        result.error_code == error_code,
{
    NavigatorLoadTransition { state, error_code }
}

/// The state a navigator request starts from: a request with a filter has
/// already seen the filter change.
pub fn navigator_initial_state(has_filter: bool) -> (result: NavigatorLoadState)
    ensures
        result == (if has_filter {
            next_navigator_state(NavigatorLoadState::Loading, NavigatorLoadEvent::FilterChanged)
        } else {
            NavigatorLoadState::Loading
        }),
        is_pending(result),
{
    if has_filter {
        transition_navigator_load(NavigatorLoadState::Loading, NavigatorLoadEvent::FilterChanged).state
    } else {
        NavigatorLoadState::Loading
    }
}

/// The state a navigator request ends in once its page has been loaded.
pub fn navigator_loaded_state(has_filter: bool, item_count: usize, degraded: bool) -> (result: NavigatorLoadState)
    ensures
        result == next_navigator_state(
            navigator_initial_state_spec(has_filter),
            NavigatorLoadEvent::ProjectionLoaded { item_count, degraded },
        ),
        result == (if degraded {
            NavigatorLoadState::Degraded
        } else if item_count == 0 {
            NavigatorLoadState::EmptyResult
        } else {
            NavigatorLoadState::Ready
        }),
{
    let initial = navigator_initial_state(has_filter);
    transition_navigator_load(initial, NavigatorLoadEvent::ProjectionLoaded { item_count, degraded }).state
}

/// The state a navigator request starts from, as a spec.
pub open spec fn navigator_initial_state_spec(has_filter: bool) -> NavigatorLoadState {
    if has_filter {
        NavigatorLoadState::Filtering
    } else {
        NavigatorLoadState::Loading
    }
}

/// The `u32` that a text reads as, as `str::parse::<u32>` reads it.
pub open spec fn u32_of_text(text: Seq<char>) -> Option<u32> {
    match decimal_text_value(text) {
        Some(value) => if value <= u32::MAX {
            Some(value as u32)
        } else {
            None
        },
        None => None,
    }
}

#[derive(Debug, Clone, Copy, PartialEq, Eq, Structural)]
pub enum GetDocumentNavigatorError {
    InvalidInput,
    ProjectionUnavailable,
}

impl GetDocumentNavigatorError {
    pub fn code(self) -> (result: &'static str)
        ensures
            result@ == match self {
                Self::InvalidInput => "document_navigator.invalid_input"@,
                Self::ProjectionUnavailable => "document_navigator.projection_unavailable"@,
            },
    {
        match self {
            Self::InvalidInput => "document_navigator.invalid_input",
            Self::ProjectionUnavailable => "document_navigator.projection_unavailable",
        }
    }
}

/// The offset a navigator cursor stands for: no cursor starts at the top, and
/// a cursor that is no `u32` is refused.
pub fn navigator_offset(cursor: Option<&str>) -> (result: Result<u32, GetDocumentNavigatorError>)
    ensures
        match opt_ref_view(cursor) {
            None => result == Ok::<u32, GetDocumentNavigatorError>(0),
            Some(text) => match u32_of_text(text) {
                Some(offset) => result == Ok::<u32, GetDocumentNavigatorError>(offset),
                None => result == Err::<u32, GetDocumentNavigatorError>(GetDocumentNavigatorError::InvalidInput),
            },
        },
{
    match cursor {
        None => Ok(0),
        Some(text) => match parse_decimal(text, 4_294_967_295) {
            Some(offset) => Ok(offset as u32),
            None => Err(GetDocumentNavigatorError::InvalidInput),
        },
    }
}

#[derive(Debug, Clone, Copy, PartialEq, Eq, Structural)]
pub struct GetDocumentNavigatorUsecase;

impl GetDocumentNavigatorUsecase {
    pub fn new() -> (result: Self)
        ensures
            result == (GetDocumentNavigatorUsecase),
    {
        GetDocumentNavigatorUsecase
    }
}

impl Default for GetDocumentNavigatorUsecase {
    fn default() -> (result: Self)
        ensures
            result == (GetDocumentNavigatorUsecase),
    {
        Self::new()
    }
}

} // verus!
