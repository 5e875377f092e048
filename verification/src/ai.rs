use vstd::prelude::*;
use crate::domain_errors::AiError;
use crate::collaborator_errors::{AiAnswerStoreError, AiProviderError};
use crate::text::strings_view;
use crate::text::{chars_of, string_of};

verus! {

#[derive(Debug, Clone, Copy, PartialEq, Eq, Structural)]
pub struct BuildAiPromptReferenceUsecase;

impl BuildAiPromptReferenceUsecase {
    pub fn new() -> (result: Self)
        ensures
            result == (BuildAiPromptReferenceUsecase),
    {
        BuildAiPromptReferenceUsecase
    }
}

impl Default for BuildAiPromptReferenceUsecase {
    fn default() -> (result: Self)
        ensures
            result == (BuildAiPromptReferenceUsecase),
    {
        Self::new()
    }
}

#[derive(Debug, Clone, Copy, PartialEq, Eq, Structural)]
pub struct SummarizeRetrievalContextUsecase;

impl SummarizeRetrievalContextUsecase {
    pub fn new() -> (result: Self)
        ensures
            result == (SummarizeRetrievalContextUsecase),
    {
        SummarizeRetrievalContextUsecase
    }
}

impl Default for SummarizeRetrievalContextUsecase {
    fn default() -> (result: Self)
        ensures
            result == (SummarizeRetrievalContextUsecase),
    {
        Self::new()
    }
}

#[derive(Debug, Clone, Copy, PartialEq, Eq, Structural)]
pub struct SuggestRelatedDocumentsUsecase;

impl SuggestRelatedDocumentsUsecase {
    pub fn new() -> (result: Self)
        ensures
            result == (SuggestRelatedDocumentsUsecase),
    {
        SuggestRelatedDocumentsUsecase
    }
}

impl Default for SuggestRelatedDocumentsUsecase {
    fn default() -> (result: Self)
        ensures
            result == (SuggestRelatedDocumentsUsecase),
    {
        Self::new()
    }
}

#[derive(Debug, Clone, Copy, PartialEq, Eq, Structural)]
pub enum AiSummaryUsecaseError {
    InvalidInput,
    NoRetrievalContext,
    InvalidLimit,
    NoRecommendations,
}

impl AiSummaryUsecaseError {
    pub fn code(self) -> (result: &'static str)
        ensures
            result@ == match self {
                Self::InvalidInput => "ai_summary.invalid_input"@,
                Self::NoRetrievalContext => "ai_summary.no_retrieval_context"@,
                Self::InvalidLimit => "ai_summary.invalid_limit"@,
                Self::NoRecommendations => "ai_summary.no_recommendations"@,
            },
    {
        match self {
            Self::InvalidInput => "ai_summary.invalid_input",
            Self::NoRetrievalContext => "ai_summary.no_retrieval_context",
            Self::InvalidLimit => "ai_summary.invalid_limit",
            Self::NoRecommendations => "ai_summary.no_recommendations",
        }
    }
}

#[derive(Debug, Clone, Copy, PartialEq, Eq, Structural)]
pub struct AskKnowledgeBaseUsecase;

impl AskKnowledgeBaseUsecase {
    pub fn new() -> (result: Self)
        ensures
            result == (AskKnowledgeBaseUsecase),
    {
        AskKnowledgeBaseUsecase
    }
}

impl Default for AskKnowledgeBaseUsecase {
    fn default() -> (result: Self)
        ensures
            result == (AskKnowledgeBaseUsecase),
    {
        Self::new()
    }
}

#[derive(Debug, Clone, Copy, PartialEq, Eq, Structural)]
pub enum AskKnowledgeBaseError {
    InvalidInput,
    NoRetrievalContext,
    ProviderTimeout,
    ProviderUnavailable,
    StoreUnavailable,
    InvalidTransition,
}

impl AskKnowledgeBaseError {
    pub fn code(self) -> (result: &'static str)
        ensures
            result@ == match self {
                Self::InvalidInput => "ai_answer.invalid_input"@,
                Self::NoRetrievalContext => "ai_answer.no_retrieval_context"@,
                Self::ProviderTimeout => "ai_answer.provider_timeout"@,
                Self::ProviderUnavailable => "ai_answer.provider_unavailable"@,
                Self::StoreUnavailable => "ai_answer.store_unavailable"@,
                Self::InvalidTransition => "ai_answer.invalid_transition"@,
            },
    {
        match self {
            Self::InvalidInput => "ai_answer.invalid_input",
            Self::NoRetrievalContext => "ai_answer.no_retrieval_context",
            Self::ProviderTimeout => "ai_answer.provider_timeout",
            Self::ProviderUnavailable => "ai_answer.provider_unavailable",
            Self::StoreUnavailable => "ai_answer.store_unavailable",
            Self::InvalidTransition => "ai_answer.invalid_transition",
        }
    }
}


/// How fresh a retrieved source, or a summary built from sources, is.
#[derive(Debug, Clone, Copy, PartialEq, Eq, Structural)]
pub enum SourceFreshness {
    Fresh,
    Stale,
    Unknown,
}

/// The freshness of a summary: stale when any source is stale, else
/// unknown when any source is unknown, else fresh.
pub open spec fn summary_freshness_of(sources: Seq<SourceFreshness>) -> SourceFreshness {
    if exists|i: int| 0 <= i < sources.len() && sources[i] == SourceFreshness::Stale {
        SourceFreshness::Stale
    } else if exists|i: int| 0 <= i < sources.len() && sources[i] == SourceFreshness::Unknown {
        SourceFreshness::Unknown
    } else {
        SourceFreshness::Fresh
    }
}

/// A summary is stale as soon as one of its sources is stale; it is fresh
/// only when every source is fresh; otherwise, with no stale source and
/// some unknown one, its freshness is unknown.
pub proof fn lemma_summary_freshness_follows_sources(sources: Seq<SourceFreshness>)
    ensures
        (exists|i: int| 0 <= i < sources.len() && #[trigger] sources[i] == SourceFreshness::Stale)
            ==> summary_freshness_of(sources) == SourceFreshness::Stale,
        (summary_freshness_of(sources) == SourceFreshness::Fresh)
            <==> (forall|i: int| 0 <= i < sources.len() ==> #[trigger] sources[i] == SourceFreshness::Fresh),
        (summary_freshness_of(sources) == SourceFreshness::Unknown) <==> (
            (forall|i: int| 0 <= i < sources.len() ==> #[trigger] sources[i] != SourceFreshness::Stale)
            && (exists|j: int| 0 <= j < sources.len() && #[trigger] sources[j] == SourceFreshness::Unknown)),
{
    if forall|i: int| 0 <= i < sources.len() ==> #[trigger] sources[i] == SourceFreshness::Fresh {
        assert(!exists|i: int| 0 <= i < sources.len() && #[trigger] sources[i] == SourceFreshness::Stale);
        assert(!exists|i: int| 0 <= i < sources.len() && #[trigger] sources[i] == SourceFreshness::Unknown);
    }
    if summary_freshness_of(sources) == SourceFreshness::Fresh {
        assert forall|i: int| 0 <= i < sources.len() implies #[trigger] sources[i] == SourceFreshness::Fresh by {
            match sources[i] {
                SourceFreshness::Stale => {},
                SourceFreshness::Unknown => {},
                SourceFreshness::Fresh => {},
            }
        }
    }
}

pub fn summary_freshness(sources: &[SourceFreshness]) -> (result: SourceFreshness)
    ensures
        result == summary_freshness_of(sources@),
        (exists|i: int| 0 <= i < sources@.len() && #[trigger] sources@[i] == SourceFreshness::Stale)
            ==> result == SourceFreshness::Stale,
        (result == SourceFreshness::Fresh)
            <==> (forall|i: int| 0 <= i < sources@.len() ==> #[trigger] sources@[i] == SourceFreshness::Fresh),
{
    let mut any_unknown = false;
    let mut i: usize = 0;
    while i < sources.len()
        invariant
            i <= sources.len(),
            forall|j: int| 0 <= j < i ==> sources@[j] != SourceFreshness::Stale,
            any_unknown <==> exists|j: int| 0 <= j < i && sources@[j] == SourceFreshness::Unknown,
        decreases sources.len() - i,
    {
        match sources[i] {
            SourceFreshness::Stale => {
                return SourceFreshness::Stale;
            },
            SourceFreshness::Unknown => {
                any_unknown = true;
            },
            SourceFreshness::Fresh => {},
        }
        i = i + 1;
    }
    proof {
        lemma_summary_freshness_follows_sources(sources@);
    }
    if any_unknown {
        SourceFreshness::Unknown
    } else {
        SourceFreshness::Fresh
    }
}

/// A question can only be answered from at least one retrieved source.
pub fn check_retrieval_context(candidate_count: usize) -> (result: Result<(), AskKnowledgeBaseError>)
    ensures
        candidate_count == 0 ==> result == Err::<(), AskKnowledgeBaseError>(AskKnowledgeBaseError::NoRetrievalContext),
        candidate_count != 0 ==> result is Ok,
{
    if candidate_count == 0 {
        return Err(AskKnowledgeBaseError::NoRetrievalContext);
    }
    Ok(())
}

/// The position of the first candidate with the source id, if any.
pub open spec fn first_candidate(candidate_ids: Seq<Seq<char>>, source_id: Seq<char>) -> Option<int> {
    if candidate_ids.contains(source_id) {
        candidate_ids.index_of_first(source_id)
    } else {
        None
    }
}

/// The candidates an answer cites, in the order it cites them: for each
/// cited source that was among the candidates, the first candidate with
/// that source; cited sources that were not retrieved are dropped.
pub open spec fn cited_candidates_of(cited: Seq<Seq<char>>, candidate_ids: Seq<Seq<char>>) -> Seq<int>
    decreases cited.len(),
{
    if cited.len() == 0 {
        Seq::empty()
    } else {
        let before = cited_candidates_of(cited.drop_last(), candidate_ids);
        match first_candidate(candidate_ids, cited.last()) {
            Some(index) => before.push(index),
            None => before,
        }
    }
}

fn find_candidate(candidate_ids: &[String], source_id: &str) -> (result: Option<usize>)
    ensures
        match result {
            Some(index) => first_candidate(strings_view(candidate_ids@), source_id@) == Some(index as int),
            None => first_candidate(strings_view(candidate_ids@), source_id@) is None,
        },
{
    let ghost ids = strings_view(candidate_ids@);
    let mut i: usize = 0;
    while i < candidate_ids.len()
        invariant
            i <= candidate_ids.len(),
            ids == strings_view(candidate_ids@),
            forall|j: int| 0 <= j < i ==> ids[j] != source_id@,
        decreases candidate_ids.len() - i,
    {
        assert(ids[i as int] == candidate_ids@[i as int]@);
        if crate::text::str_equal(candidate_ids[i].as_str(), source_id) {
            proof {
                ids.index_of_first_ensures(source_id@);
            }
            return Some(i);
        }
        i = i + 1;
    }
    None
}

/// The candidates an answer cites, as [`cited_candidates_of`] says.
pub fn cited_candidates(cited_source_ids: &[String], candidate_ids: &[String]) -> (result: Vec<usize>)
    ensures
        result@.map_values(|i: usize| i as int) == cited_candidates_of(strings_view(cited_source_ids@), strings_view(candidate_ids@)),
{
    let ghost cited = strings_view(cited_source_ids@);
    let mut result: Vec<usize> = Vec::new();
    let mut k: usize = 0;
    assert(cited.subrange(0, 0) =~= Seq::<Seq<char>>::empty());
    assert(result@.map_values(|i: usize| i as int) =~= Seq::<int>::empty());
    while k < cited_source_ids.len()
        invariant
            k <= cited_source_ids.len(),
            cited == strings_view(cited_source_ids@),
            result@.map_values(|i: usize| i as int) == cited_candidates_of(cited.subrange(0, k as int), strings_view(candidate_ids@)),
        decreases cited_source_ids.len() - k,
    {
        assert(cited.subrange(0, k + 1).drop_last() =~= cited.subrange(0, k as int));
        assert(cited.subrange(0, k + 1).last() == cited_source_ids@[k as int]@);
        match find_candidate(candidate_ids, cited_source_ids[k].as_str()) {
            Some(index) => {
                let ghost before = result@;
                result.push(index);
                assert(result@.map_values(|i: usize| i as int) =~= before.map_values(|i: usize| i as int).push(index as int));
            },
            None => {},
        }
        k = k + 1;
    }
    assert(cited.subrange(0, cited_source_ids.len() as int) =~= cited);
    result
}

/// The steps of an answer job, as the job records them.
#[derive(Debug, Clone, Copy, PartialEq, Eq, Structural)]
pub enum AnswerJobStep {
    PrepareRetrieval,
    RequestProvider,
    ScheduleRetry,
    Fail,
    ValidateCitations,
    Complete,
    Refuse,
}

/// What the provider made of a question.
#[derive(Debug, Clone, Copy, PartialEq, Eq, Structural)]
pub enum ProviderOutcome {
    /// It answered, citing this many of the retrieved sources.
    Answered { valid_citations: usize },
    /// It refused to answer.
    Refused,
    /// It failed in a way worth retrying.
    RetryableFailure,
    /// It failed for good.
    Failure,
}

/// The steps an answer job takes after it is created: it prepares the
/// retrieval and asks the provider; a retryable failure schedules a retry,
/// another failure fails the job; an answer is validated, and completes
/// when it cites a retrieved source, else is refused, like a refusal.
pub open spec fn answer_job_steps(outcome: ProviderOutcome) -> Seq<AnswerJobStep> {
    let asked = seq![AnswerJobStep::PrepareRetrieval, AnswerJobStep::RequestProvider];
    match outcome {
        ProviderOutcome::RetryableFailure => asked.push(AnswerJobStep::ScheduleRetry),
        ProviderOutcome::Failure => asked.push(AnswerJobStep::Fail),
        ProviderOutcome::Refused => asked.push(AnswerJobStep::ValidateCitations).push(AnswerJobStep::Refuse),
        ProviderOutcome::Answered { valid_citations } => if valid_citations == 0 {
            asked.push(AnswerJobStep::ValidateCitations).push(AnswerJobStep::Refuse)
        } else {
            asked.push(AnswerJobStep::ValidateCitations).push(AnswerJobStep::Complete)
        },
    }
}

pub fn answer_job_plan(outcome: ProviderOutcome) -> (result: Vec<AnswerJobStep>)
    ensures
        result@ == answer_job_steps(outcome),
{
    let mut steps = vec![AnswerJobStep::PrepareRetrieval, AnswerJobStep::RequestProvider];
    match outcome {
        ProviderOutcome::RetryableFailure => steps.push(AnswerJobStep::ScheduleRetry),
        ProviderOutcome::Failure => steps.push(AnswerJobStep::Fail),
        ProviderOutcome::Refused => {
            steps.push(AnswerJobStep::ValidateCitations);
            steps.push(AnswerJobStep::Refuse);
        },
        ProviderOutcome::Answered { valid_citations } => {
            steps.push(AnswerJobStep::ValidateCitations);
            if valid_citations == 0 {
                steps.push(AnswerJobStep::Refuse);
            } else {
                steps.push(AnswerJobStep::Complete);
            }
        },
    }
    steps
}

/// The refusal reason of an answer that cites no retrieved source.
pub fn no_valid_citation_reason() -> (result: &'static str)
    ensures
        result == "ai.refusal.no_valid_citation",
        result@ == "ai.refusal.no_valid_citation"@,
{
    "ai.refusal.no_valid_citation"
}




impl AskKnowledgeBaseError {
    /// What `from_domain_error` gives for each value.
    pub open spec fn from_domain_error_spec(error: AiError) -> Self {
        match error {
            AiError::EmptyQuestion | AiError::InvalidQuestion | AiError::InvalidAnswerReference | AiError::CitationRequired | AiError::InvalidSummaryReference | AiError::SummaryCitationRequired | AiError::InvalidRecommendationReason | AiError::InvalidRefusalReason | AiError::InvalidAnswerJobId => Self::InvalidInput,
            AiError::InvalidAnswerJobTransition => Self::InvalidTransition,
        }
    }

    /// How this usecase reports each ai failure.
    #[verifier::when_used_as_spec(from_domain_error_spec)]
    pub fn from_domain_error(error: AiError) -> (result: Self)
        ensures
            result == Self::from_domain_error_spec(error),
    {
        match error {
            AiError::EmptyQuestion | AiError::InvalidQuestion | AiError::InvalidAnswerReference | AiError::CitationRequired | AiError::InvalidSummaryReference | AiError::SummaryCitationRequired | AiError::InvalidRecommendationReason | AiError::InvalidRefusalReason | AiError::InvalidAnswerJobId => Self::InvalidInput,
            AiError::InvalidAnswerJobTransition => Self::InvalidTransition,
        }
    }
}

impl AskKnowledgeBaseError {
    /// What `from_provider_error` gives for each value.
    pub open spec fn from_provider_error_spec(error: AiProviderError) -> Self {
        match error {
            AiProviderError::Timeout => Self::ProviderTimeout,
            AiProviderError::ProviderUnavailable => Self::ProviderUnavailable,
            AiProviderError::InvalidPromptReference | AiProviderError::SensitivePromptReference | AiProviderError::MissingCitationContext | AiProviderError::InvalidPolicy => Self::InvalidInput,
        }
    }

    /// How this usecase reports each ai provider failure.
    #[verifier::when_used_as_spec(from_provider_error_spec)]
    pub fn from_provider_error(error: AiProviderError) -> (result: Self)
        ensures
            result == Self::from_provider_error_spec(error),
    {
        match error {
            AiProviderError::Timeout => Self::ProviderTimeout,
            AiProviderError::ProviderUnavailable => Self::ProviderUnavailable,
            AiProviderError::InvalidPromptReference | AiProviderError::SensitivePromptReference | AiProviderError::MissingCitationContext | AiProviderError::InvalidPolicy => Self::InvalidInput,
        }
    }
}

impl AskKnowledgeBaseError {
    /// What `from_store_error` gives for each value.
    pub open spec fn from_store_error_spec(error: AiAnswerStoreError) -> Self {
        match error {
            AiAnswerStoreError::StoreUnavailable => Self::StoreUnavailable,
        }
    }

    /// How this usecase reports each ai answer store failure.
    #[verifier::when_used_as_spec(from_store_error_spec)]
    pub fn from_store_error(error: AiAnswerStoreError) -> (result: Self)
        ensures
            result == Self::from_store_error_spec(error),
    {
        match error {
            AiAnswerStoreError::StoreUnavailable => Self::StoreUnavailable,
        }
    }
}


/// What a question works on: the answer job it runs and the identifiers of
/// the retrieved candidates, in order.
#[derive(Debug, Clone, PartialEq, Eq)]
pub struct AskRun {
    pub job_id: String,
    pub candidate_ids: Vec<String>,
}

/// How an answer is concluded.
#[derive(Debug, Clone, Copy, PartialEq, Eq)]
pub enum AskConclusion {
    /// Completed with this many citations, those of `cited_candidates`.
    Complete(usize),
    /// Refused with this reason code: the answer cites no retrieved source.
    RefuseWithReason(&'static str),
    /// Refused with the provider's own refusal.
    RefuseAsProvider,
}

/// A call a question to the knowledge base makes to the outside world.
#[derive(Debug, Clone, Copy, PartialEq, Eq)]
pub enum AskCall {
    /// Create the answer job for the question and save its status.
    CreateJob,
    /// Move the job on by the step and save its status.
    Record(AnswerJobStep),
    /// Build the provider request from the candidates and ask the provider.
    Generate,
    /// Build the job's result as the conclusion says and move the job on by
    /// its step (complete or refuse), without saving the status yet.
    Conclude(AskConclusion),
    /// Save the result of the conclusion.
    SaveResult,
    /// Save the state the conclusion reached.
    SaveStatus,
}

/// What came back from the last call of a question; `S` is an answer job
/// state and `R` an answer result, as the job rules give them.
#[derive(Debug, Clone, Copy, PartialEq, Eq)]
pub enum AskReply<S, R> {
    Done,
    /// The job moved to this state (and its status was saved).
    Recorded(S),
    /// The conclusion built this result and reached this state.
    Concluded(S, R),
    /// A job rule refused the value or the transition.
    DomainRefused(AiError),
    /// The answer store failed.
    StoreFailed(AiAnswerStoreError),
    /// The provider request could not be built.
    RequestRejected(AiProviderError),
    /// The provider answered, citing this many retrieved sources (see
    /// `answered_reply`).
    Answered(usize),
    /// The provider refused to answer.
    ProviderRefused,
    /// The provider failed, in a way worth retrying or not.
    ProviderFailed(AiProviderError, bool),
}

/// What a question reports when it does not fail: the job, its state, its
/// result if it has one, and how many citations the result holds.
#[derive(Debug, Clone, PartialEq, Eq)]
pub struct AskOutcome<S, R> {
    pub job_id: String,
    pub state: S,
    pub result: Option<R>,
    pub citation_count: usize,
}

/// Where a question stands: the call whose reply is awaited.
#[derive(Debug, PartialEq, Eq)]
pub enum AskStep<S, R> {
    CreatingJob,
    Recording(AnswerJobStep),
    Generating,
    /// Recording the failure of the provider, which then ends the question.
    RecordingFailure(AiProviderError),
    /// Recording the validation of an answer citing this many sources (or
    /// of a refusal, `None`).
    Validating(Option<usize>),
    Concluding(AskConclusion),
    SavingResult(AskConclusion, S, R),
    SavingStatus(AskConclusion, S, R),
}

/// What a question does next.
#[derive(Debug, PartialEq, Eq)]
pub enum AskAction<S, R> {
    Call(AskCall),
    Finish(Result<AskOutcome<S, R>, AskKnowledgeBaseError>),
}

/// The reply for an answer that cites these sources: it cites as many
/// retrieved sources as `cited_candidates` finds.
pub fn answered_reply<S, R>(cited_source_ids: &[String], candidate_ids: &[String]) -> (result: AskReply<S, R>)
    ensures
        result == AskReply::<S, R>::Answered(
            cited_candidates_of(strings_view(cited_source_ids@), strings_view(candidate_ids@)).len() as usize,
        ),
{
    let cited = cited_candidates(cited_source_ids, candidate_ids);
    proof {
        assert(cited@.map_values(|i: usize| i as int).len() == cited@.len());
    }
    AskReply::Answered(cited.len())
}

/// How a question starts: without retrieved sources it is refused, else the
/// answer job is created.
pub open spec fn ask_start<S, R>(run: AskRun) -> (AskStep<S, R>, AskAction<S, R>) {
    if run.candidate_ids@.len() == 0 {
        (AskStep::CreatingJob, AskAction::Finish(Err(AskKnowledgeBaseError::NoRetrievalContext)))
    } else {
        (AskStep::CreatingJob, AskAction::Call(AskCall::CreateJob))
    }
}

/// How an answer validated with this many citations (`None`: refused by the
/// provider) is concluded: refused by the provider, refused for citing no
/// retrieved source, or completed with its citations.
pub open spec fn conclusion(citations: Option<usize>) -> AskConclusion {
    match citations {
        None => AskConclusion::RefuseAsProvider,
        Some(count) => if count == 0 {
            AskConclusion::RefuseWithReason("ai.refusal.no_valid_citation")
        } else {
            AskConclusion::Complete(count)
        },
    }
}

/// How many citations a concluded answer holds.
pub open spec fn conclusion_citations(conclusion: AskConclusion) -> usize {
    match conclusion {
        AskConclusion::Complete(count) => count,
        _ => 0,
    }
}

/// One step of a question: the job is created, retrieval prepared and the
/// provider requested, each saved as it happens; a retryable provider
/// failure records a scheduled retry and ends with the job in the retry
/// state, no result and no citation; any other provider failure records the
/// failure and ends with it; an answer or a refusal is validated, then
/// concluded (completed with the citations `cited_candidates` finds, refused
/// with `ai.refusal.no_valid_citation` when it finds none, or refused as the
/// provider refused), its result saved and its state saved, and it ends
/// with that state, that result and its citation count. A refused rule, a
/// failed store or a request that could not be built ends the question with
/// its error.
pub open spec fn ask_transition<S, R>(run: AskRun, step: AskStep<S, R>, reply: AskReply<S, R>) -> (AskStep<S, R>, AskAction<S, R>) {
    match reply {
        AskReply::DomainRefused(error) => (AskStep::Generating, AskAction::Finish(Err(AskKnowledgeBaseError::from_domain_error(error)))),
        AskReply::StoreFailed(error) => (AskStep::Generating, AskAction::Finish(Err(AskKnowledgeBaseError::from_store_error(error)))),
        AskReply::RequestRejected(error) => (AskStep::Generating, AskAction::Finish(Err(AskKnowledgeBaseError::from_provider_error(error)))),
        AskReply::ProviderFailed(error, retryable) => if retryable {
            (AskStep::Recording(AnswerJobStep::ScheduleRetry), AskAction::Call(AskCall::Record(AnswerJobStep::ScheduleRetry)))
        } else {
            (AskStep::RecordingFailure(error), AskAction::Call(AskCall::Record(AnswerJobStep::Fail)))
        },
        AskReply::Answered(citations) => (AskStep::Validating(Some(citations)), AskAction::Call(AskCall::Record(AnswerJobStep::ValidateCitations))),
        AskReply::ProviderRefused => (AskStep::Validating(None), AskAction::Call(AskCall::Record(AnswerJobStep::ValidateCitations))),
        AskReply::Concluded(state, result) => match step {
            AskStep::Concluding(c) => (AskStep::SavingResult(c, state, result), AskAction::Call(AskCall::SaveResult)),
            _ => (AskStep::Generating, AskAction::Finish(Err(AskKnowledgeBaseError::InvalidTransition))),
        },
        AskReply::Recorded(state) => match step {
            AskStep::Recording(AnswerJobStep::PrepareRetrieval) => (
                AskStep::Recording(AnswerJobStep::RequestProvider),
                AskAction::Call(AskCall::Record(AnswerJobStep::RequestProvider)),
            ),
            AskStep::Recording(AnswerJobStep::RequestProvider) => (AskStep::Generating, AskAction::Call(AskCall::Generate)),
            AskStep::RecordingFailure(error) => (AskStep::Generating, AskAction::Finish(Err(AskKnowledgeBaseError::from_provider_error(error)))),
            AskStep::Validating(citations) => (
                AskStep::Concluding(conclusion(citations)),
                AskAction::Call(AskCall::Conclude(conclusion(citations))),
            ),
            _ => (AskStep::Generating, AskAction::Finish(Ok(AskOutcome {
                job_id: run.job_id,
                state,
                result: None,
                citation_count: 0,
            }))),
        },
        AskReply::Done => match step {
            AskStep::CreatingJob => (
                AskStep::Recording(AnswerJobStep::PrepareRetrieval),
                AskAction::Call(AskCall::Record(AnswerJobStep::PrepareRetrieval)),
            ),
            AskStep::SavingResult(c, state, result) => (AskStep::SavingStatus(c, state, result), AskAction::Call(AskCall::SaveStatus)),
            AskStep::SavingStatus(c, state, result) => (AskStep::Generating, AskAction::Finish(Ok(AskOutcome {
                job_id: run.job_id,
                state,
                result: Some(result),
                citation_count: conclusion_citations(c),
            }))),
            _ => (AskStep::Generating, AskAction::Finish(Err(AskKnowledgeBaseError::InvalidTransition))),
        },
    }
}

/// The reply can answer the call of the step.
pub open spec fn ask_reply_fits<S, R>(step: AskStep<S, R>, reply: AskReply<S, R>) -> bool {
    &&& reply is Answered || reply is ProviderRefused || reply is ProviderFailed || reply is RequestRejected
        ==> step is Generating
    &&& reply is Recorded ==> step is Recording || step is RecordingFailure || step is Validating
    &&& step is Recording ==> step->Recording_0 == AnswerJobStep::PrepareRetrieval
        || step->Recording_0 == AnswerJobStep::RequestProvider || step->Recording_0 == AnswerJobStep::ScheduleRetry
    &&& reply is Concluded ==> step is Concluding
    &&& reply is Done ==> step is CreatingJob || step is SavingResult || step is SavingStatus
}

/// Starts a question, as `ask_start` describes.
pub fn ask_begin<S, R>(run: &AskRun) -> (result: (AskStep<S, R>, AskAction<S, R>))
    ensures
        result == ask_start::<S, R>(*run),
{
    if run.candidate_ids.len() == 0 {
        (AskStep::CreatingJob, AskAction::Finish(Err(AskKnowledgeBaseError::NoRetrievalContext)))
    } else {
        (AskStep::CreatingJob, AskAction::Call(AskCall::CreateJob))
    }
}

/// Takes the reply to the last call of a question and says what comes
/// next, as `ask_transition` describes.
pub fn ask_next<S, R>(run: &AskRun, step: AskStep<S, R>, reply: AskReply<S, R>) -> (result: (AskStep<S, R>, AskAction<S, R>))
    requires
        ask_reply_fits(step, reply),
    ensures
        result == ask_transition(*run, step, reply),
{
    match reply {
        AskReply::DomainRefused(error) => (AskStep::Generating, AskAction::Finish(Err(AskKnowledgeBaseError::from_domain_error(error)))),
        AskReply::StoreFailed(error) => (AskStep::Generating, AskAction::Finish(Err(AskKnowledgeBaseError::from_store_error(error)))),
        AskReply::RequestRejected(error) => (AskStep::Generating, AskAction::Finish(Err(AskKnowledgeBaseError::from_provider_error(error)))),
        AskReply::ProviderFailed(error, retryable) => if retryable {
            (AskStep::Recording(AnswerJobStep::ScheduleRetry), AskAction::Call(AskCall::Record(AnswerJobStep::ScheduleRetry)))
        } else {
            (AskStep::RecordingFailure(error), AskAction::Call(AskCall::Record(AnswerJobStep::Fail)))
        },
        AskReply::Answered(citations) => (AskStep::Validating(Some(citations)), AskAction::Call(AskCall::Record(AnswerJobStep::ValidateCitations))),
        AskReply::ProviderRefused => (AskStep::Validating(None), AskAction::Call(AskCall::Record(AnswerJobStep::ValidateCitations))),
        AskReply::Concluded(state, result) => match step {
            AskStep::Concluding(c) => (AskStep::SavingResult(c, state, result), AskAction::Call(AskCall::SaveResult)),
            _ => (AskStep::Generating, AskAction::Finish(Err(AskKnowledgeBaseError::InvalidTransition))),
        },
        AskReply::Recorded(state) => match step {
            AskStep::Recording(AnswerJobStep::PrepareRetrieval) => (
                AskStep::Recording(AnswerJobStep::RequestProvider),
                AskAction::Call(AskCall::Record(AnswerJobStep::RequestProvider)),
            ),
            AskStep::Recording(AnswerJobStep::RequestProvider) => (AskStep::Generating, AskAction::Call(AskCall::Generate)),
            AskStep::RecordingFailure(error) => (AskStep::Generating, AskAction::Finish(Err(AskKnowledgeBaseError::from_provider_error(error)))),
            AskStep::Validating(citations) => {
                let c = match citations {
                    None => AskConclusion::RefuseAsProvider,
                    Some(count) => if count == 0 {
                        AskConclusion::RefuseWithReason(no_valid_citation_reason())
                    } else {
                        AskConclusion::Complete(count)
                    },
                };
                (AskStep::Concluding(c), AskAction::Call(AskCall::Conclude(c)))
            },
            _ => (AskStep::Generating, AskAction::Finish(Ok(AskOutcome {
                job_id: run.job_id.clone(),
                state,
                result: None,
                citation_count: 0,
            }))),
        },
        AskReply::Done => match step {
            AskStep::CreatingJob => (
                AskStep::Recording(AnswerJobStep::PrepareRetrieval),
                AskAction::Call(AskCall::Record(AnswerJobStep::PrepareRetrieval)),
            ),
            AskStep::SavingResult(c, state, result) => (AskStep::SavingStatus(c, state, result), AskAction::Call(AskCall::SaveStatus)),
            AskStep::SavingStatus(c, state, result) => {
                let count = match c {
                    AskConclusion::Complete(count) => count,
                    _ => 0,
                };
                (AskStep::Generating, AskAction::Finish(Ok(AskOutcome {
                    job_id: run.job_id.clone(),
                    state,
                    result: Some(result),
                    citation_count: count,
                })))
            },
            _ => (AskStep::Generating, AskAction::Finish(Err(AskKnowledgeBaseError::InvalidTransition))),
        },
    }
}

/// Whether the reply can answer the call of the step, as `ask_reply_fits`
/// says; a runner checks this before it hands the reply on.
pub fn check_ask_reply<S, R>(step: &AskStep<S, R>, reply: &AskReply<S, R>) -> (result: bool)
    ensures
        result == ask_reply_fits(*step, *reply),
{
    let from_provider = match reply {
        AskReply::Answered(_) | AskReply::ProviderRefused | AskReply::ProviderFailed(_, _) | AskReply::RequestRejected(_) => true,
        _ => false,
    };
    let step_ok = match step {
        AskStep::Recording(s) => match s {
            AnswerJobStep::PrepareRetrieval | AnswerJobStep::RequestProvider | AnswerJobStep::ScheduleRetry => true,
            _ => false,
        },
        _ => true,
    };
    let reply_ok = match reply {
        AskReply::Recorded(_) => match step {
            AskStep::Recording(_) | AskStep::RecordingFailure(_) | AskStep::Validating(_) => true,
            _ => false,
        },
        AskReply::Concluded(_, _) => match step {
            AskStep::Concluding(_) => true,
            _ => false,
        },
        AskReply::Done => match step {
            AskStep::CreatingJob | AskStep::SavingResult(_, _, _) | AskStep::SavingStatus(_, _, _) => true,
            _ => false,
        },
        _ => true,
    };
    let generating = match step {
        AskStep::Generating => true,
        _ => false,
    };
    (!from_provider || generating) && step_ok && reply_ok
}


/// The job step a call of a question records, if it records one.
pub open spec fn recorded_job_step(call: AskCall) -> Option<AnswerJobStep> {
    match call {
        AskCall::Record(step) => Some(step),
        AskCall::Conclude(AskConclusion::Complete(_)) => Some(AnswerJobStep::Complete),
        AskCall::Conclude(_) => Some(AnswerJobStep::Refuse),
        _ => None,
    }
}

/// Drives a question from `step`, answering its calls with the replies from
/// index `at` on: the job steps its calls record, in order, and how it
/// ended (`None`: the replies ran out first).
pub open spec fn ask_replay<S, R>(run: AskRun, step: AskStep<S, R>, replies: Seq<AskReply<S, R>>, at: int) -> (
    Seq<AnswerJobStep>,
    Option<Result<AskOutcome<S, R>, AskKnowledgeBaseError>>,
)
    decreases replies.len() - at,
{
    if at < 0 || at >= replies.len() {
        (Seq::empty(), None)
    } else {
        let (next, action) = ask_transition(run, step, replies[at]);
        match action {
            AskAction::Finish(result) => (Seq::empty(), Some(result)),
            AskAction::Call(call) => {
                let rest = ask_replay(run, next, replies, at + 1);
                (
                    match recorded_job_step(call) {
                        Some(job_step) => seq![job_step] + rest.0,
                        None => rest.0,
                    },
                    rest.1,
                )
            },
        }
    }
}

/// The replies of a question whose calls go through and whose provider
/// does as `outcome` says: each job step is recorded as `state`, a failing
/// provider fails with `error`, and a concluded answer is `answer`.
pub open spec fn ask_replies<S, R>(outcome: ProviderOutcome, state: S, answer: R, error: AiProviderError) -> Seq<AskReply<S, R>> {
    let asked = seq![AskReply::Done, AskReply::Recorded(state), AskReply::Recorded(state)];
    match outcome {
        ProviderOutcome::RetryableFailure => asked + seq![AskReply::ProviderFailed(error, true), AskReply::Recorded(state)],
        ProviderOutcome::Failure => asked + seq![AskReply::ProviderFailed(error, false), AskReply::Recorded(state)],
        ProviderOutcome::Refused => asked + seq![
            AskReply::ProviderRefused,
            AskReply::Recorded(state),
            AskReply::Concluded(state, answer),
            AskReply::Done,
            AskReply::Done,
        ],
        ProviderOutcome::Answered { valid_citations } => asked + seq![
            AskReply::Answered(valid_citations),
            AskReply::Recorded(state),
            AskReply::Concluded(state, answer),
            AskReply::Done,
            AskReply::Done,
        ],
    }
}

/// A question whose provider does as `outcome` says records, after its job
/// is created, exactly the job steps `answer_job_steps(outcome)` lists, and
/// then ends.
#[verifier::spinoff_prover]
pub proof fn lemma_ask_records_job_steps<S, R>(run: AskRun, outcome: ProviderOutcome, state: S, answer: R, error: AiProviderError)
    ensures
        ask_replay(run, AskStep::CreatingJob, ask_replies(outcome, state, answer, error), 0).0 == answer_job_steps(outcome),
        ask_replay(run, AskStep::CreatingJob, ask_replies(outcome, state, answer, error), 0).1 is Some,
{
    reveal_with_fuel(ask_replay, 9);
    match outcome {
        ProviderOutcome::RetryableFailure => {
            assert(ask_replies(outcome, state, answer, error) =~= seq![
                AskReply::Done, AskReply::Recorded(state), AskReply::Recorded(state),
                AskReply::ProviderFailed(error, true), AskReply::Recorded(state),
            ]);
        },
        ProviderOutcome::Failure => {
            assert(ask_replies(outcome, state, answer, error) =~= seq![
                AskReply::Done, AskReply::Recorded(state), AskReply::Recorded(state),
                AskReply::ProviderFailed(error, false), AskReply::Recorded(state),
            ]);
        },
        ProviderOutcome::Refused => {
            assert(ask_replies(outcome, state, answer, error) =~= seq![
                AskReply::Done, AskReply::Recorded(state), AskReply::Recorded(state),
                AskReply::ProviderRefused, AskReply::Recorded(state), AskReply::Concluded(state, answer),
                AskReply::Done, AskReply::Done,
            ]);
        },
        ProviderOutcome::Answered { valid_citations } => {
            assert(ask_replies(outcome, state, answer, error) =~= seq![
                AskReply::Done, AskReply::Recorded(state), AskReply::Recorded(state),
                AskReply::Answered(valid_citations), AskReply::Recorded(state), AskReply::Concluded(state, answer),
                AskReply::Done, AskReply::Done,
            ]);
        },
    }
}


/// The positions of the first `limit` documents among the first `n`
/// retrieved candidates (`is_document` says which are documents), in order.
pub open spec fn document_picks(is_document: Seq<bool>, n: int, limit: nat) -> Seq<usize>
    decreases n,
{
    if n <= 0 {
        Seq::empty()
    } else {
        let before = document_picks(is_document, n - 1, limit);
        if is_document[n - 1] && before.len() < limit {
            before.push((n - 1) as usize)
        } else {
            before
        }
    }
}

/// Which retrieved candidates a suggestion of related documents recommends:
/// the first `limit` documents among them, in order; a limit of zero is
/// refused, and no document at all leaves nothing to recommend.
pub fn related_document_picks(is_document: &[bool], limit: usize) -> (result: Result<Vec<usize>, AiSummaryUsecaseError>)
    ensures
        limit == 0 ==> result == Err::<Vec<usize>, AiSummaryUsecaseError>(AiSummaryUsecaseError::InvalidLimit),
        limit > 0 && document_picks(is_document@, is_document@.len() as int, limit as nat).len() == 0
            ==> result == Err::<Vec<usize>, AiSummaryUsecaseError>(AiSummaryUsecaseError::NoRecommendations),
        limit > 0 && document_picks(is_document@, is_document@.len() as int, limit as nat).len() > 0
            ==> (result matches Ok(picks) && picks@ == document_picks(is_document@, is_document@.len() as int, limit as nat)),
{
    if limit == 0 {
        return Err(AiSummaryUsecaseError::InvalidLimit);
    }
    let mut picks: Vec<usize> = Vec::new();
    let mut i: usize = 0;
    while i < is_document.len()
        invariant
            i <= is_document@.len(),
            picks@ == document_picks(is_document@, i as int, limit as nat),
            picks@.len() <= limit,
        decreases is_document@.len() - i,
    {
        if is_document[i] && picks.len() < limit {
            picks.push(i);
        }
        i = i + 1;
    }
    if picks.len() == 0 {
        Err(AiSummaryUsecaseError::NoRecommendations)
    } else {
        Ok(picks)
    }
}


/// A suggestion recommends at most `limit` candidates, each a document,
/// each once, in the order they were retrieved.
pub proof fn lemma_document_picks_are_documents_in_order(is_document: Seq<bool>, n: int, limit: nat)
    requires
        0 <= n <= is_document.len() <= usize::MAX,
    ensures
        document_picks(is_document, n, limit).len() <= limit,
        forall|k: int| 0 <= k < document_picks(is_document, n, limit).len() ==> {
            let p = #[trigger] document_picks(is_document, n, limit)[k];
            p < n && is_document[p as int]
        },
        forall|j: int, k: int| 0 <= j < k < document_picks(is_document, n, limit).len()
            ==> document_picks(is_document, n, limit)[j] < document_picks(is_document, n, limit)[k],
    decreases n,
{
    if n > 0 {
        lemma_document_picks_are_documents_in_order(is_document, n - 1, limit);
        let before = document_picks(is_document, n - 1, limit);
        let now = document_picks(is_document, n, limit);
        assert forall|j: int, k: int| 0 <= j < k < now.len() implies now[j] < now[k] by {
            if is_document[n - 1] && before.len() < limit {
                assert(now == before.push((n - 1) as usize));
                if k == before.len() {
                    assert(now[k] == (n - 1) as usize);
                    assert(now[j] == before[j]);
                    let p = before[j];
                    assert(p < n - 1);
                } else {
                    assert(now[j] == before[j] && now[k] == before[k]);
                }
            } else {
                assert(now == before);
            }
        }
    }
}


/// The digit character of a value below ten.
pub open spec fn digit_char(d: nat) -> char {
    if d == 0 { '0' } else if d == 1 { '1' } else if d == 2 { '2' } else if d == 3 { '3' } else if d == 4 { '4' }
    else if d == 5 { '5' } else if d == 6 { '6' } else if d == 7 { '7' } else if d == 8 { '8' } else { '9' }
}

/// The decimal digits of a number, most significant first, without
/// leading zeros (`0` for zero).
pub open spec fn decimal_digits(n: nat) -> Seq<char>
    decreases n,
{
    if n < 10 {
        seq![digit_char(n)]
    } else {
        decimal_digits(n / 10).push(digit_char(n % 10))
    }
}

fn push_digit(d: usize, out: &mut Vec<char>)
    requires
        d < 10,
    ensures
        final(out)@ == old(out)@.push(digit_char(d as nat)),
{
    let c = if d == 0 { '0' } else if d == 1 { '1' } else if d == 2 { '2' } else if d == 3 { '3' } else if d == 4 { '4' }
        else if d == 5 { '5' } else if d == 6 { '6' } else if d == 7 { '7' } else if d == 8 { '8' } else { '9' };
    out.push(c);
}

fn push_decimal(n: usize, out: &mut Vec<char>)
    ensures
        final(out)@ == old(out)@ + decimal_digits(n as nat),
    decreases n,
{
    if n >= 10 {
        push_decimal(n / 10, out);
    }
    push_digit(n % 10, out);
    proof {
        assert(old(out)@ + decimal_digits(n as nat) =~= if n >= 10 {
            (old(out)@ + decimal_digits((n / 10) as nat)).push(digit_char((n % 10) as nat))
        } else {
            old(out)@.push(digit_char(n as nat))
        });
    }
}

/// The text of the prompt reference of a question: `prompt:`, the job id,
/// `:retrieval-citations:` and the number of retrieved candidates in
/// decimal; a question with no retrieved candidate has no retrieval
/// context.
pub fn prompt_reference_text(job_id: &str, candidate_count: usize) -> (result: Result<String, AskKnowledgeBaseError>)
    ensures
        candidate_count == 0 ==> result == Err::<String, AskKnowledgeBaseError>(AskKnowledgeBaseError::NoRetrievalContext),
        candidate_count > 0 ==> (result matches Ok(text)
            && text@ == "prompt:"@ + job_id@ + ":retrieval-citations:"@ + decimal_digits(candidate_count as nat)),
{
    if candidate_count == 0 {
        return Err(AskKnowledgeBaseError::NoRetrievalContext);
    }
    let mut chars = chars_of("prompt:");
    let job = chars_of(job_id);
    let mut k: usize = 0;
    let ghost start = chars@;
    while k < job.len()
        invariant
            k <= job@.len(),
            chars@ == start + job@.subrange(0, k as int),
        decreases job@.len() - k,
    {
        chars.push(job[k]);
        assert(job@.subrange(0, k + 1) =~= job@.subrange(0, k as int).push(job@[k as int]));
        k = k + 1;
    }
    assert(job@.subrange(0, job@.len() as int) =~= job@);
    let middle = chars_of(":retrieval-citations:");
    let ghost before_middle = chars@;
    let mut m: usize = 0;
    while m < middle.len()
        invariant
            m <= middle@.len(),
            chars@ == before_middle + middle@.subrange(0, m as int),
        decreases middle@.len() - m,
    {
        chars.push(middle[m]);
        assert(middle@.subrange(0, m + 1) =~= middle@.subrange(0, m as int).push(middle@[m as int]));
        m = m + 1;
    }
    assert(middle@.subrange(0, middle@.len() as int) =~= middle@);
    push_decimal(candidate_count, &mut chars);
    let text = string_of(chars.as_slice());
    proof {
        reveal_strlit("prompt:");
        reveal_strlit(":retrieval-citations:");
    }
    assert(text@ =~= "prompt:"@ + job_id@ + ":retrieval-citations:"@ + decimal_digits(candidate_count as nat));
    Ok(text)
}

/// The freshness a summary of retrieved sources reports; with no source
/// there is no retrieval context to summarize.
pub fn summary_context_freshness(sources: &[SourceFreshness]) -> (result: Result<SourceFreshness, AiSummaryUsecaseError>)
    ensures
        sources@.len() == 0 ==> result == Err::<SourceFreshness, AiSummaryUsecaseError>(AiSummaryUsecaseError::NoRetrievalContext),
        sources@.len() > 0 ==> result == Ok::<SourceFreshness, AiSummaryUsecaseError>(summary_freshness_of(sources@)),
{
    if sources.len() == 0 {
        Err(AiSummaryUsecaseError::NoRetrievalContext)
    } else {
        Ok(summary_freshness(sources))
    }
}

} // verus!
