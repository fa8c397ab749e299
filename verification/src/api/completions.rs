//! Completion requests and the decisions of the retrieval pipeline. The
//! pipeline embeds the user's messages, searches the vector store, builds a
//! prompt from what was found and has an answer generated. Each of these
//! steps is outside work: `begin` and `advance` say which step comes next and
//! what it is given, and their caller performs it.

use vstd::prelude::*;
use vstd::string::StringExecFns;
use crate::error::{EmbeddingError, InferenceError, VectorStorageError};
use crate::llm::inference::{InferenceRequest, InferenceResponse};
use crate::llm::ollama::GenerationResponse;
use crate::llm::prompt::{or_empty, Instruction, Prompt};
use crate::processing::embedding::Embedding;
use crate::storage::model::DBMessageRole;
use crate::storage::vector::{exceeds, score_exceeds, VectorDataPoint, VectorStorageQueryResponse};
use crate::text::{join_range, join_with_space, lemma_texts_push, texts};

verus! {

/// One message of a conversation.
#[derive(Debug, Clone)]
pub struct ApiMessage {
    pub role: DBMessageRole,
    pub content: String,
}

/// A request for an answer: the conversation so far and the collection to
/// search.
#[derive(Debug, Clone)]
pub struct CreateCompletionSchema {
    pub messages: Vec<ApiMessage>,
    pub collection: String,
}

/// A request for a title of a conversation.
#[derive(Debug, Clone)]
pub struct CreateTitleCompletionSchema {
    pub messages: Vec<ApiMessage>,
}

/// The number of retrieved points, best first, that may enter the context.
pub const CONTEXT_POINTS: usize = 5;

/// The texts of the messages that the user wrote, in order.
pub open spec fn user_queries(messages: Seq<ApiMessage>) -> Seq<Seq<char>>
    decreases messages.len(),
{
    if messages.len() == 0 {
        Seq::empty()
    } else if messages.last().role == DBMessageRole::User {
        user_queries(messages.drop_last()).push(messages.last().content@)
    } else {
        user_queries(messages.drop_last())
    }
}

/// The text that is embedded to search for context: all that the user wrote,
/// joined by single spaces.
pub open spec fn query_text(messages: Seq<ApiMessage>) -> Seq<char> {
    join_with_space(user_queries(messages))
}

/// A point may enter the context: always where no least score is asked for,
/// else where it has a score that exceeds the least score.
pub open spec fn passes(point: VectorDataPoint, min_score: Option<u32>) -> bool {
    match min_score {
        None => true,
        Some(threshold) => point.score is Some && exceeds(point.score->0, threshold),
    }
}

/// The texts of the points that pass, one after the other.
pub open spec fn passing_contents(points: Seq<VectorDataPoint>, min_score: Option<u32>) -> Seq<
    char,
>
    decreases points.len(),
{
    if points.len() == 0 {
        Seq::empty()
    } else if passes(points.last(), min_score) {
        passing_contents(points.drop_last(), min_score) + points.last().content@
    } else {
        passing_contents(points.drop_last(), min_score)
    }
}

/// The number of points that are looked at for the context.
pub open spec fn context_size(found: int) -> int {
    if found < CONTEXT_POINTS {
        found
    } else {
        CONTEXT_POINTS as int
    }
}

/// The context of an answer: among the first `CONTEXT_POINTS` points, the
/// texts of those that pass, in the order of the points.
pub open spec fn context_text(points: Seq<VectorDataPoint>, min_score: Option<u32>) -> Seq<char> {
    passing_contents(points.take(context_size(points.len() as int)), min_score)
}

/// Collects the texts of the messages that the user wrote.
pub fn collect_user_queries(messages: &Vec<ApiMessage>) -> (queries: Vec<String>)
    ensures
        texts(queries@) == user_queries(messages@),
{
    let mut queries: Vec<String> = Vec::new();
    let mut i: usize = 0;
    assert(messages@.take(0) =~= Seq::empty());
    assert(texts(queries@) =~= Seq::empty());
    while i < messages.len()
        invariant
            i <= messages.len(),
            texts(queries@) == user_queries(messages@.take(i as int)),
        decreases messages.len() - i,
    {
        proof {
            let after = messages@.take(i + 1);
            assert(after.drop_last() =~= messages@.take(i as int));
            assert(after.last() == messages@[i as int]);
        }
        match messages[i].role {
            DBMessageRole::User => {
                let ghost prev = queries@;
                let query = messages[i].content.clone();
                queries.push(query);
                proof {
                    lemma_texts_push(prev, query);
                }
            },
            DBMessageRole::Assistant => {},
        }
        i += 1;
    }
    assert(messages@.take(messages.len() as int) =~= messages@);
    queries
}

/// Decides whether a point may enter the context.
fn point_passes(point: &VectorDataPoint, min_score: Option<u32>) -> (r: bool)
    ensures
        r == passes(*point, min_score),
{
    match min_score {
        None => true,
        Some(threshold) => match point.score {
            Some(score) => score_exceeds(score, threshold),
            None => false,
        },
    }
}

/// Builds the context of an answer from the points that a search returned,
/// best first.
pub fn build_context(points: &Vec<VectorDataPoint>, min_score: Option<u32>) -> (context: String)
    ensures
        context@ == context_text(points@, min_score),
{
    let size: usize = if points.len() < CONTEXT_POINTS {
        points.len()
    } else {
        CONTEXT_POINTS
    };
    let ghost looked = points@.take(size as int);
    let mut context = String::new();
    let mut i: usize = 0;
    assert(looked.take(0) =~= Seq::empty());
    while i < size
        invariant
            i <= size <= points.len(),
            looked == points@.take(size as int),
            context@ == passing_contents(looked.take(i as int), min_score),
        decreases size - i,
    {
        proof {
            let after = looked.take(i + 1);
            assert(after.drop_last() =~= looked.take(i as int));
            assert(after.last() == points@[i as int]);
        }
        if point_passes(&points[i], min_score) {
            context.append(points[i].content.as_str());
        }
        i += 1;
    }
    assert(looked.take(size as int) =~= looked);
    context
}

/// Why a completion failed: the stage that failed, with its error.
#[derive(Debug, Clone)]
pub enum CompletionError {
    /// The conversation holds no message of the user to answer.
    NoUserMessage,
    /// The query could not be embedded.
    Embedding(EmbeddingError),
    /// The vector store could not be searched.
    VectorStorage(VectorStorageError),
    /// No answer could be generated.
    Inference(InferenceError),
    /// The pipeline was handed the outcome of a step that it did not ask for.
    OutOfOrder,
}

impl CompletionError {
    /// What the client is told of the failure: that the request could not be
    /// processed where the query could not be embedded, and that no
    /// completion could be created in every other case.
    pub open spec fn client_text(self) -> Seq<char> {
        match self {
            CompletionError::Embedding(_) => "Unable to process completion request"@,
            _ => "Unable to create completion"@,
        }
    }

    /// What the client is told of the failure.
    pub fn client_message(&self) -> (message: &'static str)
        ensures
            message@ == self.client_text(),
    {
        match self {
            CompletionError::Embedding(_) => "Unable to process completion request",
            _ => "Unable to create completion",
        }
    }
}

/// Where a completion stands.
#[derive(Debug, Clone)]
pub enum CompletionState {
    /// The query is being embedded.
    Embedding {
        messages: Vec<ApiMessage>,
        collection: String,
        profile: Option<String>,
        min_score: Option<u32>,
    },
    /// The vector store is being searched.
    Searching { messages: Vec<ApiMessage>, profile: Option<String>, min_score: Option<u32> },
    /// The answer is being generated.
    Generating,
    /// The completion has been replied to.
    Finished,
}

/// The outcome of the step that the pipeline asked for last.
#[derive(Debug)]
pub enum CompletionEvent {
    Embedded(Result<Embedding, EmbeddingError>),
    Found(Result<VectorStorageQueryResponse, VectorStorageError>),
    Generated(Result<InferenceResponse, InferenceError>),
}

/// The step that the pipeline asks for next.
#[derive(Debug)]
pub enum CompletionAction {
    /// Embed this text.
    Embed(String),
    /// Search this collection with this vector.
    Search { collection: String, vector: Embedding },
    /// Have an answer generated for this request.
    Generate(InferenceRequest),
    /// Reply with this result; the completion is over.
    Reply(Result<InferenceResponse, CompletionError>),
}

/// `prompt` is the answering prompt for a conversation: the whole
/// conversation as history, the user's profile (empty where there is none),
/// the context built from the points found, and the last message of the
/// user as the question.
pub open spec fn is_answer_prompt(
    prompt: Prompt,
    messages: Seq<ApiMessage>,
    profile: Option<String>,
    points: Seq<VectorDataPoint>,
    min_score: Option<u32>,
) -> bool {
    &&& prompt.history@ == messages
    &&& prompt.profile is Some
    &&& prompt.profile->0@ == or_empty(profile)
    &&& prompt.context is Some
    &&& prompt.context->0@ == context_text(points, min_score)
    &&& prompt.question is Some
    &&& user_queries(messages).len() > 0
    &&& prompt.question->0@ == user_queries(messages).last()
    &&& prompt.instruction == Instruction::RAG
}

/// The first step of a completion. A conversation without a message of the
/// user is replied to at once with `NoUserMessage`; for any other, the query
/// text is to be embedded.
pub fn begin(request: CreateCompletionSchema, profile: Option<String>, min_score: Option<u32>) -> (r:
    (CompletionState, CompletionAction))
    ensures
        user_queries(request.messages@).len() == 0 ==> r.0 is Finished && r.1
            == CompletionAction::Reply(Err(CompletionError::NoUserMessage)),
        user_queries(request.messages@).len() > 0 ==> r.0 == (CompletionState::Embedding {
            messages: request.messages,
            collection: request.collection,
            profile,
            min_score,
        }) && r.1 is Embed && r.1->Embed_0@ == query_text(request.messages@),
{
    let queries = collect_user_queries(&request.messages);
    if queries.len() == 0 {
        return (
            CompletionState::Finished,
            CompletionAction::Reply(Err(CompletionError::NoUserMessage)),
        );
    }
    let query = join_range(&queries, 0, queries.len());
    assert(texts(queries@).subrange(0, queries.len() as int) =~= texts(queries@));
    (
        CompletionState::Embedding {
            messages: request.messages,
            collection: request.collection,
            profile,
            min_score,
        },
        CompletionAction::Embed(query),
    )
}

/// The request for an answer to a conversation, given the points that the
/// search returned. There is none for a conversation without a message of
/// the user.
pub fn answer_request(
    messages: Vec<ApiMessage>,
    profile: Option<String>,
    points: &Vec<VectorDataPoint>,
    min_score: Option<u32>,
) -> (r: Option<InferenceRequest>)
    ensures
        match r {
            Some(request) => request.options is None && is_answer_prompt(
                request.prompt,
                messages@,
                profile,
                points@,
                min_score,
            ),
            None => user_queries(messages@).len() == 0,
        },
{
    let queries = collect_user_queries(&messages);
    if queries.len() == 0 {
        return None;
    }
    let question = queries[queries.len() - 1].clone();
    let context = build_context(points, min_score);
    let profile_text = match profile {
        Some(text) => text,
        None => String::new(),
    };
    let prompt = Prompt::new(
        messages,
        Some(profile_text),
        Some(context),
        Some(question),
        Instruction::RAG,
    );
    Some(InferenceRequest::new(prompt))
}

/// What `advance` does: each outcome that was asked for leads to the next
/// step, to the reply, or, where it is a failure, to a reply that names the
/// stage that failed. An outcome that was not asked for ends the completion
/// with `OutOfOrder`.
pub open spec fn advances(
    state: CompletionState,
    event: CompletionEvent,
    next: CompletionState,
    action: CompletionAction,
) -> bool {
    match (state, event) {
        (
            CompletionState::Embedding { messages, collection, profile, min_score },
            CompletionEvent::Embedded(Ok(vector)),
        ) => {
            &&& next == (CompletionState::Searching { messages, profile, min_score })
            &&& action == (CompletionAction::Search { collection, vector })
        },
        (CompletionState::Embedding { .. }, CompletionEvent::Embedded(Err(e))) => {
            &&& next is Finished
            &&& action == CompletionAction::Reply(Err(CompletionError::Embedding(e)))
        },
        (
            CompletionState::Searching { messages, profile, min_score },
            CompletionEvent::Found(Ok(found)),
        ) => {
            if user_queries(messages@).len() > 0 {
                &&& next is Generating
                &&& action is Generate
                &&& action->Generate_0.options is None
                &&& is_answer_prompt(
                    action->Generate_0.prompt,
                    messages@,
                    profile,
                    found.points@,
                    min_score,
                )
            } else {
                &&& next is Finished
                &&& action == CompletionAction::Reply(Err(CompletionError::NoUserMessage))
            }
        },
        (CompletionState::Searching { .. }, CompletionEvent::Found(Err(e))) => {
            &&& next is Finished
            &&& action == CompletionAction::Reply(Err(CompletionError::VectorStorage(e)))
        },
        (CompletionState::Generating, CompletionEvent::Generated(Ok(response))) => {
            &&& next is Finished
            &&& action == CompletionAction::Reply(Ok(response))
        },
        (CompletionState::Generating, CompletionEvent::Generated(Err(e))) => {
            &&& next is Finished
            &&& action == CompletionAction::Reply(Err(CompletionError::Inference(e)))
        },
        _ => {
            &&& next is Finished
            &&& action == CompletionAction::Reply(Err(CompletionError::OutOfOrder))
        },
    }
}

/// The number of steps that a completion in this state has in front of it at
/// most.
pub open spec fn steps_left(state: CompletionState) -> nat {
    match state {
        CompletionState::Embedding { .. } => 3,
        CompletionState::Searching { .. } => 2,
        CompletionState::Generating => 1,
        CompletionState::Finished => 0,
    }
}

/// A completion is replied to exactly when it finishes, and every step that
/// does not finish it leaves fewer steps in front of it: a completion is over
/// after three outcomes at most, and stays over.
pub proof fn lemma_completion_ends(
    state: CompletionState,
    event: CompletionEvent,
    next: CompletionState,
    action: CompletionAction,
)
    requires
        advances(state, event, next, action),
    ensures
        action is Reply <==> next is Finished,
        next is Finished || steps_left(next) < steps_left(state),
        state is Finished ==> next is Finished,
{
}

/// The next step of a completion, given the outcome of the step before.
pub fn advance(state: CompletionState, event: CompletionEvent) -> (r: (
    CompletionState,
    CompletionAction,
))
    ensures
        advances(state, event, r.0, r.1),
{
    match (state, event) {
        (
            CompletionState::Embedding { messages, collection, profile, min_score },
            CompletionEvent::Embedded(Ok(vector)),
        ) => (
            CompletionState::Searching { messages, profile, min_score },
            CompletionAction::Search { collection, vector },
        ),
        (CompletionState::Embedding { .. }, CompletionEvent::Embedded(Err(e))) => (
            CompletionState::Finished,
            CompletionAction::Reply(Err(CompletionError::Embedding(e))),
        ),
        (
            CompletionState::Searching { messages, profile, min_score },
            CompletionEvent::Found(Ok(found)),
        ) => {
            match answer_request(messages, profile, &found.points, min_score) {
                Some(request) => (CompletionState::Generating, CompletionAction::Generate(request)),
                None => (
                    CompletionState::Finished,
                    CompletionAction::Reply(Err(CompletionError::NoUserMessage)),
                ),
            }
        },
        (CompletionState::Searching { .. }, CompletionEvent::Found(Err(e))) => (
            CompletionState::Finished,
            CompletionAction::Reply(Err(CompletionError::VectorStorage(e))),
        ),
        (CompletionState::Generating, CompletionEvent::Generated(Ok(response))) => (
            CompletionState::Finished,
            CompletionAction::Reply(Ok(response)),
        ),
        (CompletionState::Generating, CompletionEvent::Generated(Err(e))) => (
            CompletionState::Finished,
            CompletionAction::Reply(Err(CompletionError::Inference(e))),
        ),
        _ => (
            CompletionState::Finished,
            CompletionAction::Reply(Err(CompletionError::OutOfOrder)),
        ),
    }
}

/// The request for a title of a conversation: the titling prompt over the
/// whole conversation, with no profile, context or question.
pub fn title_request(payload: CreateTitleCompletionSchema) -> (request: InferenceRequest)
    ensures
        request.options is None,
        request.prompt == (Prompt {
            history: payload.messages,
            profile: None,
            context: None,
            question: None,
            instruction: Instruction::Title,
        }),
{
    let prompt = Prompt {
        history: payload.messages,
        profile: None,
        context: None,
        question: None,
        instruction: Instruction::Title,
    };
    InferenceRequest::new(prompt)
}

/// What the backend's stream of a generation yields: a batch of partial
/// answers, or a failure.
#[derive(Debug, Clone)]
pub enum StreamItem {
    Responses(Vec<GenerationResponse>),
    Failure(String),
}

/// An event sent to the client: its data and, where it is not a plain
/// fragment, its name.
#[derive(Debug, Clone)]
pub struct StreamEvent {
    pub event: Option<String>,
    pub data: String,
}

/// The text of a batch of partial answers: the texts of its answers, one
/// after the other. A batch without an answer has no text.
pub open spec fn batch_text(responses: Seq<GenerationResponse>) -> Seq<char>
    decreases responses.len(),
{
    if responses.len() == 0 {
        Seq::empty()
    } else {
        batch_text(responses.drop_last()) + responses.last().response@
    }
}

/// `event` is the event for `item`. A batch is sent as a plain event with
/// the texts of all its answers, in their order; a failure as an event named
/// `error` with the failure behind `Error: `.
pub open spec fn is_event_of(event: StreamEvent, item: StreamItem) -> bool {
    match item {
        StreamItem::Responses(responses) => {
            &&& event.event is None
            &&& event.data@ == batch_text(responses@)
        },
        StreamItem::Failure(cause) => {
            &&& event.event is Some
            &&& event.event->0@ == "error"@
            &&& event.data@ == "Error: "@ + cause@
        },
    }
}

/// Joins the texts of a batch of partial answers.
fn join_batch(responses: &Vec<GenerationResponse>) -> (text: String)
    ensures
        text@ == batch_text(responses@),
{
    let mut text = String::new();
    let mut i: usize = 0;
    assert(responses@.take(0) =~= Seq::empty());
    while i < responses.len()
        invariant
            i <= responses.len(),
            text@ == batch_text(responses@.take(i as int)),
        decreases responses.len() - i,
    {
        proof {
            let after = responses@.take(i + 1);
            assert(after.drop_last() =~= responses@.take(i as int));
            assert(after.last() == responses@[i as int]);
        }
        text.append(responses[i].response.as_str());
        i += 1;
    }
    assert(responses@.take(responses.len() as int) =~= responses@);
    text
}

/// The event to send for one item of the backend's stream. Every item gives
/// one event that holds all of the item's text: a batch without text is sent
/// on as an empty event, and a failure does not end the stream.
pub fn stream_event(item: StreamItem) -> (event: StreamEvent)
    ensures
        is_event_of(event, item),
{
    match item {
        StreamItem::Responses(responses) => StreamEvent {
            event: None,
            data: join_batch(&responses),
        },
        StreamItem::Failure(cause) => StreamEvent {
            event: Some(String::from_str("error")),
            data: String::from_str("Error: ").concat(cause.as_str()),
        },
    }
}

/// All the text that the batches of a stream hold, in the order in which
/// the backend yielded it. A failure holds no generated text.
pub open spec fn generated_text(items: Seq<StreamItem>) -> Seq<char>
    decreases items.len(),
{
    if items.len() == 0 {
        Seq::empty()
    } else {
        generated_text(items.drop_last()) + match items.last() {
            StreamItem::Responses(responses) => batch_text(responses@),
            StreamItem::Failure(_) => Seq::empty(),
        }
    }
}

/// All the data of the plain events of a stream, in the order in which they
/// are sent.
pub open spec fn sent_text(events: Seq<StreamEvent>) -> Seq<char>
    decreases events.len(),
{
    if events.len() == 0 {
        Seq::empty()
    } else {
        sent_text(events.drop_last()) + (if events.last().event is None {
            events.last().data@
        } else {
            Seq::empty()
        })
    }
}

/// Streaming loses nothing: where each item of the backend's stream is sent
/// as its event, the plain events hold, one after the other, exactly the
/// generated text, with nothing left out, repeated or moved.
pub proof fn lemma_stream_keeps_the_text(items: Seq<StreamItem>, events: Seq<StreamEvent>)
    requires
        events.len() == items.len(),
        forall|i: int| 0 <= i < items.len() ==> is_event_of(#[trigger] events[i], items[i]),
    ensures
        sent_text(events) == generated_text(items),
    decreases items.len(),
{
    if items.len() > 0 {
        let n = items.len() - 1;
        assert(is_event_of(events[n], items[n]));
        assert forall|i: int| 0 <= i < n implies is_event_of(
            #[trigger] events.drop_last()[i],
            items.drop_last()[i],
        ) by {
            assert(is_event_of(events[i], items[i]));
        }
        lemma_stream_keeps_the_text(items.drop_last(), events.drop_last());
    }
}

/// The next event of the client's stream, given what the backend's stream
/// yielded: one event per item, and the end exactly when the backend's
/// stream has ended.
pub fn next_stream_event(item: Option<StreamItem>) -> (event: Option<StreamEvent>)
    ensures
        item is None <==> event is None,
        item is Some ==> is_event_of(event->0, item->0),
{
    match item {
        Some(item) => Some(stream_event(item)),
        None => None,
    }
}

} // verus!
