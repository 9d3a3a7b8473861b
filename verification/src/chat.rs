//! The generation worker's side of the chat pipeline: the data carried between
//! the session and its worker, the worker's lifecycle state, and the event
//! sequence one generation run emits.
//!
//! The worker itself is an asynchronous task that owns the connection to the
//! inference backend; the task body, the channels and every network call live
//! outside this crate. What is verified here is every decision that task
//! makes: which events it emits, in which order, and how its lifecycle state
//! moves.

use vstd::prelude::*;

verus! {

/// Who authored a conversation entry.
#[derive(Clone, Copy, Debug, PartialEq, Eq, Structural)]
pub enum MessageRole {
    User,
    Assistant,
    System,
    Tool,
}

/// One conversation entry. The `content` of the most recently appended
/// Assistant entry grows in place while a response streams in; every other
/// entry is immutable once appended.
#[derive(Debug)]
pub struct ChatMessage {
    pub role: MessageRole,
    pub content: String,
}

/// The spec-level image of a [`ChatMessage`]: its role and its content as a
/// sequence of characters.
#[verifier::ext_equal]
pub struct MsgView {
    pub role: MessageRole,
    pub content: Seq<char>,
}

impl DeepView for ChatMessage {
    type V = MsgView;

    open spec fn deep_view(&self) -> MsgView {
        MsgView { role: self.role, content: self.content@ }
    }
}

impl Clone for ChatMessage {
    fn clone(&self) -> (res: Self)
        ensures
            res == *self,
    {
        ChatMessage { role: self.role, content: self.content.clone() }
    }
}

impl ChatMessage {
    /// A fresh user entry.
    pub fn user(content: String) -> (m: ChatMessage)
        ensures
            m.deep_view() == (MsgView { role: MessageRole::User, content: content@ }),
    {
        ChatMessage { role: MessageRole::User, content }
    }

    /// A fresh assistant entry.
    pub fn assistant(content: String) -> (m: ChatMessage)
        ensures
            m.deep_view() == (MsgView { role: MessageRole::Assistant, content: content@ }),
    {
        ChatMessage { role: MessageRole::Assistant, content }
    }
}

/// A locally installed model as the catalog reports it: its name and its size
/// in bytes.
#[derive(Debug)]
pub struct LocalModel {
    pub name: String,
    pub size: u64,
}

/// The spec-level image of a [`LocalModel`].
#[verifier::ext_equal]
pub struct LocalModelView {
    pub name: Seq<char>,
    pub size: u64,
}

impl DeepView for LocalModel {
    type V = LocalModelView;

    open spec fn deep_view(&self) -> LocalModelView {
        LocalModelView { name: self.name@, size: self.size }
    }
}

impl Clone for LocalModel {
    fn clone(&self) -> (res: Self)
        ensures
            res == *self,
    {
        LocalModel { name: self.name.clone(), size: self.size }
    }
}

/// A command the session sends to its generation worker. The history is a
/// snapshot taken before the submitted prompt is appended: the worker builds
/// the request context as `history` followed by one user entry holding
/// `prompt`.
#[derive(Debug)]
pub enum Message {
    Generate { prompt: String, history: Vec<ChatMessage>, model: String },
}

/// An event the generation worker emits to its owning session, in emission
/// order over a single-consumer channel. `Ready` announces that the worker
/// holds a live connection and accepts commands (the command channel itself is
/// wired up by the task that spawns the worker).
#[derive(Debug)]
pub enum Event {
    Ready,
    MessageGenerationStarted,
    MessageGenerationProgress(String),
    MessageGenerationEnded,
}

/// The spec-level image of an [`Event`].
#[verifier::ext_equal]
pub enum EventView {
    Ready,
    MessageGenerationStarted,
    MessageGenerationProgress(Seq<char>),
    MessageGenerationEnded,
}

impl DeepView for Event {
    type V = EventView;

    open spec fn deep_view(&self) -> EventView {
        match self {
            Event::Ready => EventView::Ready,
            Event::MessageGenerationStarted => EventView::MessageGenerationStarted,
            Event::MessageGenerationProgress(chunk) => EventView::MessageGenerationProgress(
                chunk@,
            ),
            Event::MessageGenerationEnded => EventView::MessageGenerationEnded,
        }
    }
}

/// The generation worker's lifecycle: it is created `NotReady`, becomes
/// `Ready` exactly once — immediately, before accepting any command — and
/// never returns to `NotReady`. It is destroyed together with the screen that
/// owns it.
#[derive(Debug)]
pub enum State {
    NotReady,
    Ready,
}

impl State {
    /// The worker's first and only lifecycle transition: from `NotReady` it
    /// becomes `Ready` and announces itself with [`Event::Ready`]. The caller
    /// establishes the connection and the command channel around this step;
    /// requiring `NotReady` here is what makes a second transition impossible.
    pub fn start(&mut self) -> (ev: Event)
        requires
            *old(self) is NotReady,
        ensures
            *final(self) is Ready,
            ev == Event::Ready,
    {
        *self = State::Ready;
        Event::Ready
    }
}

/// The events one accepted `Generate` command produces, given the chunks the
/// backend stream delivered: generation starts, one progress event per chunk
/// in delivery order, and a terminal end event.
pub open spec fn generation_emission(chunks: Seq<Seq<char>>) -> Seq<EventView> {
    seq![EventView::MessageGenerationStarted] + chunks.map_values(
        |c: Seq<char>| EventView::MessageGenerationProgress(c),
    ) + seq![EventView::MessageGenerationEnded]
}

/// The full event sequence for one generation run over the delivered chunks.
/// `chunks` holds whatever the backend stream handed over before it ended,
/// whether at end-of-stream or at a transport error: either way the emission
/// closes with `MessageGenerationEnded`, so the session is never left waiting.
pub fn generate(chunks: &Vec<String>) -> (events: Vec<Event>)
    ensures
        events.deep_view() == generation_emission(chunks.deep_view()),
{
    let mut events: Vec<Event> = Vec::new();
    events.push(Event::MessageGenerationStarted);
    let mut i: usize = 0;
    while i < chunks.len()
        invariant
            i <= chunks.len(),
            events.deep_view() =~= seq![EventView::MessageGenerationStarted]
                + chunks.deep_view().take(i as int).map_values(
                |c: Seq<char>| EventView::MessageGenerationProgress(c),
            ),
        decreases chunks.len() - i,
    {
        let ghost pre = events.deep_view();
        events.push(Event::MessageGenerationProgress(chunks[i].clone()));
        i = i + 1;
        proof {
            let cs = chunks.deep_view();
            let k = i as int - 1;
            assert(events.deep_view() =~= pre.push(
                EventView::MessageGenerationProgress(cs[k]),
            ));
            assert(cs.take(k + 1) =~= cs.take(k).push(cs[k]));
            assert(seq![EventView::MessageGenerationStarted] + cs.take(k + 1).map_values(
                |c: Seq<char>| EventView::MessageGenerationProgress(c),
            ) =~= (seq![EventView::MessageGenerationStarted] + cs.take(k).map_values(
                |c: Seq<char>| EventView::MessageGenerationProgress(c),
            )).push(EventView::MessageGenerationProgress(cs[k])));
        }
    }
    events.push(Event::MessageGenerationEnded);
    proof {
        assert(chunks.deep_view().take(chunks.len() as int) =~= chunks.deep_view());
        assert(events.deep_view() =~~= generation_emission(chunks.deep_view()));
    }
    events
}

/// Why a catalog fetch produced no list: the backend could not be reached or
/// answered with an error. The detail is kept only for display.
#[derive(Debug)]
pub struct FetchError {
    pub detail: String,
}

/// What the catalog holds once a fetch resolves: the fetched list, or nothing
/// at all when the fetch failed — a failed fetch is recovered locally as an
/// empty catalog, never surfaced as an error state.
pub open spec fn catalog_of(r: Result<Vec<LocalModel>, FetchError>) -> Seq<LocalModelView> {
    match r {
        Ok(models) => models.deep_view(),
        Err(_) => Seq::<LocalModelView>::empty(),
    }
}

/// Resolves a catalog fetch outcome to the list the selection screen shows:
/// the models on success, the empty list on failure.
pub fn models_or_empty(result: Result<Vec<LocalModel>, FetchError>) -> (models: Vec<LocalModel>)
    ensures
        models.deep_view() == catalog_of(result),
{
    match result {
        Ok(models) => models,
        Err(_) => {
            let empty: Vec<LocalModel> = Vec::new();
            proof {
                assert(empty.deep_view() =~= Seq::<LocalModelView>::empty());
            }
            empty
        },
    }
}

} // verus!
