//! The chat session controller: per-conversation state, the messages it
//! handles, and its exact transition function.
//!
//! The session owns the conversation history and mutates it only through its
//! own message handlers; the generation worker never touches it and only
//! produces events. The channel that carries commands to the worker lives
//! outside this crate: the session records here only whether that channel is
//! up, and hands each command to its surroundings through [`Action::Send`].

use vstd::prelude::*;
use vstd::string::StringExecFns;

use crate::chat;
use crate::chat::{ChatMessage, Event, EventView, MessageRole, MsgView};
use crate::screen::model_select::{fresh_select, ModelSelect};
use crate::Screen;

verus! {

/// Whether the session can reach its worker's command channel. `Connected`
/// is entered when the worker's `Ready` event arrives; `Disconnected` is the
/// initial state and the terminal one after the channel is found closed.
#[derive(Debug)]
pub enum State {
    Disconnected,
    Connected,
}

/// Per-conversation state: the prompt buffer, whether a generation is in
/// flight, the conversation history, the link to the worker, and the model
/// this conversation targets.
#[derive(Debug)]
pub struct ChatView {
    pub prompt: String,
    pub waiting_for_response: bool,
    pub history: Vec<ChatMessage>,
    pub state: State,
    pub model: String,
}

/// The spec-level image of a [`ChatView`].
#[verifier::ext_equal]
pub struct SessionView {
    pub prompt: Seq<char>,
    pub waiting_for_response: bool,
    pub history: Seq<MsgView>,
    pub connected: bool,
    pub model: Seq<char>,
}

impl View for ChatView {
    type V = SessionView;

    open spec fn view(&self) -> SessionView {
        SessionView {
            prompt: self.prompt@,
            waiting_for_response: self.waiting_for_response,
            history: self.history.deep_view(),
            connected: self.state is Connected,
            model: self.model@,
        }
    }
}

/// A message delivered to the session: user input, a worker event, the
/// discovery that the worker is gone, or a request to navigate away.
#[derive(Debug)]
pub enum Message {
    PromptContentChanged(String),
    SubmitPrompt,
    Chat(chat::Event),
    WorkerDisconnected,
    GoToModelSelect,
}

/// What one session step asks of its surroundings: nothing, a command to
/// enqueue on the worker's channel, or a switch to another screen.
#[derive(Debug)]
pub enum Action {
    Idle,
    Send(chat::Message),
    ChangeView(Screen),
}

/// The session invariant: while a generation is in flight, the history ends
/// in the open Assistant entry that the streamed chunks grow. At most one
/// entry is ever open, and it is always the most recently appended one.
pub open spec fn session_wf(s: SessionView) -> bool {
    s.waiting_for_response ==> s.history.len() > 0 && s.history.last().role is Assistant
}

/// A session as it is first created for `model`: empty prompt, empty
/// history, nothing in flight, worker not yet connected.
pub open spec fn fresh_session(model: Seq<char>) -> SessionView {
    SessionView {
        prompt: Seq::<char>::empty(),
        waiting_for_response: false,
        history: Seq::<MsgView>::empty(),
        connected: false,
        model,
    }
}

/// A submission is accepted only when the worker is reachable and no
/// generation is already in flight.
pub open spec fn accepts_submit(s: SessionView) -> bool {
    s.connected && !s.waiting_for_response
}

/// The prompt buffer replaced.
pub open spec fn with_prompt(s: SessionView, prompt: Seq<char>) -> SessionView {
    SessionView {
        prompt,
        waiting_for_response: s.waiting_for_response,
        history: s.history,
        connected: s.connected,
        model: s.model,
    }
}

/// An accepted submission: exactly one user entry holding the prompt is
/// appended. The prompt buffer is not cleared here — that happens when the
/// worker acknowledges with `MessageGenerationStarted`.
pub open spec fn with_submitted(s: SessionView) -> SessionView {
    SessionView {
        prompt: s.prompt,
        waiting_for_response: s.waiting_for_response,
        history: s.history.push(MsgView { role: MessageRole::User, content: s.prompt }),
        connected: s.connected,
        model: s.model,
    }
}

/// The worker announced readiness: its command channel is up.
pub open spec fn with_connected(s: SessionView) -> SessionView {
    SessionView {
        prompt: s.prompt,
        waiting_for_response: s.waiting_for_response,
        history: s.history,
        connected: true,
        model: s.model,
    }
}

/// Generation started: the session blocks further submissions, clears the
/// prompt buffer, and opens exactly one empty Assistant entry.
pub open spec fn with_started(s: SessionView) -> SessionView {
    SessionView {
        prompt: Seq::<char>::empty(),
        waiting_for_response: true,
        history: s.history.push(
            MsgView { role: MessageRole::Assistant, content: Seq::<char>::empty() },
        ),
        connected: s.connected,
        model: s.model,
    }
}

/// One streamed chunk appended, in place, to the content of the open entry;
/// every other entry and every other field is untouched.
pub open spec fn with_progress(s: SessionView, chunk: Seq<char>) -> SessionView {
    SessionView {
        prompt: s.prompt,
        waiting_for_response: s.waiting_for_response,
        history: s.history.update(
            s.history.len() - 1,
            MsgView {
                role: s.history.last().role,
                content: s.history.last().content + chunk,
            },
        ),
        connected: s.connected,
        model: s.model,
    }
}

/// Generation ended: the session accepts submissions again. The Assistant
/// entry stays as streamed; nothing mutates it further.
pub open spec fn with_ended(s: SessionView) -> SessionView {
    SessionView {
        prompt: s.prompt,
        waiting_for_response: false,
        history: s.history,
        connected: s.connected,
        model: s.model,
    }
}

/// The command channel is gone: the session is disconnected and no longer
/// waiting, so it can never be stuck on a worker that will not answer.
pub open spec fn with_disconnected(s: SessionView) -> SessionView {
    SessionView {
        prompt: s.prompt,
        waiting_for_response: false,
        history: s.history,
        connected: false,
        model: s.model,
    }
}

/// How one worker event transforms the session.
pub open spec fn apply_event(s: SessionView, ev: EventView) -> SessionView {
    match ev {
        EventView::Ready => with_connected(s),
        EventView::MessageGenerationStarted => with_started(s),
        EventView::MessageGenerationProgress(chunk) => with_progress(s, chunk),
        EventView::MessageGenerationEnded => with_ended(s),
    }
}

/// The session's transition function: what [`ChatView::update`] does to the
/// session state for each delivered message. Edits to the prompt and
/// submissions are ignored while a generation is in flight; navigating away
/// leaves the state untouched (the screen itself is replaced).
pub open spec fn session_step(s: SessionView, m: Message) -> SessionView {
    match m {
        Message::PromptContentChanged(content) => if s.waiting_for_response {
            s
        } else {
            with_prompt(s, content@)
        },
        Message::SubmitPrompt => if accepts_submit(s) {
            with_submitted(s)
        } else {
            s
        },
        Message::Chat(ev) => apply_event(s, ev.deep_view()),
        Message::WorkerDisconnected => with_disconnected(s),
        Message::GoToModelSelect => s,
    }
}

/// Exactly which action one session step returns: an accepted submission
/// yields the one `Generate` command — the prompt, a history snapshot taken
/// before the user entry was appended, and the model; a navigation request
/// yields a switch to a fresh selection screen; everything else yields
/// nothing. In particular a submission that is not accepted sends nothing.
pub open spec fn session_action_ok(s: SessionView, m: Message, a: Action) -> bool {
    match m {
        Message::SubmitPrompt => if accepts_submit(s) {
            a matches Action::Send(chat::Message::Generate { prompt, history, model })
                && prompt@ == s.prompt && history.deep_view() == s.history && model@ == s.model
        } else {
            a is Idle
        },
        Message::GoToModelSelect => a matches Action::ChangeView(sc) && sc matches Screen::ModelSelect(
            ms,
        ) && ms@ == fresh_select(),
        _ => a is Idle,
    }
}

/// A sequence of worker events applied one after another, in delivery order.
pub open spec fn apply_events(s: SessionView, evs: Seq<EventView>) -> SessionView
    decreases evs.len(),
{
    if evs.len() == 0 {
        s
    } else {
        apply_events(apply_event(s, evs.first()), evs.drop_first())
    }
}

/// The chunks of one streamed response joined in delivery order.
pub open spec fn concat_chunks(chunks: Seq<Seq<char>>) -> Seq<char>
    decreases chunks.len(),
{
    if chunks.len() == 0 {
        Seq::<char>::empty()
    } else {
        chunks.first() + concat_chunks(chunks.drop_first())
    }
}

proof fn lemma_apply_events_app(s: SessionView, a: Seq<EventView>, b: Seq<EventView>)
    ensures
        apply_events(s, a + b) == apply_events(apply_events(s, a), b),
    decreases a.len(),
{
    if a.len() == 0 {
        assert(a + b =~= b);
    } else {
        assert((a + b).first() == a.first());
        assert((a + b).drop_first() =~= a.drop_first() + b);
        lemma_apply_events_app(apply_event(s, a.first()), a.drop_first(), b);
    }
}

/// Law: while a generation is in flight, delivering any sequence of progress
/// events grows the open entry's content by exactly the concatenation of the
/// chunks, in delivery order; no other entry and no other part of the session
/// changes, and the session stays waiting and well formed.
pub proof fn lemma_progress_appends_in_order(s: SessionView, chunks: Seq<Seq<char>>)
    requires
        session_wf(s),
        s.waiting_for_response,
    ensures
        ({
            let t = apply_events(
                s,
                chunks.map_values(|c: Seq<char>| EventView::MessageGenerationProgress(c)),
            );
            &&& t.history.len() == s.history.len()
            &&& t.history.last() == (MsgView {
                role: s.history.last().role,
                content: s.history.last().content + concat_chunks(chunks),
            })
            &&& forall|i: int|
                0 <= i < s.history.len() - 1 ==> t.history[i] == s.history[i]
            &&& t.prompt == s.prompt
            &&& t.waiting_for_response
            &&& t.connected == s.connected
            &&& t.model == s.model
            &&& session_wf(t)
        }),
    decreases chunks.len(),
{
    let evs = chunks.map_values(|c: Seq<char>| EventView::MessageGenerationProgress(c));
    if chunks.len() == 0 {
        let t = apply_events(s, evs);
        assert(s.history.last().content + concat_chunks(chunks) =~= s.history.last().content);
        assert(t.history.last() =~~= (MsgView {
            role: s.history.last().role,
            content: s.history.last().content + concat_chunks(chunks),
        }));
    } else {
        let s1 = with_progress(s, chunks.first());
        assert(s1.history.len() == s.history.len());
        assert(s1.history.last() == (MsgView {
            role: s.history.last().role,
            content: s.history.last().content + chunks.first(),
        }));
        assert(session_wf(s1));
        assert(evs.first() == EventView::MessageGenerationProgress(chunks.first()));
        lemma_progress_appends_in_order(s1, chunks.drop_first());
        assert(evs.drop_first() =~= chunks.drop_first().map_values(
            |c: Seq<char>| EventView::MessageGenerationProgress(c),
        ));
        let t = apply_events(s1, evs.drop_first());
        assert(t.history.last().content =~= s.history.last().content + chunks.first()
            + concat_chunks(chunks.drop_first()));
        assert(s.history.last().content + chunks.first() + concat_chunks(chunks.drop_first())
            =~= s.history.last().content + (chunks.first() + concat_chunks(chunks.drop_first())));
        assert(t.history.last() =~~= (MsgView {
            role: s.history.last().role,
            content: s.history.last().content + concat_chunks(chunks),
        }));
        assert(forall|i: int|
            0 <= i < s.history.len() - 1 ==> t.history[i] == s.history[i]);
    }
}

/// Law: one full generation run — started, the delivered chunks in order,
/// ended — appends exactly one Assistant entry whose content is the
/// concatenation of the chunks, clears the prompt, and leaves the session no
/// longer waiting; the rest of the history, the connection and the model are
/// untouched.
pub proof fn lemma_generation_run(s: SessionView, chunks: Seq<Seq<char>>)
    requires
        session_wf(s),
    ensures
        apply_events(s, crate::chat::generation_emission(chunks)) == (SessionView {
            prompt: Seq::<char>::empty(),
            waiting_for_response: false,
            history: s.history.push(
                MsgView { role: MessageRole::Assistant, content: concat_chunks(chunks) },
            ),
            connected: s.connected,
            model: s.model,
        }),
{
    let started = seq![EventView::MessageGenerationStarted];
    let mapped = chunks.map_values(|c: Seq<char>| EventView::MessageGenerationProgress(c));
    let ended = seq![EventView::MessageGenerationEnded];
    let emission = crate::chat::generation_emission(chunks);
    assert(emission =~= started + mapped + ended);
    lemma_apply_events_app(s, started + mapped, ended);
    lemma_apply_events_app(s, started, mapped);
    assert(apply_events(s, started) == with_started(s)) by {
        reveal_with_fuel(apply_events, 2);
        assert(started.first() == EventView::MessageGenerationStarted);
        assert(started.drop_first() =~= Seq::<EventView>::empty());
    }
    let s1 = with_started(s);
    assert(session_wf(s1));
    lemma_progress_appends_in_order(s1, chunks);
    let t1 = apply_events(s1, mapped);
    assert(t1.history.last() =~~= (MsgView {
        role: MessageRole::Assistant,
        content: concat_chunks(chunks),
    })) by {
        assert(s1.history.last() == (MsgView {
            role: MessageRole::Assistant,
            content: Seq::<char>::empty(),
        }));
        assert(Seq::<char>::empty() + concat_chunks(chunks) =~= concat_chunks(chunks));
    }
    assert(t1.history =~= s.history.push(
        MsgView { role: MessageRole::Assistant, content: concat_chunks(chunks) },
    )) by {
        assert(forall|i: int|
            0 <= i < s.history.len() ==> t1.history[i] == s1.history[i]
                && s1.history[i] == s.history[i]);
    }
    assert(apply_events(t1, ended) == with_ended(t1)) by {
        reveal_with_fuel(apply_events, 2);
        assert(ended.first() == EventView::MessageGenerationEnded);
        assert(ended.drop_first() =~= Seq::<EventView>::empty());
    }
    assert(apply_events(s, emission) =~~= (SessionView {
        prompt: Seq::<char>::empty(),
        waiting_for_response: false,
        history: s.history.push(
            MsgView { role: MessageRole::Assistant, content: concat_chunks(chunks) },
        ),
        connected: s.connected,
        model: s.model,
    }));
}

/// Law: a submission delivered while a generation is in flight is a no-op:
/// the session state is untouched. Together with the action contract of
/// [`ChatView::update`] — which returns no action in this case — nothing is
/// sent and no history entry is written.
pub proof fn lemma_submit_while_waiting_is_noop(s: SessionView)
    requires
        s.waiting_for_response,
    ensures
        session_step(s, Message::SubmitPrompt) == s,
{
}

/// Law: an accepted submission appends exactly one user entry holding the
/// prompt, and a generation start appends exactly one empty Assistant entry;
/// neither touches any existing entry.
pub proof fn lemma_one_entry_per_phase(s: SessionView)
    ensures
        accepts_submit(s) ==> session_step(s, Message::SubmitPrompt).history == s.history.push(
            (MsgView { role: MessageRole::User, content: s.prompt }),
        ),
        session_step(s, Message::Chat(chat::Event::MessageGenerationStarted)).history == s.history.push(
            (MsgView { role: MessageRole::Assistant, content: Seq::<char>::empty() }),
        ),
{
}

/// Law: an accepted submission followed by the worker's acknowledgement
/// appends, in that temporal order, exactly one user entry holding the
/// prompt and then exactly one empty Assistant entry; nothing before them in
/// the history moves.
pub proof fn lemma_submit_then_start_order(s: SessionView)
    requires
        session_wf(s),
        accepts_submit(s),
    ensures
        ({
            let t = session_step(
                session_step(s, Message::SubmitPrompt),
                Message::Chat(chat::Event::MessageGenerationStarted),
            );
            &&& t.history.len() == s.history.len() + 2
            &&& t.history[s.history.len() as int] == (MsgView {
                role: MessageRole::User,
                content: s.prompt,
            })
            &&& t.history.last() == (MsgView {
                role: MessageRole::Assistant,
                content: Seq::<char>::empty(),
            })
            &&& forall|i: int| 0 <= i < s.history.len() ==> t.history[i] == s.history[i]
        }),
{
}

impl ChatView {
    /// A fresh session targeting `model`.
    pub fn with_model(model: &str) -> (r: Self)
        ensures
            r@ == fresh_session(model@),
    {
        let r = ChatView {
            prompt: String::new(),
            waiting_for_response: false,
            history: Vec::new(),
            state: State::Disconnected,
            model: model.to_owned(),
        };
        proof {
            assert(r@ =~~= fresh_session(model@));
        }
        r
    }

    /// Handles one delivered message; see [`session_step`] and
    /// [`session_action_ok`] for the exact transition.
    ///
    /// A progress event may only be delivered while a generation is in
    /// flight: the worker emits it strictly between `MessageGenerationStarted`
    /// and `MessageGenerationEnded`, and events arrive in emission order, so a
    /// violation of this precondition is a protocol defect, not a runtime
    /// condition to recover from.
    pub fn update(&mut self, message: Message) -> (action: Action)
        requires
            session_wf(old(self)@),
            (message matches Message::Chat(ev) && ev is MessageGenerationProgress)
                ==> old(self)@.waiting_for_response,
        ensures
            final(self)@ == session_step(old(self)@, message),
            session_wf(final(self)@),
            session_action_ok(old(self)@, message, action),
    {
        match message {
            Message::PromptContentChanged(content) => {
                if !self.waiting_for_response {
                    self.prompt = content;
                }
                proof {
                    assert(self@ =~~= session_step(old(self)@, message));
                }
                Action::Idle
            },
            Message::SubmitPrompt => match &self.state {
                State::Disconnected => Action::Idle,
                State::Connected => {
                    if self.waiting_for_response {
                        Action::Idle
                    } else {
                        let command = chat::Message::Generate {
                            prompt: self.prompt.clone(),
                            history: self.history.clone(),
                            model: self.model.clone(),
                        };
                        self.history.push(ChatMessage::user(self.prompt.clone()));
                        proof {
                            assert(self@ =~~= with_submitted(old(self)@));
                        }
                        Action::Send(command)
                    }
                },
            },
            Message::Chat(event) => {
                match event {
                    Event::Ready => {
                        self.state = State::Connected;
                        proof {
                            assert(self@ =~~= with_connected(old(self)@));
                        }
                    },
                    Event::MessageGenerationStarted => {
                        self.waiting_for_response = true;
                        self.prompt = String::new();
                        self.history.push(ChatMessage::assistant(String::new()));
                        proof {
                            assert(self@ =~~= with_started(old(self)@));
                        }
                    },
                    Event::MessageGenerationProgress(chunk) => {
                        let mut open_message = self.history.pop().unwrap();
                        open_message.content.append(chunk.as_str());
                        self.history.push(open_message);
                        proof {
                            assert(self@ =~~= with_progress(old(self)@, chunk@));
                        }
                    },
                    Event::MessageGenerationEnded => {
                        self.waiting_for_response = false;
                    },
                }
                Action::Idle
            },
            Message::WorkerDisconnected => {
                self.state = State::Disconnected;
                self.waiting_for_response = false;
                Action::Idle
            },
            Message::GoToModelSelect => {
                Action::ChangeView(Screen::ModelSelect(ModelSelect::default()))
            },
        }
    }
}

impl Default for ChatView {
    /// A fresh session with no model chosen yet.
    fn default() -> (r: Self)
        ensures
            r@ == fresh_session(Seq::<char>::empty()),
    {
        let r = ChatView {
            prompt: String::new(),
            waiting_for_response: false,
            history: Vec::new(),
            state: State::Disconnected,
            model: String::new(),
        };
        proof {
            assert(r@ =~~= fresh_session(Seq::<char>::empty()));
        }
        r
    }
}

} // verus!
