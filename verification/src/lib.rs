//! A verified core for a local-model chat client.
//!
//! The crate holds the application's state machines: the navigation
//! controller that decides which screen is live, the chat session controller
//! that owns a conversation, and the generation worker's protocol and
//! lifecycle. Rendering, networking and the asynchronous plumbing around
//! these machines live outside the crate and drive them purely through the
//! message types defined here; every transition is stated as a contract and
//! proved.

pub mod chat;
pub mod screen;

use vstd::prelude::*;

use screen::chat_view;
use screen::chat_view::{accepts_submit, fresh_session, session_step, session_wf, SessionView};
use screen::model_select;
use screen::model_select::{fresh_select, select_step, ModelSelect, SelectView};
use screen::ChatView;

verus! {

/// The one live screen. Exactly one screen exists at a time; replacing a
/// chat screen drops its session, and with it the session's worker and
/// command channel.
#[derive(Debug)]
pub enum Screen {
    ChatView(ChatView),
    ModelSelect(ModelSelect),
}

/// The spec-level image of a [`Screen`].
#[verifier::ext_equal]
pub enum ScreenView {
    ChatView(SessionView),
    ModelSelect(SelectView),
}

impl View for Screen {
    type V = ScreenView;

    open spec fn view(&self) -> ScreenView {
        match self {
            Screen::ChatView(chat_view) => ScreenView::ChatView(chat_view@),
            Screen::ModelSelect(model_select) => ScreenView::ModelSelect(model_select@),
        }
    }
}

/// The application's top-level state: nothing but the live screen.
#[derive(Debug)]
pub struct App {
    pub screen: Screen,
}

/// The spec-level image of an [`App`].
#[verifier::ext_equal]
pub struct AppView {
    pub screen: ScreenView,
}

impl View for App {
    type V = AppView;

    open spec fn view(&self) -> AppView {
        AppView { screen: self.screen@ }
    }
}

/// A top-level message, routed to the screen it is addressed to. A message
/// addressed to a screen that is no longer live is dropped: a stale worker's
/// events die with the session that owned it.
#[derive(Debug)]
pub enum Message {
    ChatView(chat_view::Message),
    ModelSelect(model_select::Message),
}

/// The outside work one update step asks for: nothing, a fresh catalog
/// fetch, or a command to enqueue on the live session's worker channel.
#[derive(Debug)]
pub enum Effect {
    Idle,
    FetchLocalModels,
    Send(chat::Message),
}

/// The application invariant: whatever screen is live is well formed.
pub open spec fn app_wf(a: AppView) -> bool {
    a.screen matches ScreenView::ChatView(s) ==> session_wf(s)
}

/// A progress event may be delivered only to a live chat screen that is
/// waiting for a response (see [`ChatView::update`]).
pub open spec fn progress_delivery_ok(a: AppView, m: Message) -> bool {
    m matches Message::ChatView(
        chat_view::Message::Chat(chat::Event::MessageGenerationProgress(_)),
    ) ==> (a.screen matches ScreenView::ChatView(s) ==> s.waiting_for_response)
}

/// The navigation controller's transition function. A chat message reaches
/// only a live chat screen; asking to leave it replaces it with a fresh
/// selection screen. A selection message reaches only a live selection
/// screen; picking a model replaces it with a fresh chat session for that
/// model. Anything addressed to the wrong screen changes nothing.
pub open spec fn app_step(a: AppView, m: Message) -> AppView {
    match m {
        Message::ChatView(cm) => match a.screen {
            ScreenView::ChatView(s) => if cm is GoToModelSelect {
                AppView { screen: ScreenView::ModelSelect(fresh_select()) }
            } else {
                AppView { screen: ScreenView::ChatView(session_step(s, cm)) }
            },
            _ => a,
        },
        Message::ModelSelect(mm) => match a.screen {
            ScreenView::ModelSelect(v) => match mm {
                model_select::Message::GoToChatView(model) => AppView {
                    screen: ScreenView::ChatView(fresh_session(model@)),
                },
                _ => AppView { screen: ScreenView::ModelSelect(select_step(v, mm)) },
            },
            _ => a,
        },
    }
}

/// Exactly which effect one update step returns: an accepted submission asks
/// for its one `Generate` command to be enqueued; leaving a chat screen asks
/// for a fresh catalog fetch, so the list reflects current availability;
/// everything else asks for nothing.
pub open spec fn app_effect_ok(a: AppView, m: Message, e: Effect) -> bool {
    match m {
        Message::ChatView(cm) => match a.screen {
            ScreenView::ChatView(s) => match cm {
                chat_view::Message::SubmitPrompt => if accepts_submit(s) {
                    e matches Effect::Send(chat::Message::Generate { prompt, history, model })
                        && prompt@ == s.prompt && history.deep_view() == s.history && model@
                        == s.model
                } else {
                    e is Idle
                },
                chat_view::Message::GoToModelSelect => e is FetchLocalModels,
                _ => e is Idle,
            },
            _ => e is Idle,
        },
        Message::ModelSelect(_) => e is Idle,
    }
}

/// Law: leaving a chat screen for model selection and then picking a model —
/// the same one or another — always lands on a fresh chat session: empty
/// history, empty prompt, nothing in flight, and a worker lifecycle starting
/// over. The new session is not yet connected, and the worker spawned for it
/// begins at `chat::State::NotReady` and becomes `Ready` exactly once (see
/// [`chat::State::start`]).
pub proof fn lemma_renavigation_is_fresh(a: AppView, model: String)
    requires
        a.screen is ChatView,
    ensures
        ({
            let a1 = app_step(a, Message::ChatView(chat_view::Message::GoToModelSelect));
            let a2 = app_step(
                a1,
                Message::ModelSelect(model_select::Message::GoToChatView(model)),
            );
            &&& a1 == (AppView { screen: ScreenView::ModelSelect(fresh_select()) })
            &&& a2 == (AppView { screen: ScreenView::ChatView(fresh_session(model@)) })
            &&& fresh_session(model@).history.len() == 0
            &&& !fresh_session(model@).waiting_for_response
            &&& !fresh_session(model@).connected
        }),
{
}

impl App {
    /// The application as it starts: on the selection screen, with the first
    /// catalog fetch requested at once.
    pub fn new() -> (r: (App, Effect))
        ensures
            r.0@ == (AppView { screen: ScreenView::ModelSelect(fresh_select()) }),
            app_wf(r.0@),
            r.1 is FetchLocalModels,
    {
        let app = App { screen: Screen::ModelSelect(ModelSelect::default()) };
        (app, Effect::FetchLocalModels)
    }

    /// Routes one delivered message to the live screen and applies the
    /// screen switch it may request; see [`app_step`] and [`app_effect_ok`]
    /// for the exact transition.
    pub fn update(&mut self, message: Message) -> (effect: Effect)
        requires
            app_wf(old(self)@),
            progress_delivery_ok(old(self)@, message),
        ensures
            final(self)@ == app_step(old(self)@, message),
            app_wf(final(self)@),
            app_effect_ok(old(self)@, message, effect),
    {
        match message {
            Message::ChatView(m) => match &mut self.screen {
                Screen::ChatView(chat_view) => {
                    let action = chat_view.update(m);
                    match action {
                        chat_view::Action::Idle => Effect::Idle,
                        chat_view::Action::Send(command) => Effect::Send(command),
                        chat_view::Action::ChangeView(screen) => {
                            self.screen = screen;
                            match &self.screen {
                                Screen::ModelSelect(_) => Effect::FetchLocalModels,
                                _ => Effect::Idle,
                            }
                        },
                    }
                },
                _ => Effect::Idle,
            },
            Message::ModelSelect(m) => match &mut self.screen {
                Screen::ModelSelect(model_select) => {
                    let action = model_select.update(m);
                    match action {
                        model_select::Action::Idle => Effect::Idle,
                        model_select::Action::ChangeView(screen) => {
                            self.screen = screen;
                            Effect::Idle
                        },
                    }
                },
                _ => Effect::Idle,
            },
        }
    }
}

} // verus!
