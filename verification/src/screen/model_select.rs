//! The model-selection screen: a read-only snapshot of the locally available
//! models, fetched once per visit, and the transition into a chat session.

use vstd::prelude::*;

use crate::chat::{LocalModel, LocalModelView};
use crate::screen::chat_view::{fresh_session, ChatView};
use crate::Screen;

verus! {

/// The selection screen's state: whether the catalog fetch is still in
/// flight, and the catalog snapshot once it resolved.
#[derive(Debug)]
pub struct ModelSelect {
    pub loading_models: bool,
    pub local_models: Vec<LocalModel>,
}

/// The spec-level image of a [`ModelSelect`].
#[verifier::ext_equal]
pub struct SelectView {
    pub loading_models: bool,
    pub local_models: Seq<LocalModelView>,
}

impl View for ModelSelect {
    type V = SelectView;

    open spec fn view(&self) -> SelectView {
        SelectView {
            loading_models: self.loading_models,
            local_models: self.local_models.deep_view(),
        }
    }
}

/// A message delivered to the selection screen: the user picked a model, or
/// the catalog fetch resolved.
#[derive(Debug)]
pub enum Message {
    GoToChatView(String),
    LocalModelsLoaded(Vec<LocalModel>),
}

/// What one selection-screen step asks of its surroundings: nothing, or a
/// switch to another screen.
#[derive(Debug)]
pub enum Action {
    Idle,
    ChangeView(Screen),
}

/// The selection screen as it is first shown: catalog fetch in flight, no
/// models yet.
pub open spec fn fresh_select() -> SelectView {
    SelectView { loading_models: true, local_models: Seq::<LocalModelView>::empty() }
}

/// The selection screen's transition function: picking a model leaves the
/// screen state untouched (the screen itself is replaced); a resolved fetch
/// stores the snapshot and clears the loading flag.
pub open spec fn select_step(v: SelectView, m: Message) -> SelectView {
    match m {
        Message::GoToChatView(_) => v,
        Message::LocalModelsLoaded(models) => SelectView {
            loading_models: false,
            local_models: models.deep_view(),
        },
    }
}

/// Exactly which action one selection-screen step returns: picking model `M`
/// yields a switch to a fresh chat session for `M`; a resolved fetch yields
/// nothing.
pub open spec fn select_action_ok(v: SelectView, m: Message, a: Action) -> bool {
    match m {
        Message::GoToChatView(model) => a matches Action::ChangeView(sc) && sc matches Screen::ChatView(cv)
            && cv@ == fresh_session(model@),
        Message::LocalModelsLoaded(_) => a is Idle,
    }
}

/// Law: a catalog fetch that failed and one that returned no models resolve
/// to the same screen — no models shown, loading over — whatever the screen
/// held before and whatever the failure was.
pub proof fn lemma_failed_fetch_is_empty_catalog(
    v: SelectView,
    outcome: Result<Vec<LocalModel>, crate::chat::FetchError>,
    loaded: Vec<LocalModel>,
)
    requires
        loaded.deep_view() == crate::chat::catalog_of(outcome),
        outcome is Err || (outcome matches Ok(models) && models@.len() == 0),
    ensures
        select_step(v, Message::LocalModelsLoaded(loaded)) == (SelectView {
            loading_models: false,
            local_models: Seq::<LocalModelView>::empty(),
        }),
{
    match outcome {
        Ok(models) => {
            assert(models.deep_view() =~= Seq::<LocalModelView>::empty());
        },
        Err(_) => {},
    }
    assert(select_step(v, Message::LocalModelsLoaded(loaded)) =~~= (SelectView {
        loading_models: false,
        local_models: Seq::<LocalModelView>::empty(),
    }));
}

impl ModelSelect {
    /// Handles one delivered message; see [`select_step`] and
    /// [`select_action_ok`] for the exact transition.
    pub fn update(&mut self, message: Message) -> (action: Action)
        ensures
            final(self)@ == select_step(old(self)@, message),
            select_action_ok(old(self)@, message, action),
    {
        match message {
            Message::GoToChatView(model) => {
                let chat_view = ChatView::with_model(model.as_str());
                Action::ChangeView(Screen::ChatView(chat_view))
            },
            Message::LocalModelsLoaded(local_models) => {
                self.local_models = local_models;
                self.loading_models = false;
                proof {
                    assert(self@ =~~= select_step(old(self)@, message));
                }
                Action::Idle
            },
        }
    }
}

impl Default for ModelSelect {
    /// The screen the application shows on entry to model selection.
    fn default() -> (r: Self)
        ensures
            r@ == fresh_select(),
    {
        let r = ModelSelect { loading_models: true, local_models: Vec::new() };
        proof {
            assert(r@ =~~= fresh_select());
        }
        r
    }
}

} // verus!
