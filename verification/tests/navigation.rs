//! Scenario tests for the navigation controller and the selection screen.

use ollama_chat::chat::{Event, LocalModel};
use ollama_chat::screen::chat_view;
use ollama_chat::screen::model_select;
use ollama_chat::{App, Effect, Message, Screen};

fn select_model(app: &mut App, name: &str) {
    let effect = app.update(Message::ModelSelect(
        model_select::Message::GoToChatView(name.to_string()),
    ));
    assert!(matches!(effect, Effect::Idle));
}

#[test]
fn startup_shows_model_selection_and_fetches_the_catalog() {
    let (app, effect) = App::new();
    assert!(matches!(effect, Effect::FetchLocalModels));
    match &app.screen {
        Screen::ModelSelect(ms) => {
            assert!(ms.loading_models);
            assert!(ms.local_models.is_empty());
        }
        _ => panic!("the application must start on model selection"),
    }
}

#[test]
fn loaded_catalog_is_shown_and_loading_ends() {
    let (mut app, _) = App::new();
    let fetched = vec![LocalModel {
        name: "llama3".to_string(),
        size: 4_700_000_000,
    }];
    let effect = app.update(Message::ModelSelect(
        model_select::Message::LocalModelsLoaded(fetched),
    ));
    assert!(matches!(effect, Effect::Idle));
    match &app.screen {
        Screen::ModelSelect(ms) => {
            assert!(!ms.loading_models);
            assert_eq!(ms.local_models.len(), 1);
            assert_eq!(ms.local_models[0].name, "llama3");
        }
        _ => panic!("loading the catalog must not change the screen"),
    }
}

#[test]
fn empty_catalog_and_failed_fetch_land_in_the_same_state() {
    let (mut app, _) = App::new();
    app.update(Message::ModelSelect(
        model_select::Message::LocalModelsLoaded(ollama_chat::chat::models_or_empty(Err(
            ollama_chat::chat::FetchError {
                detail: "backend unreachable".to_string(),
            },
        ))),
    ));
    match &app.screen {
        Screen::ModelSelect(ms) => {
            assert!(!ms.loading_models);
            assert!(ms.local_models.is_empty());
        }
        _ => panic!("a failed fetch must stay on model selection"),
    }

    let (mut app2, _) = App::new();
    app2.update(Message::ModelSelect(
        model_select::Message::LocalModelsLoaded(Vec::new()),
    ));
    match (&app.screen, &app2.screen) {
        (Screen::ModelSelect(a), Screen::ModelSelect(b)) => {
            assert_eq!(a.loading_models, b.loading_models);
            assert!(a.local_models.is_empty() && b.local_models.is_empty());
        }
        _ => panic!("both outcomes must stay on model selection"),
    }
}

#[test]
fn picking_a_model_opens_a_fresh_chat() {
    let (mut app, _) = App::new();
    select_model(&mut app, "llama3");
    match &app.screen {
        Screen::ChatView(cv) => {
            assert_eq!(cv.model, "llama3");
            assert!(cv.history.is_empty());
            assert_eq!(cv.prompt, "");
            assert!(!cv.waiting_for_response);
        }
        _ => panic!("picking a model must open the chat screen"),
    }
}

#[test]
fn leaving_a_chat_refetches_the_catalog() {
    let (mut app, _) = App::new();
    select_model(&mut app, "llama3");
    let effect = app.update(Message::ChatView(chat_view::Message::GoToModelSelect));
    assert!(matches!(effect, Effect::FetchLocalModels));
    match &app.screen {
        Screen::ModelSelect(ms) => {
            assert!(ms.loading_models);
            assert!(ms.local_models.is_empty());
        }
        _ => panic!("going back must land on model selection"),
    }
}

#[test]
fn renavigation_always_yields_a_fresh_history() {
    let (mut app, _) = App::new();
    select_model(&mut app, "llama3");
    app.update(Message::ChatView(chat_view::Message::Chat(Event::Ready)));
    app.update(Message::ChatView(chat_view::Message::PromptContentChanged(
        "hello".to_string(),
    )));
    app.update(Message::ChatView(chat_view::Message::SubmitPrompt));
    for event in ollama_chat::chat::generate(&vec!["Hi".to_string()]) {
        app.update(Message::ChatView(chat_view::Message::Chat(event)));
    }
    app.update(Message::ChatView(chat_view::Message::GoToModelSelect));
    select_model(&mut app, "llama3");
    match &app.screen {
        Screen::ChatView(cv) => {
            assert!(cv.history.is_empty());
            assert_eq!(cv.prompt, "");
            assert!(!cv.waiting_for_response);
            assert!(matches!(cv.state, chat_view::State::Disconnected));
        }
        _ => panic!("picking a model again must open a chat screen"),
    }
}

#[test]
fn accepted_submission_surfaces_as_a_send_effect() {
    let (mut app, _) = App::new();
    select_model(&mut app, "llama3");
    app.update(Message::ChatView(chat_view::Message::Chat(Event::Ready)));
    app.update(Message::ChatView(chat_view::Message::PromptContentChanged(
        "hello".to_string(),
    )));
    let effect = app.update(Message::ChatView(chat_view::Message::SubmitPrompt));
    match effect {
        Effect::Send(ollama_chat::chat::Message::Generate { prompt, model, .. }) => {
            assert_eq!(prompt, "hello");
            assert_eq!(model, "llama3");
        }
        _ => panic!("an accepted submission must ask for its command to be sent"),
    }
}

#[test]
fn messages_to_a_dead_screen_are_dropped() {
    let (mut app, _) = App::new();
    // still on model selection: chat messages must change nothing
    let effect = app.update(Message::ChatView(chat_view::Message::SubmitPrompt));
    assert!(matches!(effect, Effect::Idle));
    assert!(matches!(app.screen, Screen::ModelSelect(_)));

    select_model(&mut app, "llama3");
    // now on chat: selection messages must change nothing
    let effect = app.update(Message::ModelSelect(
        model_select::Message::LocalModelsLoaded(Vec::new()),
    ));
    assert!(matches!(effect, Effect::Idle));
    match &app.screen {
        Screen::ChatView(cv) => assert_eq!(cv.model, "llama3"),
        _ => panic!("a stale selection message must not replace the chat screen"),
    }
}
