use json_editor::controller::{handle, handle_all, Input, Outcome};
use json_editor::model::{Mode, Model, SubMode};

fn type_text(model: &mut Model, text: &str) {
    for c in text.chars() {
        let outcome = handle(Input::Char(c), model);
        assert!(matches!(outcome, Outcome::Continue));
    }
}

fn enter_pair(model: &mut Model, key: &str, value: &str) {
    assert!(matches!(handle(Input::Char('e'), model), Outcome::Continue));
    type_text(model, key);
    assert!(matches!(handle(Input::Tab, model), Outcome::Continue));
    type_text(model, value);
    assert!(matches!(handle(Input::Enter, model), Outcome::Continue));
}

fn leave_with_emission(model: &mut Model) -> String {
    assert!(matches!(handle(Input::Char('q'), model), Outcome::Continue));
    assert_eq!(model.mode(), Mode::ConfirmingExit);
    match handle(Input::Char('y'), model) {
        Outcome::Exit(Some(text)) => text,
        other => panic!("expected an emission, got {:?}", other),
    }
}

#[test]
fn one_pair_is_emitted_as_an_object() {
    let mut model = Model::new();
    assert_eq!(model.mode(), Mode::Normal);
    handle(Input::Char('e'), &mut model);
    assert_eq!(model.mode(), Mode::Editing);
    assert_eq!(model.sub_mode(), Some(SubMode::EditingKey));
    type_text(&mut model, "name");
    assert_eq!(model.key_draft(), "name");
    handle(Input::Tab, &mut model);
    assert_eq!(model.sub_mode(), Some(SubMode::EditingValue));
    type_text(&mut model, "Alice");
    assert_eq!(model.value_draft(), "Alice");
    handle(Input::Enter, &mut model);
    assert_eq!(model.mode(), Mode::Normal);
    assert_eq!(model.sub_mode(), None);
    assert_eq!(model.key_draft(), "");
    assert_eq!(model.value_draft(), "");
    assert_eq!(leave_with_emission(&mut model), "{\"name\":\"Alice\"}");
}

#[test]
fn cancelled_session_emits_an_empty_object() {
    let mut model = Model::new();
    handle(Input::Char('e'), &mut model);
    type_text(&mut model, "a");
    assert_eq!(model.key_draft(), "a");
    handle(Input::Escape, &mut model);
    assert_eq!(model.mode(), Mode::Normal);
    assert_eq!(model.key_draft(), "");
    assert_eq!(model.value_draft(), "");
    assert!(model.pairs().is_empty());
    assert_eq!(leave_with_emission(&mut model), "{}");
}

#[test]
fn reentered_key_keeps_its_place() {
    let mut model = Model::new();
    enter_pair(&mut model, "x", "1");
    enter_pair(&mut model, "y", "2");
    enter_pair(&mut model, "x", "9");
    assert_eq!(model.pairs().len(), 2);
    assert_eq!(model.pairs().key_at(0), "x");
    assert_eq!(model.pairs().value_at(0), "9");
    assert_eq!(model.pairs().key_at(1), "y");
    assert_eq!(model.pairs().value_at(1), "2");
    assert_eq!(leave_with_emission(&mut model), "{\"x\":\"9\",\"y\":\"2\"}");
}

#[test]
fn replayed_inputs_stop_at_the_exit() {
    let inputs = vec![
        Input::Char('e'),
        Input::Char('k'),
        Input::Tab,
        Input::Char('v'),
        Input::Enter,
        Input::Char('q'),
        Input::Char('y'),
        Input::Char('e'),
        Input::Char('z'),
    ];
    let mut model = Model::new();
    match handle_all(&inputs, &mut model) {
        Outcome::Exit(Some(text)) => assert_eq!(text, "{\"k\":\"v\"}"),
        other => panic!("expected an emission, got {:?}", other),
    }
    assert_eq!(model.mode(), Mode::ConfirmingExit);
    assert_eq!(model.pairs().len(), 1);
}
