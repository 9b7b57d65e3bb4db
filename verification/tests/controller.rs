use json_editor::controller::{
    handle, handle_all, printable, Input, Outcome, CONFIRM_KEY, DECLINE_KEY, NEW_PAIR_KEY, QUIT_KEY,
};
use json_editor::model::{Mode, Model, SubMode};

const EVERY_KIND: [Input; 12] = [
    Input::Char('a'),
    Input::Char('q'),
    Input::Char('e'),
    Input::Char('y'),
    Input::Char('n'),
    Input::Char('\u{7}'),
    Input::Char(' '),
    Input::Backspace,
    Input::Tab,
    Input::Enter,
    Input::Escape,
    Input::Other,
];

fn snapshot(model: &Model) -> (Mode, Option<SubMode>, String, String, Vec<(String, String)>) {
    let mut pairs = Vec::new();
    for i in 0..model.pairs().len() {
        pairs.push((
            model.pairs().key_at(i).clone(),
            model.pairs().value_at(i).clone(),
        ));
    }
    (
        model.mode(),
        model.sub_mode(),
        model.key_draft().clone(),
        model.value_draft().clone(),
        pairs,
    )
}

fn feed(model: &mut Model, inputs: &[Input]) {
    for input in inputs {
        assert!(matches!(handle(*input, model), Outcome::Continue));
    }
}

fn model_with_pair() -> Model {
    let mut model = Model::new();
    feed(
        &mut model,
        &[
            Input::Char('e'),
            Input::Char('k'),
            Input::Tab,
            Input::Char('v'),
            Input::Enter,
        ],
    );
    model
}

#[test]
fn named_keys_are_the_documented_characters() {
    assert_eq!(QUIT_KEY, 'q');
    assert_eq!(NEW_PAIR_KEY, 'e');
    assert_eq!(CONFIRM_KEY, 'y');
    assert_eq!(DECLINE_KEY, 'n');
}

#[test]
fn normal_quit_key_opens_the_exit_question() {
    let mut model = model_with_pair();
    assert!(matches!(handle(Input::Char('q'), &mut model), Outcome::Continue));
    assert_eq!(model.mode(), Mode::ConfirmingExit);
    assert_eq!(model.pairs().len(), 1);
}

#[test]
fn normal_new_pair_key_begins_a_session() {
    let mut model = Model::new();
    assert!(matches!(handle(Input::Char('e'), &mut model), Outcome::Continue));
    assert_eq!(model.mode(), Mode::Editing);
    assert_eq!(model.sub_mode(), Some(SubMode::EditingKey));
}

#[test]
fn normal_ignores_every_other_input() {
    for input in EVERY_KIND {
        if input == Input::Char('q') || input == Input::Char('e') {
            continue;
        }
        let mut model = model_with_pair();
        let before = snapshot(&model);
        assert!(matches!(handle(input, &mut model), Outcome::Continue));
        assert_eq!(snapshot(&model), before, "{input:?} changed the model");
    }
}

#[test]
fn editing_types_named_keys_as_characters() {
    let mut model = Model::new();
    feed(
        &mut model,
        &[
            Input::Char('e'),
            Input::Char('q'),
            Input::Char('e'),
            Input::Char('y'),
            Input::Char('n'),
            Input::Char(' '),
        ],
    );
    assert_eq!(model.mode(), Mode::Editing);
    assert_eq!(model.key_draft(), "qeyn ");
}

#[test]
fn editing_ignores_control_characters_and_unknown_keys() {
    let mut model = Model::new();
    feed(&mut model, &[Input::Char('e'), Input::Char('a')]);
    let before = snapshot(&model);
    for input in [
        Input::Char('\u{0}'),
        Input::Char('\u{7}'),
        Input::Char('\n'),
        Input::Char('\u{1f}'),
        Input::Char('\u{7f}'),
        Input::Char('\u{9f}'),
        Input::Other,
    ] {
        assert!(matches!(handle(input, &mut model), Outcome::Continue));
        assert_eq!(snapshot(&model), before, "{input:?} changed the model");
    }
}

#[test]
fn editing_backspace_erases_from_the_active_draft() {
    let mut model = Model::new();
    feed(
        &mut model,
        &[
            Input::Char('e'),
            Input::Char('a'),
            Input::Char('b'),
            Input::Backspace,
        ],
    );
    assert_eq!(model.key_draft(), "a");
    feed(&mut model, &[Input::Backspace, Input::Backspace]);
    assert_eq!(model.key_draft(), "");
    assert_eq!(model.mode(), Mode::Editing);
}

#[test]
fn editing_tab_switches_between_the_drafts() {
    let mut model = Model::new();
    feed(&mut model, &[Input::Char('e'), Input::Tab]);
    assert_eq!(model.sub_mode(), Some(SubMode::EditingValue));
    feed(&mut model, &[Input::Tab]);
    assert_eq!(model.sub_mode(), Some(SubMode::EditingKey));
}

#[test]
fn editing_enter_commits_the_pair() {
    let model = model_with_pair();
    assert_eq!(model.mode(), Mode::Normal);
    assert_eq!(model.sub_mode(), None);
    assert_eq!(model.pairs().len(), 1);
    assert_eq!(model.pairs().key_at(0), "k");
    assert_eq!(model.pairs().value_at(0), "v");
}

#[test]
fn editing_enter_with_an_empty_key_adds_nothing() {
    let mut model = model_with_pair();
    let before = snapshot(&model);
    feed(
        &mut model,
        &[Input::Char('e'), Input::Tab, Input::Char('v'), Input::Enter],
    );
    assert_eq!(snapshot(&model), before);
}

#[test]
fn editing_escape_restores_the_model() {
    let mut model = model_with_pair();
    let before = snapshot(&model);
    feed(
        &mut model,
        &[
            Input::Char('e'),
            Input::Char('k'),
            Input::Tab,
            Input::Char('x'),
            Input::Backspace,
            Input::Char('z'),
            Input::Tab,
            Input::Other,
            Input::Escape,
        ],
    );
    assert_eq!(snapshot(&model), before);
}

#[test]
fn confirm_key_exits_with_the_json() {
    let mut model = model_with_pair();
    feed(&mut model, &[Input::Char('q')]);
    let before = snapshot(&model);
    match handle(Input::Char('y'), &mut model) {
        Outcome::Exit(Some(text)) => assert_eq!(text, "{\"k\":\"v\"}"),
        other => panic!("expected an emission, got {other:?}"),
    }
    assert_eq!(snapshot(&model), before);
}

#[test]
fn decline_key_returns_to_normal() {
    let mut model = model_with_pair();
    feed(&mut model, &[Input::Char('q'), Input::Char('n')]);
    assert_eq!(model.mode(), Mode::Normal);
    assert_eq!(model.pairs().len(), 1);
    feed(&mut model, &[Input::Char('e')]);
    assert_eq!(model.mode(), Mode::Editing);
}

#[test]
fn quit_key_at_the_question_exits_without_json() {
    let mut model = model_with_pair();
    feed(&mut model, &[Input::Char('q')]);
    let before = snapshot(&model);
    assert!(matches!(handle(Input::Char('q'), &mut model), Outcome::Exit(None)));
    assert_eq!(snapshot(&model), before);
}

#[test]
fn exit_question_ignores_every_other_input() {
    for input in EVERY_KIND {
        if input == Input::Char('y') || input == Input::Char('n') || input == Input::Char('q') {
            continue;
        }
        let mut model = model_with_pair();
        feed(&mut model, &[Input::Char('q')]);
        let before = snapshot(&model);
        assert!(matches!(handle(input, &mut model), Outcome::Continue));
        assert_eq!(snapshot(&model), before, "{input:?} changed the model");
    }
}

#[test]
fn upper_case_answers_are_not_answers() {
    let mut model = Model::new();
    feed(
        &mut model,
        &[Input::Char('Q'), Input::Char('E'), Input::Char('q'), Input::Char('Y'), Input::Char('N')],
    );
    assert_eq!(model.mode(), Mode::ConfirmingExit);
}

#[test]
fn printable_excludes_the_control_characters() {
    for code in 0u32..=0xff {
        let c = char::from_u32(code).unwrap();
        let control = code < 0x20 || (0x7f..=0x9f).contains(&code);
        assert_eq!(printable(c), !control, "U+{code:04X}");
        assert_eq!(printable(c), !c.is_control(), "U+{code:04X}");
    }
    assert!(printable('\u{4e2d}'));
    assert!(printable('\u{1f600}'));
}

#[test]
fn handle_all_without_an_exit_goes_on() {
    let inputs = vec![
        Input::Char('e'),
        Input::Char('a'),
        Input::Tab,
        Input::Char('1'),
        Input::Enter,
        Input::Char('e'),
        Input::Char('b'),
    ];
    let mut model = Model::new();
    assert!(matches!(handle_all(&inputs, &mut model), Outcome::Continue));
    assert_eq!(model.mode(), Mode::Editing);
    assert_eq!(model.key_draft(), "b");
    assert_eq!(model.pairs().len(), 1);
}

#[test]
fn handle_all_of_nothing_changes_nothing() {
    let mut model = model_with_pair();
    let before = snapshot(&model);
    assert!(matches!(handle_all(&Vec::new(), &mut model), Outcome::Continue));
    assert_eq!(snapshot(&model), before);
}

#[test]
fn handle_all_stops_at_a_quiet_exit() {
    let inputs = vec![Input::Char('q'), Input::Char('q'), Input::Char('n'), Input::Char('e')];
    let mut model = Model::new();
    assert!(matches!(handle_all(&inputs, &mut model), Outcome::Exit(None)));
    assert_eq!(model.mode(), Mode::ConfirmingExit);
}

#[test]
fn sessions_with_distinct_keys_keep_their_order() {
    let entries = [("zeta", "1"), ("alpha", "2"), ("mid", "3"), ("beta", "4")];
    let mut inputs = Vec::new();
    for (key, value) in entries {
        inputs.push(Input::Char('e'));
        inputs.extend(key.chars().map(Input::Char));
        inputs.push(Input::Tab);
        inputs.extend(value.chars().map(Input::Char));
        inputs.push(Input::Enter);
    }
    let mut model = Model::new();
    assert!(matches!(handle_all(&inputs, &mut model), Outcome::Continue));
    assert_eq!(model.pairs().len(), entries.len());
    for (i, (key, value)) in entries.iter().enumerate() {
        assert_eq!(model.pairs().key_at(i), key);
        assert_eq!(model.pairs().value_at(i), value);
    }
}
