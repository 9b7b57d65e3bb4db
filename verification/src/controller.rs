//! The controller: a state machine that takes one key press at a time and
//! applies the matching operation to the model.
//!
//! | mode             | input                | effect                          |
//! |------------------|----------------------|---------------------------------|
//! | `Normal`         | quit key             | open the exit question          |
//! | `Normal`         | new-pair key         | begin a pair-entry session      |
//! | `Editing`        | printable character  | append to the active draft      |
//! | `Editing`        | backspace            | erase from the active draft     |
//! | `Editing`        | tab                  | activate the other draft        |
//! | `Editing`        | enter                | commit the pair                 |
//! | `Editing`        | escape               | abandon the session             |
//! | `ConfirmingExit` | confirm key          | leave and emit the JSON object  |
//! | `ConfirmingExit` | decline key          | return to `Normal`              |
//! | `ConfirmingExit` | quit key             | leave without emitting          |
//!
//! Every other combination of mode and input changes nothing.

use vstd::prelude::*;
use crate::text::Text;
use crate::model::{Mode, Model, ModelView};
use crate::model::{at_rest, cancelled, committed, emitted, erased, exit_declined, exit_requested,
    initial, started, switched, typed, typed_text, valid};
use crate::model::{lemma_operations_keep_keys, lemma_operations_keep_valid};
use crate::pairs::{distinct_keys, first_occurrences, keys, put, put_all, Pairs};
use crate::pairs::{lemma_put_all_distinct, lemma_put_all_keeps_distinct,
    lemma_put_all_orders_by_first_store};

verus! {

/// The key that asks to leave, in `Normal` mode and at the exit question.
pub const QUIT_KEY: char = 'q';

/// The key that begins a pair-entry session in `Normal` mode.
pub const NEW_PAIR_KEY: char = 'e';

/// The key that answers the exit question with yes.
pub const CONFIRM_KEY: char = 'y';

/// The key that answers the exit question with no.
pub const DECLINE_KEY: char = 'n';

/// One key press.
#[derive(Clone, Copy, Debug, PartialEq, Eq, Structural)]
pub enum Input {
    /// A character key.
    Char(char),
    /// The backspace key.
    Backspace,
    /// The tab key.
    Tab,
    /// The enter key.
    Enter,
    /// The escape key.
    Escape,
    /// Any key the editor has no use for.
    Other,
}

/// What the caller does after an input has been handled.
#[derive(Debug)]
pub enum Outcome {
    /// Read the next input.
    Continue,
    /// End the run, after writing out the text if there is one.
    Exit(Option<String>),
}

/// The mathematical value of an outcome.
pub enum OutcomeView {
    /// The run goes on.
    Continue,
    /// The run ends, emitting the text if there is one.
    Exit(Option<Text>),
}

impl View for Outcome {
    type V = OutcomeView;

    open spec fn view(&self) -> OutcomeView {
        match *self {
            Outcome::Continue => OutcomeView::Continue,
            Outcome::Exit(Some(text)) => OutcomeView::Exit(Some(text@)),
            Outcome::Exit(None) => OutcomeView::Exit(None),
        }
    }
}

/// Whether `c` is a control character: one of U+0000 to U+001F or U+007F to
/// U+009F.
pub open spec fn is_control(c: char) -> bool {
    (c as int) < 0x20 || 0x7f <= (c as int) <= 0x9f
}

/// Whether typing `c` enters a character into a draft.
pub open spec fn is_printable(c: char) -> bool {
    !is_control(c)
}

/// Whether `input` ends the run when the model's value is `v`.
pub open spec fn leaves(v: ModelView, input: Input) -> bool {
    v.mode == Mode::ConfirmingExit && (input == Input::Char(CONFIRM_KEY) || input == Input::Char(
        QUIT_KEY,
    ))
}

/// The model's value after `input` has been handled in `v`.
pub open spec fn step(v: ModelView, input: Input) -> ModelView {
    match v.mode {
        Mode::Normal => match input {
            Input::Char(c) => if c == QUIT_KEY {
                exit_requested(v)
            } else if c == NEW_PAIR_KEY {
                started(v)
            } else {
                v
            },
            _ => v,
        },
        Mode::Editing => match input {
            Input::Char(c) => if is_printable(c) {
                typed(v, c)
            } else {
                v
            },
            Input::Backspace => erased(v),
            Input::Tab => switched(v),
            Input::Enter => committed(v),
            Input::Escape => cancelled(v),
            Input::Other => v,
        },
        Mode::ConfirmingExit => match input {
            Input::Char(c) => if c == DECLINE_KEY {
                exit_declined(v)
            } else {
                v
            },
            _ => v,
        },
    }
}

/// What the caller is told after `input` has been handled in `v`.
pub open spec fn outcome(v: ModelView, input: Input) -> OutcomeView {
    if leaves(v, input) {
        OutcomeView::Exit(emitted(v, input == Input::Char(CONFIRM_KEY)))
    } else {
        OutcomeView::Continue
    }
}

/// The model's value after the inputs have been handled in order, up to and
/// including the first one that ends the run; later inputs are not looked at.
pub open spec fn run(v: ModelView, inputs: Seq<Input>) -> ModelView
    decreases inputs.len(),
{
    if inputs.len() == 0 || leaves(v, inputs[0]) {
        v
    } else {
        run(step(v, inputs[0]), inputs.drop_first())
    }
}

/// What the caller is told after the inputs have been handled in order: the
/// outcome of the first input that ends the run, or `Continue` if none does.
pub open spec fn run_outcome(v: ModelView, inputs: Seq<Input>) -> OutcomeView
    decreases inputs.len(),
{
    if inputs.len() == 0 {
        OutcomeView::Continue
    } else if leaves(v, inputs[0]) {
        outcome(v, inputs[0])
    } else {
        run_outcome(step(v, inputs[0]), inputs.drop_first())
    }
}

/// The press of the character key for `c`.
pub open spec fn key_press(c: char) -> Input {
    Input::Char(c)
}

/// The key presses that type the characters of `s`.
pub open spec fn typing(s: Text) -> Seq<Input> {
    Seq::new(s.len(), |i: int| key_press(s[i]))
}

/// Whether every character of `s` is printable.
pub open spec fn all_printable(s: Text) -> bool {
    forall|i: int| 0 <= i < s.len() ==> is_printable(#[trigger] s[i])
}

/// The key presses of one complete pair-entry session: the new-pair key, the
/// key's characters, tab, the value's characters, enter.
pub open spec fn session(key: Text, value: Text) -> Seq<Input> {
    seq![Input::Char(NEW_PAIR_KEY)] + typing(key) + seq![Input::Tab] + typing(value)
        + seq![Input::Enter]
}

/// The key presses of one session after another, one for each entry.
pub open spec fn sessions(entries: Pairs) -> Seq<Input>
    decreases entries.len(),
{
    if entries.len() == 0 {
        Seq::empty()
    } else {
        sessions(entries.drop_last()) + session(entries.last().0, entries.last().1)
    }
}

/// Whether every key of `entries` is non-empty and every key and value is made
/// of printable characters: what a user can enter in a session.
pub open spec fn enterable(entries: Pairs) -> bool {
    forall|i: int|
        0 <= i < entries.len() ==> {
            &&& (#[trigger] entries[i]).0.len() > 0
            &&& all_printable(entries[i].0)
            &&& all_printable(entries[i].1)
        }
}

/// Handling an input keeps the model's invariant.
pub proof fn lemma_step_keeps_valid(v: ModelView, input: Input)
    requires
        valid(v),
    ensures
        valid(step(v, input)),
{
    let c = match input {
        Input::Char(c) => c,
        _ => ' ',
    };
    lemma_operations_keep_valid(v, c);
}

/// Handling an input never removes or moves a committed key: the buffer is
/// only ever appended to or overwritten in place.
pub proof fn lemma_step_keeps_keys(v: ModelView, input: Input)
    requires
        valid(v),
    ensures
        keys(v.pairs).is_prefix_of(keys(step(v, input).pairs)),
{
    let c = match input {
        Input::Char(c) => c,
        _ => ' ',
    };
    lemma_operations_keep_keys(v, c);
}

/// Escape during a session leaves the pair buffer as it was, empties both
/// drafts and returns to `Normal` mode, whatever the drafts held.
pub proof fn lemma_escape_cancels(v: ModelView)
    requires
        v.mode == Mode::Editing,
    ensures
        step(v, Input::Escape).pairs == v.pairs,
        step(v, Input::Escape).key_draft.len() == 0,
        step(v, Input::Escape).value_draft.len() == 0,
        step(v, Input::Escape).mode == Mode::Normal,
        step(v, Input::Escape).sub_mode.is_none(),
        outcome(v, Input::Escape) == OutcomeView::Continue,
{
}

/// Tab pressed twice leaves the model as it was, in every mode.
pub proof fn lemma_tab_twice(v: ModelView)
    ensures
        step(step(v, Input::Tab), Input::Tab) == v,
{
}

/// An input that the current mode has no use for changes nothing and does not
/// end the run.
pub proof fn lemma_unmapped_input_is_ignored(v: ModelView, input: Input)
    requires
        match v.mode {
            Mode::Normal => input != Input::Char(QUIT_KEY) && input != Input::Char(NEW_PAIR_KEY),
            Mode::Editing => match input {
                Input::Char(c) => !is_printable(c),
                Input::Other => true,
                _ => false,
            },
            Mode::ConfirmingExit => input != Input::Char(CONFIRM_KEY) && input != Input::Char(
                DECLINE_KEY,
            ) && input != Input::Char(QUIT_KEY),
        },
    ensures
        step(v, input) == v,
        outcome(v, input) == OutcomeView::Continue,
{
}

/// Handling a run of inputs keeps the model's invariant and never removes or
/// moves a committed key.
pub proof fn lemma_run_keeps_valid(v: ModelView, inputs: Seq<Input>)
    requires
        valid(v),
    ensures
        valid(run(v, inputs)),
        keys(v.pairs).is_prefix_of(keys(run(v, inputs).pairs)),
    decreases inputs.len(),
{
    if inputs.len() > 0 && !leaves(v, inputs[0]) {
        lemma_step_keeps_valid(v, inputs[0]);
        lemma_step_keeps_keys(v, inputs[0]);
        lemma_run_keeps_valid(step(v, inputs[0]), inputs.drop_first());
    }
}

/// Handling `first` and then `second` is handling the two in one run, as long
/// as no input of `first` ends the run.
pub proof fn lemma_run_in_two_parts(v: ModelView, first: Seq<Input>, second: Seq<Input>)
    requires
        run_outcome(v, first) == OutcomeView::Continue,
    ensures
        run(v, first + second) == run(run(v, first), second),
        run_outcome(v, first + second) == run_outcome(run(v, first), second),
    decreases first.len(),
{
    if first.len() > 0 {
        assert((first + second).drop_first() =~= first.drop_first() + second);
        lemma_run_in_two_parts(step(v, first[0]), first.drop_first(), second);
    }
}

/// Typing printable characters during a session appends them to the active
/// draft and does nothing else.
pub proof fn lemma_typing_appends(v: ModelView, s: Text)
    requires
        v.mode == Mode::Editing,
        all_printable(s),
    ensures
        run(v, typing(s)) == typed_text(v, s),
        run_outcome(v, typing(s)) == OutcomeView::Continue,
    decreases s.len(),
{
    if s.len() > 0 {
        let next = typed(v, s[0]);
        assert(typing(s).drop_first() =~= typing(s.drop_first()));
        lemma_typing_appends(next, s.drop_first());
        assert(v.key_draft.push(s[0]) + s.drop_first() =~= v.key_draft + s);
        assert(v.value_draft.push(s[0]) + s.drop_first() =~= v.value_draft + s);
    }
}

/// A complete session stores its pair: from a model at rest, the key presses
/// of a session with a non-empty key leave the model at rest with the pair
/// stored, a present key overwritten in place and a new key appended.
pub proof fn lemma_session_commits(v: ModelView, key: Text, value: Text)
    requires
        valid(v),
        v.mode == Mode::Normal,
        key.len() > 0,
        all_printable(key),
        all_printable(value),
    ensures
        run(v, session(key, value)) == at_rest(put(v.pairs, key, value)),
        run_outcome(v, session(key, value)) == OutcomeView::Continue,
{
    let begin = seq![Input::Char(NEW_PAIR_KEY)];
    let tab = seq![Input::Tab];
    let enter = seq![Input::Enter];
    let v1 = started(v);
    let v2 = typed_text(v1, key);
    let v3 = switched(v2);
    let v4 = typed_text(v3, value);

    lemma_run_once(v, Input::Char(NEW_PAIR_KEY));
    lemma_typing_appends(v1, key);
    lemma_run_in_two_parts(v, begin, typing(key));
    lemma_run_once(v2, Input::Tab);
    lemma_run_in_two_parts(v, begin + typing(key), tab);
    lemma_typing_appends(v3, value);
    lemma_run_in_two_parts(v, begin + typing(key) + tab, typing(value));
    lemma_run_once(v4, Input::Enter);
    lemma_run_in_two_parts(v, begin + typing(key) + tab + typing(value), enter);
}

/// Handling a single input is one step of the state machine.
pub proof fn lemma_run_once(v: ModelView, input: Input)
    ensures
        run(v, seq![input]) == step(v, input),
        run_outcome(v, seq![input]) == outcome(v, input),
{
    let one = seq![input];
    if !leaves(v, input) {
        assert(run(step(v, input), one.drop_first()) == step(v, input));
        assert(run_outcome(step(v, input), one.drop_first()) == OutcomeView::Continue);
    }
}

/// An abandoned session changes nothing: from a model at rest, the new-pair
/// key followed by any typing, erasing and switching and then escape leaves
/// the model exactly as it was.
pub proof fn lemma_cancelled_session_changes_nothing(v: ModelView, edits: Seq<Input>)
    requires
        valid(v),
        v.mode == Mode::Normal,
        forall|i: int|
            0 <= i < edits.len() ==> edits[i] != Input::Enter && edits[i] != Input::Escape,
    ensures
        run(v, seq![Input::Char(NEW_PAIR_KEY)] + edits + seq![Input::Escape]) == v,
        run_outcome(v, seq![Input::Char(NEW_PAIR_KEY)] + edits + seq![Input::Escape])
            == OutcomeView::Continue,
{
    let begin = seq![Input::Char(NEW_PAIR_KEY)];
    let escape = seq![Input::Escape];
    let v1 = started(v);
    lemma_run_once(v, Input::Char(NEW_PAIR_KEY));
    lemma_edits_stay_in_session(v1, edits);
    lemma_run_in_two_parts(v, begin, edits);
    let v2 = run(v1, edits);
    lemma_run_once(v2, Input::Escape);
    lemma_run_in_two_parts(v, begin + edits, escape);
    assert(cancelled(v2).key_draft =~= v.key_draft);
    assert(cancelled(v2).value_draft =~= v.value_draft);
}

/// Inputs other than enter and escape keep a session open and the pair buffer
/// untouched.
pub proof fn lemma_edits_stay_in_session(v: ModelView, edits: Seq<Input>)
    requires
        v.mode == Mode::Editing,
        v.sub_mode is Some,
        forall|i: int|
            0 <= i < edits.len() ==> edits[i] != Input::Enter && edits[i] != Input::Escape,
    ensures
        run(v, edits).mode == Mode::Editing,
        run(v, edits).sub_mode is Some,
        run(v, edits).pairs == v.pairs,
        run_outcome(v, edits) == OutcomeView::Continue,
    decreases edits.len(),
{
    if edits.len() > 0 {
        lemma_edits_stay_in_session(step(v, edits[0]), edits.drop_first());
    }
}

/// One session after another stores one pair after another: from a model at
/// rest, the sessions for `entries` leave the model at rest with every entry
/// stored in turn.
pub proof fn lemma_sessions_store_all(v: ModelView, entries: Pairs)
    requires
        valid(v),
        v.mode == Mode::Normal,
        enterable(entries),
    ensures
        run(v, sessions(entries)) == at_rest(put_all(v.pairs, entries)),
        run_outcome(v, sessions(entries)) == OutcomeView::Continue,
    decreases entries.len(),
{
    if entries.len() == 0 {
        assert(v.key_draft =~= Seq::<char>::empty());
        assert(v.value_draft =~= Seq::<char>::empty());
    } else {
        let front = entries.drop_last();
        let last = entries.last();
        lemma_sessions_store_all(v, front);
        let mid = at_rest(put_all(v.pairs, front));
        lemma_put_all_keeps_distinct(v.pairs, front);
        lemma_session_commits(mid, last.0, last.1);
        lemma_run_in_two_parts(v, sessions(front), session(last.0, last.1));
    }
}

/// Pairs with distinct keys, entered one session after another into a new
/// model, are iterated in the order in which they were entered.
pub proof fn lemma_distinct_sessions_keep_order(entries: Pairs)
    requires
        enterable(entries),
        distinct_keys(entries),
    ensures
        run(initial(), sessions(entries)).pairs == entries,
{
    lemma_sessions_store_all(initial(), entries);
    lemma_put_all_distinct(entries);
}

/// Whatever pairs are entered one session after another into a new model, the
/// keys are iterated in the order in which each was first entered.
pub proof fn lemma_sessions_order_by_first_entry(entries: Pairs)
    requires
        enterable(entries),
    ensures
        keys(run(initial(), sessions(entries)).pairs) == first_occurrences(keys(entries)),
{
    lemma_sessions_store_all(initial(), entries);
    lemma_put_all_orders_by_first_store(entries);
}

/// Whether typing `c` enters a character into a draft.
pub fn printable(c: char) -> (yes: bool)
    ensures
        yes == is_printable(c),
{
    let code: u32 = c as u32;
    !(code < 0x20 || (0x7f <= code && code <= 0x9f))
}

/// Handles one input: applies the operation that the current mode assigns to
/// it, or nothing if the mode assigns none, and says whether the run goes on.
/// An input that ends the run leaves the model as it is.
pub fn handle(input: Input, model: &mut Model) -> (result: Outcome)
    requires
        old(model).wf(),
    ensures
        final(model)@ == step(old(model)@, input),
        final(model).wf(),
        result@ == outcome(old(model)@, input),
{
    match model.mode() {
        Mode::Normal => {
            match input {
                Input::Char(c) => {
                    if c == QUIT_KEY {
                        model.request_exit();
                    } else if c == NEW_PAIR_KEY {
                        model.start_editing();
                    }
                },
                _ => {},
            }
            Outcome::Continue
        },
        Mode::Editing => {
            match input {
                Input::Char(c) => {
                    if printable(c) {
                        model.append_char_to_active_draft(c);
                    }
                },
                Input::Backspace => {
                    model.backspace_active_draft();
                },
                Input::Tab => {
                    model.switch_draft_focus();
                },
                Input::Enter => {
                    model.commit_pair();
                },
                Input::Escape => {
                    model.cancel_editing();
                },
                Input::Other => {},
            }
            Outcome::Continue
        },
        Mode::ConfirmingExit => {
            match input {
                Input::Char(c) => {
                    if c == CONFIRM_KEY {
                        Outcome::Exit(model.confirm_exit(true))
                    } else if c == QUIT_KEY {
                        Outcome::Exit(model.confirm_exit(false))
                    } else {
                        if c == DECLINE_KEY {
                            model.decline_exit();
                        }
                        Outcome::Continue
                    }
                },
                _ => Outcome::Continue,
            }
        },
    }
}

/// Handles the inputs in order and stops after the first one that ends the
/// run. The result is that input's outcome, or `Continue` when every input
/// was handled and the run goes on.
pub fn handle_all(inputs: &Vec<Input>, model: &mut Model) -> (result: Outcome)
    requires
        old(model).wf(),
    ensures
        final(model)@ == run(old(model)@, inputs@),
        final(model).wf(),
        result@ == run_outcome(old(model)@, inputs@),
{
    let mut i: usize = 0;
    assert(inputs@.skip(0) =~= inputs@);
    while i < inputs.len()
        invariant
            i <= inputs@.len(),
            model.wf(),
            run(old(model)@, inputs@) == run(model@, inputs@.skip(i as int)),
            run_outcome(old(model)@, inputs@) == run_outcome(model@, inputs@.skip(i as int)),
        decreases inputs@.len() - i,
    {
        let ghost rest = inputs@.skip(i as int);
        assert(rest.drop_first() =~= inputs@.skip(i + 1));
        let result = handle(inputs[i], model);
        match result {
            Outcome::Exit(text) => {
                return Outcome::Exit(text);
            },
            Outcome::Continue => {},
        }
        i += 1;
    }
    Outcome::Continue
}

} // verus!
