//! What the screen says: the labels, hints and list lines that a front end
//! draws for a model, each with the tint it is drawn in.

use vstd::prelude::*;
use vstd::string::StringExecFns;
use crate::text::Text;
use crate::model::{Mode, Model, ModelView, SubMode};
use crate::pairs::PairBuffer;

verus! {

/// The width, in characters, to which a key is padded in a list line.
pub const KEY_COLUMN_WIDTH: usize = 8;

/// The words in the title bar.
pub const TITLE: &'static str = "Create New JSON";

/// The heading of the popup in which a pair is entered.
pub const POPUP_TITLE: &'static str = "Enter a new key-value pair";

/// The heading of the box that shows the key draft.
pub const KEY_TITLE: &'static str = "Key";

/// The heading of the box that shows the value draft.
pub const VALUE_TITLE: &'static str = "Value";

/// The heading of the exit question.
pub const EXIT_TITLE: &'static str = "Y/N";

/// The exit question.
pub const EXIT_QUESTION: &'static str = "Would you like to output the buffer as json? (y/n)";

/// The colour a piece of text is drawn in.
#[derive(Clone, Copy, Debug, PartialEq, Eq, Structural)]
pub enum Tint {
    /// The colour of the `Normal` mode and of the key draft.
    Green,
    /// The colour of the value draft.
    LightGreen,
    /// The colour of the `Editing` mode.
    Yellow,
    /// The colour of the key hints.
    Red,
    /// The colour of the exit question's mode.
    LightRed,
    /// The colour of "nothing is being edited".
    DarkGray,
}

/// What is drawn over the panels of the main screen.
#[derive(Clone, Copy, Debug, PartialEq, Eq, Structural)]
pub enum Overlay {
    /// Nothing: the panels are all there is to see.
    Nothing,
    /// The popup in which a pair is entered, with the box of the given draft
    /// highlighted.
    PairEntry(SubMode),
    /// The exit question, alone on a cleared screen.
    ExitQuestion,
}

/// A piece of fixed text and the tint it is drawn in.
#[derive(Clone, Copy, Debug)]
pub struct Label {
    /// The words.
    pub text: &'static str,
    /// Their colour.
    pub tint: Tint,
}

/// The name of `mode` as the footer shows it.
pub open spec fn mode_text(mode: Mode) -> Text {
    match mode {
        Mode::Normal => "Normal Mode"@,
        Mode::Editing => "Editing Mode"@,
        Mode::ConfirmingExit => "Exiting"@,
    }
}

/// The tint of the mode's name in the footer.
pub open spec fn mode_tint(mode: Mode) -> Tint {
    match mode {
        Mode::Normal => Tint::Green,
        Mode::Editing => Tint::Yellow,
        Mode::ConfirmingExit => Tint::LightRed,
    }
}

/// What the footer says about the active draft.
pub open spec fn focus_text(sub_mode: Option<SubMode>) -> Text {
    match sub_mode {
        Some(SubMode::EditingKey) => "Editing JSON Key"@,
        Some(SubMode::EditingValue) => "Editing JSON Value"@,
        None => "Not Editing Anything"@,
    }
}

/// The tint of the footer's words about the active draft.
pub open spec fn focus_tint(sub_mode: Option<SubMode>) -> Tint {
    match sub_mode {
        Some(SubMode::EditingKey) => Tint::Green,
        Some(SubMode::EditingValue) => Tint::LightGreen,
        None => Tint::DarkGray,
    }
}

/// The keys that the footer offers in `mode`. The exit question names its own
/// keys, so the footer repeats those of `Normal` mode beneath it.
pub open spec fn hint_text(mode: Mode) -> Text {
    match mode {
        Mode::Normal => "(q) to quit / (e) to make new pair"@,
        Mode::Editing => "(ESC) to cancel / (Tab) to switch boxes / enter to complete"@,
        Mode::ConfirmingExit => "(q) to quit / (e) to make new pair"@,
    }
}

/// What is drawn over the panels for a model of value `v`: the exit question
/// while it is open, since it clears the screen and is drawn last; otherwise
/// the entry popup while a draft is active; otherwise nothing.
pub open spec fn overlay_of(v: ModelView) -> Overlay {
    if v.mode == Mode::ConfirmingExit {
        Overlay::ExitQuestion
    } else {
        match v.sub_mode {
            Some(draft) => Overlay::PairEntry(draft),
            None => Overlay::Nothing,
        }
    }
}

/// `n` spaces.
pub open spec fn spaces(n: nat) -> Text {
    Seq::new(n, |i: int| ' ')
}

/// `key` padded with spaces on the right to the width of the key column; a key
/// that fills the column or is wider stands as it is.
pub open spec fn padded_key(key: Text) -> Text {
    if key.len() < KEY_COLUMN_WIDTH {
        key + spaces((KEY_COLUMN_WIDTH - key.len()) as nat)
    } else {
        key
    }
}

/// The list line for one entry: the padded key, a colon between two spaces,
/// the value.
pub open spec fn line_text(key: Text, value: Text) -> Text {
    padded_key(key) + seq![' ', ':', ' '] + value
}

/// The footer's label for `mode`.
pub fn mode_label(mode: Mode) -> (label: Label)
    ensures
        label.text@ == mode_text(mode),
        label.tint == mode_tint(mode),
{
    match mode {
        Mode::Normal => Label { text: "Normal Mode", tint: Tint::Green },
        Mode::Editing => Label { text: "Editing Mode", tint: Tint::Yellow },
        Mode::ConfirmingExit => Label { text: "Exiting", tint: Tint::LightRed },
    }
}

/// The footer's label for the active draft.
pub fn focus_label(sub_mode: Option<SubMode>) -> (label: Label)
    ensures
        label.text@ == focus_text(sub_mode),
        label.tint == focus_tint(sub_mode),
{
    match sub_mode {
        Some(SubMode::EditingKey) => Label { text: "Editing JSON Key", tint: Tint::Green },
        Some(SubMode::EditingValue) => Label {
            text: "Editing JSON Value",
            tint: Tint::LightGreen,
        },
        None => Label { text: "Not Editing Anything", tint: Tint::DarkGray },
    }
}

/// The footer's hint at the keys that `mode` offers, drawn in red.
pub fn keys_hint(mode: Mode) -> (label: Label)
    ensures
        label.text@ == hint_text(mode),
        label.tint == Tint::Red,
{
    match mode {
        Mode::Normal => Label { text: "(q) to quit / (e) to make new pair", tint: Tint::Red },
        Mode::Editing => Label {
            text: "(ESC) to cancel / (Tab) to switch boxes / enter to complete",
            tint: Tint::Red,
        },
        Mode::ConfirmingExit => Label {
            text: "(q) to quit / (e) to make new pair",
            tint: Tint::Red,
        },
    }
}

/// What is drawn over the panels for `model`.
pub fn overlay(model: &Model) -> (o: Overlay)
    ensures
        o == overlay_of(model@),
{
    if model.mode() == Mode::ConfirmingExit {
        Overlay::ExitQuestion
    } else {
        match model.sub_mode() {
            Some(draft) => Overlay::PairEntry(draft),
            None => Overlay::Nothing,
        }
    }
}

/// The list line for the entry `key`, `value`.
pub fn pair_line(key: &String, value: &String) -> (line: String)
    ensures
        line@ == line_text(key@, value@),
{
    let mut line = key.clone();
    let width: usize = key.as_str().unicode_len();
    let mut filled: usize = width;
    while filled < KEY_COLUMN_WIDTH
        invariant
            width == key@.len(),
            width <= filled,
            width < KEY_COLUMN_WIDTH ==> filled <= KEY_COLUMN_WIDTH,
            width >= KEY_COLUMN_WIDTH ==> filled == width,
            line@ == key@ + spaces((filled - width) as nat),
        decreases KEY_COLUMN_WIDTH - filled,
    {
        line.push(' ');
        filled += 1;
    }
    line.push(' ');
    line.push(':');
    line.push(' ');
    line.append(value.as_str());
    line
}

/// The list lines for the entries of `pairs`, in iteration order.
pub fn pair_lines(pairs: &PairBuffer) -> (lines: Vec<String>)
    ensures
        lines@.len() == pairs@.len(),
        forall|i: int|
            0 <= i < lines@.len() ==> (#[trigger] lines@[i])@ == line_text(
                pairs@[i].0,
                pairs@[i].1,
            ),
{
    let mut lines: Vec<String> = Vec::new();
    let n: usize = pairs.len();
    let mut i: usize = 0;
    while i < n
        invariant
            n == pairs@.len(),
            i <= n,
            lines@.len() == i,
            forall|j: int|
                0 <= j < i ==> (#[trigger] lines@[j])@ == line_text(pairs@[j].0, pairs@[j].1),
        decreases n - i,
    {
        lines.push(pair_line(pairs.key_at(i), pairs.value_at(i)));
        i += 1;
    }
    lines
}

} // verus!
