//! The model of an editing session: the pair buffer under construction, the
//! interaction mode, and the two drafts of the pair being entered.

use vstd::prelude::*;
use crate::text::Text;
use crate::pairs::{distinct_keys, first_occurrences, has_key, keys, lookup, position, put, put_all,
    PairBuffer, Pairs};
use crate::pairs::{lemma_put_all_distinct, lemma_put_all_orders_by_first_store,
    lemma_put_extends_keys, lemma_put_keeps_distinct, lemma_put_present, lemma_put_twice};
use crate::json;

verus! {

/// The top-level interaction state.
#[derive(Clone, Copy, Debug, PartialEq, Eq, Structural)]
pub enum Mode {
    /// Nothing is being entered; the pair buffer is shown.
    Normal,
    /// A key/value pair is being entered.
    Editing,
    /// The user asked to leave and is being asked whether to emit the JSON.
    ConfirmingExit,
}

/// Which draft receives typed characters while a pair is being entered.
#[derive(Clone, Copy, Debug, PartialEq, Eq, Structural)]
pub enum SubMode {
    /// Typed characters go to the key draft.
    EditingKey,
    /// Typed characters go to the value draft.
    EditingValue,
}

/// The mathematical value of a model.
pub struct ModelView {
    /// The entries committed so far, in iteration order.
    pub pairs: Pairs,
    /// The top-level mode.
    pub mode: Mode,
    /// The active draft, present exactly while a pair is being entered.
    pub sub_mode: Option<SubMode>,
    /// The key being entered.
    pub key_draft: Text,
    /// The value being entered.
    pub value_draft: Text,
}

/// The invariant of a model: committed keys are distinct, a draft is active
/// exactly in `Editing` mode, and outside of it both drafts are empty.
pub open spec fn valid(v: ModelView) -> bool {
    &&& distinct_keys(v.pairs)
    &&& (v.sub_mode is Some <==> v.mode == Mode::Editing)
    &&& (v.mode != Mode::Editing ==> v.key_draft.len() == 0 && v.value_draft.len() == 0)
}

/// The model at startup: no entries, `Normal` mode, empty drafts.
pub open spec fn initial() -> ModelView {
    ModelView {
        pairs: Seq::empty(),
        mode: Mode::Normal,
        sub_mode: None,
        key_draft: Seq::empty(),
        value_draft: Seq::empty(),
    }
}

/// A model between sessions with `pairs` as its pair buffer: `Normal` mode,
/// no active draft, empty drafts.
pub open spec fn at_rest(pairs: Pairs) -> ModelView {
    ModelView {
        pairs,
        mode: Mode::Normal,
        sub_mode: None,
        key_draft: Seq::empty(),
        value_draft: Seq::empty(),
    }
}

/// `v` after a pair-entry session has begun: the key draft is active and both
/// drafts are empty.
pub open spec fn started(v: ModelView) -> ModelView {
    ModelView {
        pairs: v.pairs,
        mode: Mode::Editing,
        sub_mode: Some(SubMode::EditingKey),
        key_draft: Seq::empty(),
        value_draft: Seq::empty(),
    }
}

/// `v` after `c` has been typed: appended to the active draft, or nothing
/// where no draft is active.
pub open spec fn typed(v: ModelView, c: char) -> ModelView {
    match v.sub_mode {
        Some(SubMode::EditingKey) => ModelView { key_draft: v.key_draft.push(c), ..v },
        Some(SubMode::EditingValue) => ModelView { value_draft: v.value_draft.push(c), ..v },
        None => v,
    }
}

/// `s` without its last character; an empty text stays empty.
pub open spec fn without_last(s: Text) -> Text {
    if s.len() == 0 {
        s
    } else {
        s.drop_last()
    }
}

/// `v` after a backspace: the active draft loses its last character, if it has
/// one.
pub open spec fn erased(v: ModelView) -> ModelView {
    match v.sub_mode {
        Some(SubMode::EditingKey) => ModelView { key_draft: without_last(v.key_draft), ..v },
        Some(SubMode::EditingValue) => ModelView {
            value_draft: without_last(v.value_draft),
            ..v
        },
        None => v,
    }
}

/// `v` with the other draft active; unchanged where no draft is active.
pub open spec fn switched(v: ModelView) -> ModelView {
    match v.sub_mode {
        Some(SubMode::EditingKey) => ModelView { sub_mode: Some(SubMode::EditingValue), ..v },
        Some(SubMode::EditingValue) => ModelView { sub_mode: Some(SubMode::EditingKey), ..v },
        None => v,
    }
}

/// The pair buffer after the drafts of `v` have been committed: an empty key
/// draft adds nothing, any other key is stored with the value draft.
pub open spec fn committed_pairs(v: ModelView) -> Pairs {
    if v.key_draft.len() == 0 {
        v.pairs
    } else {
        put(v.pairs, v.key_draft, v.value_draft)
    }
}

/// `v` after its drafts have been committed and the session closed.
pub open spec fn committed(v: ModelView) -> ModelView {
    at_rest(committed_pairs(v))
}

/// `v` after the session has been abandoned: the drafts are dropped and the
/// pair buffer is as it was.
pub open spec fn cancelled(v: ModelView) -> ModelView {
    at_rest(v.pairs)
}

/// `v` after the user asked to leave: the exit question is open, no draft is
/// active and both drafts are empty.
pub open spec fn exit_requested(v: ModelView) -> ModelView {
    ModelView {
        pairs: v.pairs,
        mode: Mode::ConfirmingExit,
        sub_mode: None,
        key_draft: Seq::empty(),
        value_draft: Seq::empty(),
    }
}

/// `v` after the exit question was answered with no: back in `Normal` mode.
/// Outside `ConfirmingExit` there is no question to decline and `v` stays.
pub open spec fn exit_declined(v: ModelView) -> ModelView {
    if v.mode == Mode::ConfirmingExit {
        ModelView { mode: Mode::Normal, ..v }
    } else {
        v
    }
}

/// What leaving the editor emits: the JSON object of the pair buffer when
/// emission was asked for, nothing otherwise.
pub open spec fn emitted(v: ModelView, should_emit: bool) -> Option<Text> {
    if should_emit {
        Some(json::object(v.pairs))
    } else {
        None
    }
}

/// `v` after the characters of `s` have been typed one after another.
pub open spec fn typed_text(v: ModelView, s: Text) -> ModelView {
    match v.sub_mode {
        Some(SubMode::EditingKey) => ModelView { key_draft: v.key_draft + s, ..v },
        Some(SubMode::EditingValue) => ModelView { value_draft: v.value_draft + s, ..v },
        None => v,
    }
}

/// `v` after `key` and `value` have been entered as its drafts and committed.
pub open spec fn stored(v: ModelView, key: Text, value: Text) -> ModelView {
    committed(ModelView { key_draft: key, value_draft: value, ..v })
}

/// `v` after each entry of `entries` has been entered and committed in turn,
/// first to last.
pub open spec fn stored_all(v: ModelView, entries: Pairs) -> ModelView
    decreases entries.len(),
{
    if entries.len() == 0 {
        v
    } else {
        stored(stored_all(v, entries.drop_last()), entries.last().0, entries.last().1)
    }
}

/// Whether every key of `entries` is non-empty: whether each entry is one that
/// a commit accepts.
pub open spec fn keys_present(entries: Pairs) -> bool {
    forall|i: int| 0 <= i < entries.len() ==> (#[trigger] entries[i]).0.len() > 0
}

/// Committing the same key twice overwrites the value and keeps the key at
/// the position that the first commit gave it; a key that was present before
/// the first commit is still where it was.
pub proof fn lemma_recommit_overwrites_in_place(
    v: ModelView,
    key: Text,
    first: Text,
    second: Text,
)
    requires
        valid(v),
        key.len() > 0,
    ensures
        position(stored(stored(v, key, first), key, second).pairs, key) == position(
            stored(v, key, first).pairs,
            key,
        ),
        lookup(stored(stored(v, key, first), key, second).pairs, key) == Some(second),
        stored(stored(v, key, first), key, second).pairs.len() == stored(v, key, first).pairs.len(),
        has_key(v.pairs, key) ==> position(stored(v, key, first).pairs, key) == position(
            v.pairs,
            key,
        ),
{
    lemma_put_twice(v.pairs, key, first, second);
    lemma_put_keeps_distinct(v.pairs, key, first);
    lemma_put_present(put(v.pairs, key, first), key, second);
    if has_key(v.pairs, key) {
        lemma_put_present(v.pairs, key, first);
    }
}

/// Commits with non-empty keys store their entries one after another, and leave
/// the model at rest.
pub proof fn lemma_commits_store_all(v: ModelView, entries: Pairs)
    requires
        valid(v),
        v.mode == Mode::Normal,
        keys_present(entries),
    ensures
        stored_all(v, entries) == at_rest(put_all(v.pairs, entries)),
    decreases entries.len(),
{
    if entries.len() == 0 {
        assert(v.key_draft =~= Seq::<char>::empty());
        assert(v.value_draft =~= Seq::<char>::empty());
    } else {
        lemma_commits_store_all(v, entries.drop_last());
    }
}

/// Commits with distinct keys into a new model leave a pair buffer that
/// iterates the entries in the order in which they were committed.
pub proof fn lemma_distinct_commits_keep_order(entries: Pairs)
    requires
        distinct_keys(entries),
        keys_present(entries),
    ensures
        stored_all(initial(), entries).pairs == entries,
{
    lemma_commits_store_all(initial(), entries);
    lemma_put_all_distinct(entries);
}

/// Whatever is committed into a new model, the pair buffer iterates its keys
/// in the order in which each was first committed.
pub proof fn lemma_commits_order_by_first_commit(entries: Pairs)
    requires
        keys_present(entries),
    ensures
        keys(stored_all(initial(), entries).pairs) == first_occurrences(keys(entries)),
{
    lemma_commits_store_all(initial(), entries);
    lemma_put_all_orders_by_first_store(entries);
}

/// Switching the active draft twice restores the one that was active.
pub proof fn lemma_switch_twice(v: ModelView)
    ensures
        switched(switched(v)) == v,
{
}

/// Abandoning a session leaves the pair buffer as it was and empties both
/// drafts, whatever they held.
pub proof fn lemma_cancel_keeps_pairs(v: ModelView)
    ensures
        cancelled(v).pairs == v.pairs,
        cancelled(v).key_draft.len() == 0,
        cancelled(v).value_draft.len() == 0,
        cancelled(v).mode == Mode::Normal,
        cancelled(v).sub_mode.is_none(),
{
}

/// A session that is begun and then abandoned leaves a model that was at rest
/// exactly as it was, whatever was typed in between.
pub proof fn lemma_cancel_undoes_session(v: ModelView, key: Text, value: Text, focus: SubMode)
    requires
        valid(v),
        v.mode == Mode::Normal,
    ensures
        cancelled(
            ModelView { key_draft: key, value_draft: value, sub_mode: Some(focus), ..started(v) },
        ) == v,
{
    let w = cancelled(
        ModelView { key_draft: key, value_draft: value, sub_mode: Some(focus), ..started(v) },
    );
    assert(w.key_draft =~= v.key_draft);
    assert(w.value_draft =~= v.value_draft);
}

/// Every operation of the model keeps its invariant.
pub proof fn lemma_operations_keep_valid(v: ModelView, c: char)
    requires
        valid(v),
    ensures
        valid(initial()),
        valid(started(v)),
        valid(typed(v, c)),
        valid(erased(v)),
        valid(switched(v)),
        valid(committed(v)),
        valid(cancelled(v)),
        valid(exit_requested(v)),
        valid(exit_declined(v)),
{
    lemma_put_keeps_distinct(v.pairs, v.key_draft, v.value_draft);
}

/// No operation of the model removes or moves a committed key: the keys
/// before an operation are the first keys after it, in the same order.
pub proof fn lemma_operations_keep_keys(v: ModelView, c: char)
    requires
        valid(v),
    ensures
        started(v).pairs == v.pairs,
        typed(v, c).pairs == v.pairs,
        erased(v).pairs == v.pairs,
        switched(v).pairs == v.pairs,
        cancelled(v).pairs == v.pairs,
        exit_requested(v).pairs == v.pairs,
        exit_declined(v).pairs == v.pairs,
        keys(v.pairs).is_prefix_of(keys(committed(v).pairs)),
{
    lemma_put_extends_keys(v.pairs, v.key_draft, v.value_draft);
}

/// The state of one editing session.
#[derive(Debug)]
pub struct Model {
    pairs: PairBuffer,
    mode: Mode,
    sub_mode: Option<SubMode>,
    key_draft: String,
    value_draft: String,
}

impl View for Model {
    type V = ModelView;

    closed spec fn view(&self) -> ModelView {
        ModelView {
            pairs: self.pairs@,
            mode: self.mode,
            sub_mode: self.sub_mode,
            key_draft: self.key_draft@,
            value_draft: self.value_draft@,
        }
    }
}

impl Model {
    /// The model's invariant, over its mathematical value.
    pub open spec fn wf(&self) -> bool {
        valid(self@)
    }

    /// A model at startup: an empty pair buffer, `Normal` mode, no draft.
    pub fn new() -> (model: Model)
        ensures
            model@ == initial(),
            model.wf(),
    {
        Model {
            pairs: PairBuffer::new(),
            mode: Mode::Normal,
            sub_mode: None,
            key_draft: String::new(),
            value_draft: String::new(),
        }
    }

    /// The pair buffer built so far.
    pub fn pairs(&self) -> (pairs: &PairBuffer)
        ensures
            pairs@ == self@.pairs,
    {
        &self.pairs
    }

    /// The top-level mode.
    pub fn mode(&self) -> (mode: Mode)
        ensures
            mode == self@.mode,
    {
        self.mode
    }

    /// The active draft, or `None` outside of a pair-entry session.
    pub fn sub_mode(&self) -> (sub_mode: Option<SubMode>)
        ensures
            sub_mode == self@.sub_mode,
    {
        self.sub_mode
    }

    /// The key entered so far.
    pub fn key_draft(&self) -> (draft: &String)
        ensures
            draft@ == self@.key_draft,
    {
        &self.key_draft
    }

    /// The value entered so far.
    pub fn value_draft(&self) -> (draft: &String)
        ensures
            draft@ == self@.value_draft,
    {
        &self.value_draft
    }

    /// Begins a pair-entry session: `Editing` mode, the key draft active, both
    /// drafts empty. The controller calls this in `Normal` mode only; in any
    /// other mode the effect is the same and a fresh session begins.
    pub fn start_editing(&mut self)
        requires
            old(self).wf(),
        ensures
            final(self)@ == started(old(self)@),
            final(self).wf(),
    {
        self.mode = Mode::Editing;
        self.sub_mode = Some(SubMode::EditingKey);
        self.key_draft = String::new();
        self.value_draft = String::new();
    }

    /// Appends `c` to the active draft. Does nothing where no draft is active.
    pub fn append_char_to_active_draft(&mut self, c: char)
        requires
            old(self).wf(),
        ensures
            final(self)@ == typed(old(self)@, c),
            final(self).wf(),
    {
        match self.sub_mode {
            Some(SubMode::EditingKey) => {
                self.key_draft.push(c);
            },
            Some(SubMode::EditingValue) => {
                self.value_draft.push(c);
            },
            None => {},
        }
    }

    /// Removes the last character of the active draft. Does nothing where the
    /// draft is empty or no draft is active.
    pub fn backspace_active_draft(&mut self)
        requires
            old(self).wf(),
        ensures
            final(self)@ == erased(old(self)@),
            final(self).wf(),
    {
        match self.sub_mode {
            Some(SubMode::EditingKey) => {
                let _ = self.key_draft.pop();
            },
            Some(SubMode::EditingValue) => {
                let _ = self.value_draft.pop();
            },
            None => {},
        }
    }

    /// Makes the other draft the active one. Does nothing where no draft is
    /// active.
    pub fn switch_draft_focus(&mut self)
        requires
            old(self).wf(),
        ensures
            final(self)@ == switched(old(self)@),
            final(self).wf(),
    {
        match self.sub_mode {
            Some(SubMode::EditingKey) => {
                self.sub_mode = Some(SubMode::EditingValue);
            },
            Some(SubMode::EditingValue) => {
                self.sub_mode = Some(SubMode::EditingKey);
            },
            None => {},
        }
    }

    /// Closes the session and stores the drafts as a pair: a key that is already
    /// present keeps its place and takes the new value, a new key goes to the
    /// end. An empty key draft is rejected: no pair is stored, and the session
    /// closes all the same.
    pub fn commit_pair(&mut self)
        requires
            old(self).wf(),
        ensures
            final(self)@ == committed(old(self)@),
            final(self).wf(),
    {
        let mut key = String::new();
        let mut value = String::new();
        std::mem::swap(&mut key, &mut self.key_draft);
        std::mem::swap(&mut value, &mut self.value_draft);
        self.mode = Mode::Normal;
        self.sub_mode = None;
        if !key.as_str().is_empty() {
            proof {
                lemma_put_keeps_distinct(self.pairs@, key@, value@);
            }
            self.pairs.insert(key, value);
        }
    }

    /// Abandons the session: both drafts are dropped, the pair buffer is as it
    /// was, and the model is back in `Normal` mode.
    pub fn cancel_editing(&mut self)
        requires
            old(self).wf(),
        ensures
            final(self)@ == cancelled(old(self)@),
            final(self).wf(),
    {
        self.mode = Mode::Normal;
        self.sub_mode = None;
        self.key_draft = String::new();
        self.value_draft = String::new();
    }

    /// Opens the exit question. A session that is open is abandoned, so that no
    /// draft outlives `Editing` mode.
    pub fn request_exit(&mut self)
        requires
            old(self).wf(),
        ensures
            final(self)@ == exit_requested(old(self)@),
            final(self).wf(),
    {
        self.mode = Mode::ConfirmingExit;
        self.sub_mode = None;
        self.key_draft = String::new();
        self.value_draft = String::new();
    }

    /// Leaves the editor. With `should_emit` the result is the pair buffer as a
    /// JSON object, for the caller to write out before it ends the run; without
    /// it the result is `None`. Either way the run is over: the model is not
    /// changed, and the caller performs no further operation on it.
    pub fn confirm_exit(&self, should_emit: bool) -> (output: Option<String>)
        ensures
            match output {
                Some(text) => emitted(self@, should_emit) == Some(text@),
                None => emitted(self@, should_emit).is_none(),
            },
    {
        if should_emit {
            Some(json::serialize(&self.pairs))
        } else {
            None
        }
    }

    /// Answers the exit question with no: the model returns to `Normal` mode.
    /// Does nothing in any other mode.
    pub fn decline_exit(&mut self)
        requires
            old(self).wf(),
        ensures
            final(self)@ == exit_declined(old(self)@),
            final(self).wf(),
    {
        if self.mode == Mode::ConfirmingExit {
            self.mode = Mode::Normal;
        }
    }
}

} // verus!
