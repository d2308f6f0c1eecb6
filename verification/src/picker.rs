//! The picker: which rows are offered, what a selection puts on the
//! clipboard, and the order in which the terminal and the clipboard are used.
//!
//! The picker itself touches neither. It is driven: [`Picker::start`] and
//! [`Picker::step`] name the next thing to do as a [`PickAction`], and the
//! driver answers with a [`PickEvent`] that says how it went.

use vstd::prelude::*;
use vstd::string::StringExecFns;
use crate::entry::EmojiContainer;
use crate::entry::EntryView;
use crate::entry::entries_view;
use crate::item::CustomSkimItem;
use crate::item::first_line;
use crate::item::item_text;
use crate::item::items_view;
use crate::item::line_end;
use crate::item::lemma_line_end_is;

verus! {

/// How the list is laid out.
#[derive(Clone, Copy, Debug)]
pub struct PickerOptions {
    /// Height of the list, in percent of the terminal's height.
    pub height_percent: u8,
    /// Whether the list is drawn in reverse order.
    pub reverse: bool,
    /// Whether several rows can be chosen at once.
    pub multi: bool,
}

/// The layout that the picker asks for: 70 % of the terminal, reversed,
/// several rows selectable.
pub open spec fn default_options() -> PickerOptions {
    PickerOptions { height_percent: 70, reverse: true, multi: true }
}

/// The rows for a list of entries: one per entry, in the entries' order.
pub open spec fn items_of(entries: Seq<EntryView>) -> Seq<Seq<char>> {
    Seq::new(entries.len(), |i: int| item_text(entries[i]))
}

/// What a selection yields: the first line of each chosen row, in the order
/// chosen, with nothing between them.
pub open spec fn joined_output(items: Seq<Seq<char>>) -> Seq<char>
    decreases items.len(),
{
    if items.len() == 0 {
        Seq::empty()
    } else {
        joined_output(items.drop_last()) + first_line(items.last())
    }
}

impl PickerOptions {
    /// The layout that the picker asks for.
    pub fn new() -> (options: PickerOptions)
        ensures
            options == default_options(),
    {
        PickerOptions { height_percent: 70, reverse: true, multi: true }
    }
}

/// The rows to offer for `entries`.
pub fn picker_items(entries: &Vec<EmojiContainer>) -> (items: Vec<CustomSkimItem>)
    ensures
        items_view(items@) == items_of(entries_view(entries@)),
{
    let mut items: Vec<CustomSkimItem> = Vec::new();
    let mut i: usize = 0;
    while i < entries.len()
        invariant
            i <= entries.len(),
            items@.len() == i,
            forall|k: int| 0 <= k < i ==> (#[trigger] items@[k])@ == item_text(entries@[k]@),
        decreases entries.len() - i,
    {
        items.push(CustomSkimItem::new(&entries[i]));
        i = i + 1;
    }
    assert(items_view(items@) =~= items_of(entries_view(entries@)));
    items
}

/// The text that a selection puts on the clipboard.
pub fn selection_output(selected: &Vec<CustomSkimItem>) -> (text: String)
    ensures
        text@ == joined_output(items_view(selected@)),
{
    let mut text = String::new();
    let mut i: usize = 0;
    while i < selected.len()
        invariant
            i <= selected.len(),
            text@ == joined_output(items_view(selected@).take(i as int)),
        decreases selected.len() - i,
    {
        let chosen = selected[i].output();
        text.append(chosen.as_str());
        proof {
            let all = items_view(selected@);
            assert(all.take(i + 1).drop_last() =~= all.take(i as int));
            assert(all.take(i + 1).last() == selected@[i as int]@);
        }
        i = i + 1;
    }
    assert(items_view(selected@).take(i as int) =~= items_view(selected@));
    text
}

/// Why the picker gave up.
#[derive(Debug)]
pub enum PickError {
    /// The list could not be shown; the text says why.
    Ui(String),
    /// An event arrived that does not answer the pending action.
    Unexpected,
}

/// The view of a [`PickError`].
pub enum PickErrorView {
    Ui(Seq<char>),
    Unexpected,
}

impl View for PickError {
    type V = PickErrorView;

    open spec fn view(&self) -> PickErrorView {
        match self {
            PickError::Ui(message) => PickErrorView::Ui(message@),
            PickError::Unexpected => PickErrorView::Unexpected,
        }
    }
}

/// What the driver reports back.
#[derive(Debug)]
pub enum PickEvent {
    /// The user confirmed these rows, in this order.
    Accepted(Vec<CustomSkimItem>),
    /// The user left the list without confirming.
    Cancelled,
    /// The pending action was carried out.
    Completed,
    /// The pending action failed; the text says why.
    Failed(String),
}

/// The view of a [`PickEvent`].
pub enum PickEventView {
    Accepted(Seq<Seq<char>>),
    Cancelled,
    Completed,
    Failed(Seq<char>),
}

impl View for PickEvent {
    type V = PickEventView;

    open spec fn view(&self) -> PickEventView {
        match self {
            PickEvent::Accepted(rows) => PickEventView::Accepted(items_view(rows@)),
            PickEvent::Cancelled => PickEventView::Cancelled,
            PickEvent::Completed => PickEventView::Completed,
            PickEvent::Failed(message) => PickEventView::Failed(message@),
        }
    }
}

/// What the driver is to do next.
#[derive(Debug)]
pub enum PickAction {
    /// Show these rows with this layout and wait for the user.
    Show(PickerOptions, Vec<CustomSkimItem>),
    /// Put this text on the clipboard.
    Copy(String),
    /// Leave with success, after writing the warning, if any, to standard
    /// error.
    Exit(Option<String>),
    /// Leave with this failure.
    Abort(PickError),
}

/// The view of a [`PickAction`].
pub enum PickActionView {
    Show(PickerOptions, Seq<Seq<char>>),
    Copy(Seq<char>),
    Exit(Option<Seq<char>>),
    Abort(PickErrorView),
}

impl View for PickAction {
    type V = PickActionView;

    open spec fn view(&self) -> PickActionView {
        match self {
            PickAction::Show(options, rows) => PickActionView::Show(*options, items_view(rows@)),
            PickAction::Copy(text) => PickActionView::Copy(text@),
            PickAction::Exit(warning) => PickActionView::Exit(
                match warning {
                    Some(message) => Some(message@),
                    None => None,
                },
            ),
            PickAction::Abort(error) => PickActionView::Abort(error@),
        }
    }
}

/// Where the picker stands: what it is waiting for.
#[derive(Clone, Copy, Debug)]
pub enum Picker {
    /// The list is open.
    AwaitSelection,
    /// The clipboard is being written.
    AwaitCopy,
    /// Nothing is pending: the last action was `Exit` or `Abort`.
    Finished,
}

/// The first action for `entries`: show their rows.
pub open spec fn first_action(entries: Seq<EntryView>) -> PickActionView {
    PickActionView::Show(default_options(), items_of(entries))
}

/// The picker's rule: from where it stands and what happened, where it
/// stands next and what is to be done.
///
/// A confirmed selection is copied as [`joined_output`] of its rows; leaving
/// the list without confirming copies the empty text. A clipboard that fails
/// costs a warning, not the run. An event that does not answer the pending
/// action ends the run with [`PickError::Unexpected`].
pub open spec fn next(state: Picker, event: PickEventView) -> (Picker, PickActionView) {
    match (state, event) {
        (Picker::AwaitSelection, PickEventView::Accepted(rows)) => (
            Picker::AwaitCopy,
            PickActionView::Copy(joined_output(rows)),
        ),
        (Picker::AwaitSelection, PickEventView::Cancelled) => (
            Picker::AwaitCopy,
            PickActionView::Copy(Seq::empty()),
        ),
        (Picker::AwaitSelection, PickEventView::Failed(message)) => (
            Picker::Finished,
            PickActionView::Abort(PickErrorView::Ui(message)),
        ),
        (Picker::AwaitCopy, PickEventView::Completed) => (
            Picker::Finished,
            PickActionView::Exit(None),
        ),
        (Picker::AwaitCopy, PickEventView::Failed(message)) => (
            Picker::Finished,
            PickActionView::Exit(Some(message)),
        ),
        _ => (Picker::Finished, PickActionView::Abort(PickErrorView::Unexpected)),
    }
}

impl Picker {
    /// Opens a run over `entries`: the picker waits for the selection, and
    /// the first action shows one row per entry.
    pub fn start(entries: &Vec<EmojiContainer>) -> (begun: (Picker, PickAction))
        ensures
            begun.0 == Picker::AwaitSelection,
            begun.1@ == first_action(entries_view(entries@)),
    {
        (Picker::AwaitSelection, PickAction::Show(PickerOptions::new(), picker_items(entries)))
    }

    /// Takes what happened and says what to do next, by the rule [`next`].
    pub fn step(self, event: PickEvent) -> (then: (Picker, PickAction))
        ensures
            (then.0, then.1@) == next(self, event@),
    {
        match self {
            Picker::AwaitSelection => match event {
                PickEvent::Accepted(rows) => (
                    Picker::AwaitCopy,
                    PickAction::Copy(selection_output(&rows)),
                ),
                PickEvent::Cancelled => (Picker::AwaitCopy, PickAction::Copy(String::new())),
                PickEvent::Failed(message) => (
                    Picker::Finished,
                    PickAction::Abort(PickError::Ui(message)),
                ),
                PickEvent::Completed => (
                    Picker::Finished,
                    PickAction::Abort(PickError::Unexpected),
                ),
            },
            Picker::AwaitCopy => match event {
                PickEvent::Completed => (Picker::Finished, PickAction::Exit(None)),
                PickEvent::Failed(message) => (Picker::Finished, PickAction::Exit(Some(message))),
                _ => (Picker::Finished, PickAction::Abort(PickError::Unexpected)),
            },
            Picker::Finished => (Picker::Finished, PickAction::Abort(PickError::Unexpected)),
        }
    }
}

/// A row's first line is the first line of its glyph: neither the
/// description nor anything else of the entry reaches the output.
pub proof fn lemma_output_ignores_description(entry: EntryView)
    ensures
        first_line(item_text(entry)) == first_line(entry.emoji),
{
    let glyph = entry.emoji;
    let text = item_text(entry);
    crate::item::lemma_line_end(glyph);
    let n = line_end(glyph) as int;
    assert forall|i: int| 0 <= i < n implies text[i] != '\n' by {
        assert(text[i] == glyph[i]);
    }
    if n < glyph.len() {
        assert(text[n] == glyph[n]);
    } else {
        assert(text[n] == '\n');
    }
    lemma_line_end_is(text, n);
    assert(text.take(n) =~= glyph.take(n));
}

/// An entry chosen alone yields exactly its glyph, provided the glyph is a
/// single line.
pub proof fn lemma_single_selection_is_glyph(entry: EntryView)
    requires
        !entry.emoji.contains('\n'),
    ensures
        joined_output(seq![item_text(entry)]) == entry.emoji,
        next(Picker::AwaitSelection, PickEventView::Accepted(items_of(seq![entry]))) == (
            Picker::AwaitCopy,
            PickActionView::Copy(entry.emoji),
        ),
{
    let glyph = entry.emoji;
    lemma_output_ignores_description(entry);
    assert forall|i: int| 0 <= i < glyph.len() implies glyph[i] != '\n' by {
        if glyph[i] == '\n' {
            assert(glyph.contains('\n'));
        }
    }
    lemma_line_end_is(glyph, glyph.len() as int);
    assert(first_line(glyph) =~= glyph);
    let rows = seq![item_text(entry)];
    assert(rows.drop_last() =~= Seq::<Seq<char>>::empty());
    assert(joined_output(rows.drop_last()) =~= Seq::<char>::empty());
    assert(joined_output(rows) =~= glyph);
    assert(items_of(seq![entry]) =~= rows);
}

/// Choosing nothing, or leaving the list without confirming, copies the
/// empty text.
pub proof fn lemma_empty_selection_is_empty()
    ensures
        joined_output(Seq::empty()) == Seq::<char>::empty(),
        next(Picker::AwaitSelection, PickEventView::Accepted(Seq::empty())) == (
            Picker::AwaitCopy,
            PickActionView::Copy(Seq::empty()),
        ),
        next(Picker::AwaitSelection, PickEventView::Cancelled) == (
            Picker::AwaitCopy,
            PickActionView::Copy(Seq::empty()),
        ),
{
}

/// The output of two selections in a row is the output of the first followed
/// by the output of the second: order is kept and nothing is put between.
pub proof fn lemma_joined_output_concat(first: Seq<Seq<char>>, second: Seq<Seq<char>>)
    ensures
        joined_output(first + second) == joined_output(first) + joined_output(second),
    decreases second.len(),
{
    if second.len() == 0 {
        assert(first + second =~= first);
        assert(joined_output(first) + Seq::<char>::empty() =~= joined_output(first));
    } else {
        let both = first + second;
        assert(both.drop_last() =~= first + second.drop_last());
        assert(both.last() == second.last());
        lemma_joined_output_concat(first, second.drop_last());
        assert(joined_output(both) =~= joined_output(first) + joined_output(second));
    }
}

/// Whatever the clipboard answers, the run ends with success: a failure
/// becomes the warning of the `Exit`.
pub proof fn lemma_clipboard_never_fails_the_run(event: PickEventView)
    requires
        event is Completed || event is Failed,
    ensures
        next(Picker::AwaitCopy, event).0 == Picker::Finished,
        next(Picker::AwaitCopy, event).1 is Exit,
{
}

} // verus!
