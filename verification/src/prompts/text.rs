//! The text prompt: one line of free text, with validation, formatting and
//! completion candidates.

use vstd::prelude::*;
use crate::config::{StringFormatter, StringValidator, Suggester, DEFAULT_PAGE_SIZE};
use crate::error::{InquireError, InquireResult};
use crate::input::{concat, grapheme_clusters, views, Input};
use crate::key::{Key, KeyModifiers};
use crate::renderer::{prompt_line, rows_shown, PaintView, Renderer};
use crate::utils::{paginate, window, window_index};

verus! {

/// The view of an optional borrowed text.
pub open spec fn opt_str(s: Option<&str>) -> Option<Seq<char>> {
    match s {
        Some(t) => Some(t@),
        None => None,
    }
}

/// The help line shown under a candidate list where the prompt has no help
/// message of its own.
pub open spec fn default_help_text() -> Seq<char> {
    "↑↓ to move, tab to auto-complete, enter to submit"@
}

/// The built-in help line.
pub fn default_help_message() -> (s: &'static str)
    ensures
        s@ == default_help_text(),
{
    "↑↓ to move, tab to auto-complete, enter to submit"
}

/// Configuration of a prompt for one line of text.
pub struct Text<'a, V, F, S> {
    /// Message presented to the user.
    pub message: &'a str,
    /// Default value, used when the user submits an empty input.
    pub default: Option<&'a str>,
    /// Help message presented to the user.
    pub help_message: Option<&'a str>,
    /// Formats the accepted answer for its final display; without one the
    /// answer is shown as it is.
    pub formatter: Option<F>,
    /// Validators applied to a submitted answer, in order.
    pub validators: Vec<V>,
    /// Number of candidates shown at once.
    pub page_size: usize,
    /// Provides completion candidates for the current input.
    pub suggester: Option<S>,
}

impl<'a, V: StringValidator, F: StringFormatter, S: Suggester> Text<'a, V, F, S> {
    /// A prompt with the given message and the default options: no default
    /// value, no help message, no validators, answers shown as they are, no
    /// suggestions, the default page size.
    pub fn new(message: &'a str) -> (t: Self)
        ensures
            t.message == message,
            t.default is None,
            t.help_message is None,
            t.formatter is None,
            t.validators@ == Seq::<V>::empty(),
            t.page_size == DEFAULT_PAGE_SIZE,
            t.suggester is None,
    {
        Text {
            message,
            default: None,
            help_message: None,
            formatter: None,
            validators: Vec::new(),
            page_size: DEFAULT_PAGE_SIZE,
            suggester: None,
        }
    }

    /// Sets the help message.
    pub fn with_help_message(self, message: &'a str) -> (t: Self)
        ensures
            t == (Text { help_message: Some(message), ..self }),
    {
        let mut t = self;
        t.help_message = Some(message);
        t
    }

    /// Sets the default value.
    pub fn with_default(self, message: &'a str) -> (t: Self)
        ensures
            t == (Text { default: Some(message), ..self }),
    {
        let mut t = self;
        t.default = Some(message);
        t
    }

    /// Sets the suggester.
    pub fn with_suggester(self, suggester: S) -> (t: Self)
        ensures
            t == (Text { suggester: Some(suggester), ..self }),
    {
        let mut t = self;
        t.suggester = Some(suggester);
        t
    }

    /// Sets the formatter.
    pub fn with_formatter(self, formatter: F) -> (t: Self)
        ensures
            t == (Text { formatter: Some(formatter), ..self }),
    {
        let mut t = self;
        t.formatter = Some(formatter);
        t
    }

    /// Sets the page size.
    pub fn with_page_size(self, page_size: usize) -> (t: Self)
        ensures
            t == (Text { page_size, ..self }),
    {
        let mut t = self;
        t.page_size = page_size;
        t
    }

    /// Adds a validator at the end of the chain.
    pub fn with_validator(self, validator: V) -> (t: Self)
        ensures
            t.validators@ == self.validators@.push(validator),
            t.message == self.message,
            t.default == self.default,
            t.help_message == self.help_message,
            t.formatter == self.formatter,
            t.page_size == self.page_size,
            t.suggester == self.suggester,
    {
        let mut t = self;
        t.validators.push(validator);
        t
    }

    /// Adds the validators at the end of the chain, in their order.
    pub fn with_validators(self, validators: Vec<V>) -> (t: Self)
        ensures
            t.validators@ == self.validators@ + validators@,
            t.message == self.message,
            t.default == self.default,
            t.help_message == self.help_message,
            t.formatter == self.formatter,
            t.page_size == self.page_size,
            t.suggester == self.suggester,
    {
        let mut t = self;
        let mut more = validators;
        t.validators.append(&mut more);
        t
    }
}

/// What a prompt session shows and edits: the buffer, the rejection on
/// display, the candidates and the highlighted one.
pub struct PromptView {
    pub clusters: Seq<Seq<char>>,
    pub cursor: int,
    pub error: Option<Seq<char>>,
    pub options: Seq<Seq<char>>,
    pub index: int,
}

/// Where one key leaves a session.
pub enum StepView {
    /// The session goes on in this state.
    Editing(PromptView),
    /// The session ends with this answer.
    Accepted(Seq<char>),
    /// The session ends because the user canceled.
    Canceled,
    /// The session ends because the user interrupted.
    Interrupted,
}

/// How a session over a finite run of keys ends.
pub enum SessionEnd {
    Accepted(Seq<char>),
    Canceled,
    Interrupted,
    /// The keys ran out before the session ended.
    Starved,
}

/// What a key did to a running session.
#[derive(Debug)]
pub enum Step {
    /// The session goes on.
    Editing,
    /// The answer was accepted.
    Accepted(String),
    /// The session failed.
    Failed(InquireError),
}

/// The highlighted index brought into a list of `len` candidates: 0 for an
/// empty list, else at most the last index.
pub open spec fn clamp_index(index: int, len: int) -> int {
    if len <= 0 {
        0
    } else if index >= len {
        len - 1
    } else {
        index
    }
}

/// The rejection of the first validator from `from` on that rejects `text`.
pub open spec fn first_rejection<V: StringValidator>(
    validators: Seq<V>,
    text: Seq<char>,
    from: int,
) -> Option<Seq<char>>
    decreases validators.len() - from,
{
    if from < 0 || from >= validators.len() {
        None
    } else {
        match validators[from].verdict(text) {
            Some(reason) => Some(reason),
            None => first_rejection(validators, text, from + 1),
        }
    }
}

/// The value that a submit puts to the validators: the buffer's text, or
/// the default where the buffer is empty and a default is configured.
pub open spec fn effective_value(default: Option<Seq<char>>, text: Seq<char>) -> Seq<char> {
    match default {
        Some(d) => if text.len() == 0 {
            d
        } else {
            text
        },
        None => text,
    }
}

/// The outcome of a submit: the effective value where every validator
/// passes it, else the first rejection.
pub open spec fn final_answer<V: StringValidator>(
    validators: Seq<V>,
    default: Option<Seq<char>>,
    text: Seq<char>,
) -> Result<Seq<char>, Seq<char>> {
    let value = effective_value(default, text);
    match first_rejection(validators, value, 0) {
        Some(reason) => Err(reason),
        None => Ok(value),
    }
}

/// The state after the candidates were asked for again: with a suggester,
/// its candidates for the buffer's text and the index clamped to them.
pub open spec fn refreshed<S: Suggester>(suggester: Option<S>, v: PromptView) -> PromptView {
    match suggester {
        Some(s) => {
            let options = s.candidates(concat(v.clusters));
            PromptView { options, index: clamp_index(v.index, options.len() as int), ..v }
        },
        None => v,
    }
}

/// The state after the highlight moved up by one, from the first candidate
/// round to the last.
pub open spec fn after_up(v: PromptView) -> PromptView {
    PromptView {
        index: if v.index > 0 {
            v.index - 1
        } else if v.options.len() > 0 {
            v.options.len() - 1
        } else {
            0
        },
        ..v
    }
}

/// The state after the highlight moved down by one, from the last candidate
/// round to the first.
pub open spec fn after_down(v: PromptView) -> PromptView {
    PromptView {
        index: if v.index + 1 >= v.options.len() {
            0
        } else {
            v.index + 1
        },
        ..v
    }
}

/// The state after tab: the highlighted candidate, if there is one, becomes
/// the buffer's content with the cursor at its end, and the candidates are
/// asked for again with that content.
pub open spec fn after_tab<S: Suggester>(suggester: Option<S>, v: PromptView) -> PromptView {
    if 0 <= v.index < v.options.len() {
        let clusters = grapheme_clusters(v.options[v.index]);
        refreshed(suggester, PromptView { clusters, cursor: clusters.len() as int, ..v })
    } else {
        v
    }
}

/// The state after a key that neither ends the session nor submits.
pub open spec fn changed<S: Suggester>(suggester: Option<S>, v: PromptView, key: Key) -> PromptView {
    match key {
        Key::Tab => after_tab(suggester, v),
        Key::Up(m) if m == KeyModifiers::spec_none() => after_up(v),
        Key::Down(m) if m == KeyModifiers::spec_none() => after_down(v),
        _ => {
            let edited = Input::after_key(v.clusters, v.cursor, key);
            let moved = PromptView { clusters: edited.0, cursor: edited.1, ..v };
            if Input::edits_text(key, v.cursor, v.clusters.len() as int) {
                refreshed(suggester, moved)
            } else {
                moved
            }
        },
    }
}

/// Where `key` leaves a session in state `v`.
pub open spec fn stepped<V: StringValidator, S: Suggester>(
    validators: Seq<V>,
    default: Option<Seq<char>>,
    suggester: Option<S>,
    v: PromptView,
    key: Key,
) -> StepView {
    match key {
        Key::Cancel => StepView::Canceled,
        Key::Interrupt => StepView::Interrupted,
        Key::Submit => match final_answer(validators, default, concat(v.clusters)) {
            Ok(answer) => StepView::Accepted(answer),
            Err(reason) => StepView::Editing(PromptView { error: Some(reason), ..v }),
        },
        _ => StepView::Editing(changed(suggester, v, key)),
    }
}

/// How a session that starts in state `v` ends on the keys `keys[from..]`.
pub open spec fn session<V: StringValidator, S: Suggester>(
    validators: Seq<V>,
    default: Option<Seq<char>>,
    suggester: Option<S>,
    v: PromptView,
    keys: Seq<Key>,
    from: int,
) -> SessionEnd
    decreases keys.len() - from,
{
    if from < 0 || from >= keys.len() {
        SessionEnd::Starved
    } else {
        match stepped(validators, default, suggester, v, keys[from]) {
            StepView::Editing(next) => session(validators, default, suggester, next, keys, from + 1),
            StepView::Accepted(answer) => SessionEnd::Accepted(answer),
            StepView::Canceled => SessionEnd::Canceled,
            StepView::Interrupted => SessionEnd::Interrupted,
        }
    }
}

/// Number of keys of `keys` that lie before the first one that a session
/// started at `keys[from]` in state `v` does not read: the session reads up
/// to the key that ends it.
pub open spec fn keys_read<V: StringValidator, S: Suggester>(
    validators: Seq<V>,
    default: Option<Seq<char>>,
    suggester: Option<S>,
    v: PromptView,
    keys: Seq<Key>,
    from: int,
) -> int
    decreases keys.len() - from,
{
    if from < 0 || from >= keys.len() {
        keys.len() as int
    } else {
        match stepped(validators, default, suggester, v, keys[from]) {
            StepView::Editing(next) => keys_read(validators, default, suggester, next, keys, from + 1),
            _ => from + 1,
        }
    }
}

/// Whether `r` is the result of a session that ends as `end`: the answer,
/// the failure of a cancel or of an interrupt, or a failed read where the
/// keys ran out.
pub open spec fn result_of(end: SessionEnd, r: InquireResult<String>) -> bool {
    match end {
        SessionEnd::Accepted(answer) => r is Ok && r->Ok_0@ == answer,
        SessionEnd::Canceled => r == Err::<String, InquireError>(InquireError::OperationCanceled),
        SessionEnd::Interrupted => r == Err::<String, InquireError>(
            InquireError::OperationInterrupted,
        ),
        SessionEnd::Starved => r is Err && r->Err_0 is IO,
    }
}

/// Tab with a highlighted candidate puts that candidate's clusters into
/// the buffer, the cursor at their end, and asks the suggester for the
/// candidates of the new content, the highlight clamped to them.
pub proof fn lemma_tab_takes_candidate<S: Suggester>(suggester: S, v: PromptView)
    requires
        0 <= v.index < v.options.len(),
    ensures
        changed(Some(suggester), v, Key::Tab).clusters == grapheme_clusters(v.options[v.index]),
        changed(Some(suggester), v, Key::Tab).cursor == grapheme_clusters(
            v.options[v.index],
        ).len(),
        changed(Some(suggester), v, Key::Tab).options == suggester.candidates(
            concat(grapheme_clusters(v.options[v.index])),
        ),
        changed(Some(suggester), v, Key::Tab).index == clamp_index(
            v.index,
            changed(Some(suggester), v, Key::Tab).options.len() as int,
        ),
        changed(Some(suggester), v, Key::Tab).error == v.error,
{
}

/// The cancel key ends a session with a cancellation in whatever state it
/// finds it, and whatever keys follow: there is no answer.
pub proof fn lemma_cancel_ends_session<V: StringValidator, S: Suggester>(
    validators: Seq<V>,
    default: Option<Seq<char>>,
    suggester: Option<S>,
    v: PromptView,
    keys: Seq<Key>,
    from: int,
)
    requires
        0 <= from < keys.len(),
        keys[from] == Key::Cancel,
    ensures
        stepped(validators, default, suggester, v, Key::Cancel) == StepView::Canceled,
        session(validators, default, suggester, v, keys, from) == SessionEnd::Canceled,
{
}

/// The interrupt key ends a session with an interruption, which is not a
/// cancellation.
pub proof fn lemma_interrupt_ends_session<V: StringValidator, S: Suggester>(
    validators: Seq<V>,
    default: Option<Seq<char>>,
    suggester: Option<S>,
    v: PromptView,
    keys: Seq<Key>,
    from: int,
)
    requires
        0 <= from < keys.len(),
        keys[from] == Key::Interrupt,
    ensures
        session(validators, default, suggester, v, keys, from) == SessionEnd::Interrupted,
        SessionEnd::Interrupted != SessionEnd::Canceled,
{
}

/// Without validators a submit is accepted with the buffer's text exactly,
/// unless the buffer is empty and a default takes its place.
pub proof fn lemma_unvalidated_answer_is_text<V: StringValidator, S: Suggester>(
    validators: Seq<V>,
    default: Option<Seq<char>>,
    suggester: Option<S>,
    v: PromptView,
)
    requires
        validators.len() == 0,
        default is None || concat(v.clusters).len() > 0,
    ensures
        final_answer(validators, default, concat(v.clusters)) == Ok::<Seq<char>, Seq<char>>(
            concat(v.clusters),
        ),
        stepped(validators, default, suggester, v, Key::Submit) == StepView::Accepted(
            concat(v.clusters),
        ),
{
}

/// A rejected submit leaves the buffer, the cursor and the candidates as
/// they were: only the rejection on display changes.
pub proof fn lemma_rejection_keeps_buffer<V: StringValidator, S: Suggester>(
    validators: Seq<V>,
    default: Option<Seq<char>>,
    suggester: Option<S>,
    v: PromptView,
)
    requires
        final_answer(validators, default, concat(v.clusters)) is Err,
    ensures
        stepped(validators, default, suggester, v, Key::Submit) == StepView::Editing(
            PromptView {
                error: Some(final_answer(validators, default, concat(v.clusters))->Err_0),
                ..v
            },
        ),
{
}

/// The rows of a candidate window, the one at `selected` marked.
pub open spec fn choice_rows(shown: Seq<Seq<char>>, selected: int) -> Seq<PaintView> {
    Seq::new(shown.len(), |k: int| PaintView::Choice { selected: k == selected, text: shown[k] })
}

/// The help line of a frame: the prompt's own, else the built-in one where
/// there are candidates, else none.
pub open spec fn help_rows(help: Option<Seq<char>>, candidates: int) -> Seq<PaintView> {
    match help {
        Some(h) => seq![PaintView::Help(h)],
        None => if candidates > 0 {
            seq![PaintView::Help(default_help_text())]
        } else {
            Seq::empty()
        },
    }
}

/// The rejection line of a frame, if a rejection is on display.
pub open spec fn error_rows(error: Option<Seq<char>>) -> Seq<PaintView> {
    match error {
        Some(e) => seq![PaintView::Error(e)],
        None => Seq::empty(),
    }
}

/// One frame of a session: erase the `shown` lines of the last frame, then
/// the rejection, the prompt line, the page of candidates that holds the
/// highlighted one, the help line, and a flush.
pub open spec fn frame(
    message: Seq<char>,
    default: Option<Seq<char>>,
    help: Option<Seq<char>>,
    page_size: nat,
    v: PromptView,
    shown: nat,
) -> Seq<PaintView> {
    seq![PaintView::Erase(shown)] + error_rows(v.error) + seq![
        prompt_line(message, default, v.clusters, v.cursor),
    ] + choice_rows(
        window(page_size, v.options, v.index as nat),
        window_index(page_size, v.options.len(), v.index as nat) as int,
    ) + help_rows(help, v.options.len() as int) + seq![PaintView::Flush]
}

/// Number of lines that a frame paints: all of it but the erasing and the
/// flush.
pub open spec fn frame_lines(
    message: Seq<char>,
    default: Option<Seq<char>>,
    help: Option<Seq<char>>,
    page_size: nat,
    v: PromptView,
) -> nat {
    (frame(message, default, help, page_size, v, 0).len() - 2) as nat
}

/// What a prompt is configured with, as far as a session depends on it.
pub struct Setup<V, F, S> {
    pub message: Seq<char>,
    pub default: Option<Seq<char>>,
    pub help: Option<Seq<char>>,
    pub page_size: nat,
    pub validators: Seq<V>,
    pub formatter: Option<F>,
    pub suggester: Option<S>,
}

/// The text shown for an accepted answer: what the formatter makes of it,
/// or the answer itself where there is no formatter.
pub open spec fn shown_text<F: StringFormatter>(formatter: Option<F>, answer: Seq<char>) -> Seq<
    char,
> {
    match formatter {
        Some(f) => f.formatted(answer),
        None => answer,
    }
}

/// Everything that a session paints on the keys `keys[from..]`, starting
/// in state `v` with `shown` lines of an earlier frame on the terminal: a
/// frame before every key read, each erasing the lines of the one before,
/// and after an accepted answer the static answered line in place of the
/// last frame.
pub open spec fn painted<V: StringValidator, F: StringFormatter, S: Suggester>(
    setup: Setup<V, F, S>,
    v: PromptView,
    keys: Seq<Key>,
    from: int,
    shown: nat,
) -> Seq<PaintView>
    decreases keys.len() - from,
{
    let now = frame(setup.message, setup.default, setup.help, setup.page_size, v, shown);
    let lines = frame_lines(setup.message, setup.default, setup.help, setup.page_size, v);
    if from < 0 || from >= keys.len() {
        now
    } else {
        match stepped(setup.validators, setup.default, setup.suggester, v, keys[from]) {
            StepView::Editing(next) => now + painted(setup, next, keys, from + 1, lines),
            StepView::Accepted(answer) => now + seq![
                PaintView::Erase(lines),
                PaintView::Answer {
                    message: setup.message,
                    answer: shown_text(setup.formatter, answer),
                },
                PaintView::Flush,
            ],
            StepView::Canceled => now,
            StepView::Interrupted => now,
        }
    }
}

/// A running session of a text prompt.
pub struct TextPrompt<'a, V, F, S> {
    pub message: &'a str,
    pub default: Option<&'a str>,
    pub help_message: Option<&'a str>,
    pub input: Input,
    pub formatter: Option<F>,
    pub validators: Vec<V>,
    pub error: Option<String>,
    pub suggester: Option<S>,
    pub suggested_options: Vec<String>,
    pub cursor_index: usize,
    pub page_size: usize,
}

impl<'a, V: StringValidator, F: StringFormatter, S: Suggester> TextPrompt<'a, V, F, S> {
    /// What the session shows and edits.
    pub open spec fn view(&self) -> PromptView {
        PromptView {
            clusters: self.input.clusters(),
            cursor: self.input.cursor_pos(),
            error: match self.error {
                Some(e) => Some(e@),
                None => None,
            },
            options: views(self.suggested_options@),
            index: self.cursor_index as int,
        }
    }

    /// The buffer is well formed, and the highlighted index is 0 for an
    /// empty candidate list and below its length otherwise.
    pub open spec fn wf(&self) -> bool {
        &&& self.input.wf()
        &&& self.cursor_index as int == clamp_index(
            self.cursor_index as int,
            self.suggested_options@.len() as int,
        )
    }

    /// What the session is configured with.
    pub open spec fn setup(&self) -> Setup<V, F, S> {
        Setup {
            message: self.message@,
            default: opt_str(self.default),
            help: opt_str(self.help_message),
            page_size: self.page_size as nat,
            validators: self.validators@,
            formatter: self.formatter,
            suggester: self.suggester,
        }
    }

    /// The two sessions have the same configuration.
    pub open spec fn same_config(&self, other: &Self) -> bool {
        &&& self.message == other.message
        &&& self.default == other.default
        &&& self.help_message == other.help_message
        &&& self.formatter == other.formatter
        &&& self.validators == other.validators
        &&& self.suggester == other.suggester
        &&& self.page_size == other.page_size
    }

    /// Starts a session of the prompt: an empty buffer, no rejection, and
    /// the candidates for the empty text with the first one highlighted.
    pub fn from(so: Text<'a, V, F, S>) -> (p: Self)
        ensures
            p.wf(),
            p.input.is_segmented(),
            p.message == so.message,
            p.default == so.default,
            p.help_message == so.help_message,
            p.formatter == so.formatter,
            p.validators == so.validators,
            p.suggester == so.suggester,
            p.page_size == so.page_size,
            p@.clusters == Seq::<Seq<char>>::empty(),
            p@.cursor == 0,
            p@.error is None,
            p@.index == 0,
            p@.options == match so.suggester {
                Some(s) => s.candidates(Seq::empty()),
                None => Seq::empty(),
            },
    {
        let suggested_options: Vec<String> = match &so.suggester {
            Some(s) => {
                proof {
                    reveal_strlit("");
                    assert(""@ =~= Seq::<char>::empty());
                }
                s.suggest("")
            },
            None => {
                let none: Vec<String> = Vec::new();
                assert(views(none@) =~= Seq::<Seq<char>>::empty());
                none
            },
        };
        TextPrompt {
            message: so.message,
            default: so.default,
            help_message: so.help_message,
            formatter: so.formatter,
            validators: so.validators,
            suggester: so.suggester,
            input: Input::new(),
            error: None,
            cursor_index: 0,
            page_size: so.page_size,
            suggested_options,
        }
    }

    /// Asks the suggester, if there is one, for the candidates of the
    /// buffer's text and brings the highlighted index into their range.
    pub fn update_suggestions(&mut self)
        requires
            old(self).input.wf(),
        ensures
            final(self).wf(),
            final(self).same_config(old(self)),
            final(self).input == old(self).input,
            final(self).suggester is Some ==> final(self)@ == refreshed(
                old(self).suggester,
                old(self)@,
            ),
            final(self).suggester is None ==> final(self)@ == (PromptView {
                index: clamp_index(old(self)@.index, old(self)@.options.len() as int),
                ..old(self)@
            }),
    {
        match &self.suggester {
            Some(s) => {
                let text = self.input.content();
                self.suggested_options = s.suggest(text.as_str());
            },
            None => {},
        }
        let len: usize = self.suggested_options.len();
        if len == 0 {
            self.cursor_index = 0;
        } else if self.cursor_index >= len {
            self.cursor_index = len - 1;
        }
    }

    /// Moves the highlight up by one, from the first candidate round to the
    /// last. The text is untouched: the result is always `false`.
    pub fn move_cursor_up(&mut self) -> (dirty: bool)
        requires
            old(self).wf(),
        ensures
            final(self).wf(),
            old(self).input.is_segmented() ==> final(self).input.is_segmented(),
            final(self).same_config(old(self)),
            final(self)@ == after_up(old(self)@),
            !dirty,
    {
        let len: usize = self.suggested_options.len();
        self.cursor_index = if self.cursor_index > 0 {
            self.cursor_index - 1
        } else if len > 0 {
            len - 1
        } else {
            0
        };
        false
    }

    /// Moves the highlight down by one, from the last candidate round to
    /// the first. The text is untouched: the result is always `false`.
    pub fn move_cursor_down(&mut self) -> (dirty: bool)
        requires
            old(self).wf(),
        ensures
            final(self).wf(),
            old(self).input.is_segmented() ==> final(self).input.is_segmented(),
            final(self).same_config(old(self)),
            final(self)@ == after_down(old(self)@),
            !dirty,
    {
        let len: usize = self.suggested_options.len();
        if len == 0 || self.cursor_index >= len - 1 {
            self.cursor_index = 0;
        } else {
            self.cursor_index = self.cursor_index + 1;
        }
        false
    }

    /// Replaces the buffer's content by the highlighted candidate, if there
    /// is one, and asks for the candidates of the new content. Tells whether
    /// there was one.
    pub fn use_select_option(&mut self) -> (dirty: bool)
        requires
            old(self).wf(),
        ensures
            final(self).wf(),
            old(self).input.is_segmented() ==> final(self).input.is_segmented(),
            final(self).same_config(old(self)),
            dirty == (old(self)@.index < old(self)@.options.len()),
            final(self)@ == after_tab(old(self).suggester, old(self)@),
            dirty ==> final(self).input.is_segmented(),
            dirty ==> concat(final(self)@.clusters) == old(self)@.options[old(self)@.index],
            dirty && old(self).suggester is Some ==> final(self)@.options == old(
                self).suggester->0.candidates(old(self)@.options[old(self)@.index]),
    {
        if self.cursor_index < self.suggested_options.len() {
            let input = Input::new().with_content(self.suggested_options[self.cursor_index].as_str());
            self.input = input;
            self.update_suggestions();
            true
        } else {
            false
        }
    }

    /// Applies a key that neither ends the session nor submits: tab takes
    /// the highlighted candidate, up and down without modifiers move the
    /// highlight, any other key goes to the buffer, and the candidates are
    /// asked for again where the text was edited.
    pub fn on_change(&mut self, key: Key)
        requires
            old(self).wf(),
        ensures
            final(self).wf(),
            old(self).input.is_segmented() ==> final(self).input.is_segmented(),
            final(self).same_config(old(self)),
            final(self)@ == changed(old(self).suggester, old(self)@, key),
    {
        match key {
            Key::Tab => {
                self.use_select_option();
            },
            Key::Up(m) if m.is_empty() => {
                self.move_cursor_up();
            },
            Key::Down(m) if m.is_empty() => {
                self.move_cursor_down();
            },
            other => {
                let dirty = self.input.handle_key(other);
                if dirty {
                    self.update_suggestions();
                }
            },
        }
    }

    /// The outcome of a submit: the effective value (the buffer's text, or
    /// the default for an empty buffer) where every validator passes it, else
    /// the reason given by the first validator that rejects it.
    pub fn get_final_answer(&self) -> (r: Result<String, String>)
        ensures
            match final_answer(self.validators@, opt_str(self.default), concat(self@.clusters)) {
                Ok(answer) => r is Ok && r->Ok_0@ == answer,
                Err(reason) => r is Err && r->Err_0@ == reason,
            },
    {
        let text = self.input.content();
        let value: String = match self.default {
            Some(d) => if text.as_str().is_empty() {
                d.to_owned()
            } else {
                text
            },
            None => text,
        };
        let mut i: usize = 0;
        while i < self.validators.len()
            invariant
                i <= self.validators@.len(),
                value@ == effective_value(opt_str(self.default), concat(self@.clusters)),
                first_rejection(self.validators@, value@, 0) == first_rejection(
                    self.validators@,
                    value@,
                    i as int,
                ),
            decreases self.validators@.len() - i,
        {
            let checked = self.validators[i].validate(value.as_str());
            let ghost verdict = self.validators@[i as int].verdict(value@);
            assert(first_rejection(self.validators@, value@, i as int) == match verdict {
                Some(reason) => Some(reason),
                None => first_rejection(self.validators@, value@, i + 1),
            });
            match checked {
                Ok(_) => {},
                Err(reason) => {
                    return Err(reason);
                },
            }
            i += 1;
        }
        Ok(value)
    }

    /// Applies one key to the session. Cancel and interrupt end it with
    /// their own failures, whatever the state. Submit ends it with the
    /// answer, or keeps it going with the rejection on display and the
    /// buffer as it was. Any other key edits or moves, as `on_change` says.
    pub fn step(&mut self, key: Key) -> (r: Step)
        requires
            old(self).wf(),
        ensures
            final(self).wf(),
            old(self).input.is_segmented() ==> final(self).input.is_segmented(),
            final(self).same_config(old(self)),
            match stepped(
                old(self).validators@,
                opt_str(old(self).default),
                old(self).suggester,
                old(self)@,
                key,
            ) {
                StepView::Editing(next) => r is Editing && final(self)@ == next,
                StepView::Accepted(answer) => {
                    &&& r is Accepted
                    &&& r->Accepted_0@ == answer
                    &&& final(self)@ == old(self)@
                },
                StepView::Canceled => {
                    &&& r == Step::Failed(InquireError::OperationCanceled)
                    &&& final(self)@ == old(self)@
                },
                StepView::Interrupted => r == Step::Failed(InquireError::OperationInterrupted)
                    && final(self)@ == old(self)@,
            },
    {
        match key {
            Key::Cancel => Step::Failed(InquireError::OperationCanceled),
            Key::Interrupt => Step::Failed(InquireError::OperationInterrupted),
            Key::Submit => match self.get_final_answer() {
                Ok(answer) => Step::Accepted(answer),
                Err(reason) => {
                    self.error = Some(reason);
                    Step::Editing
                },
            },
            other => {
                self.on_change(other);
                Step::Editing
            },
        }
    }

    /// The text shown for an accepted answer: what the formatter makes of
    /// it, or the answer itself where there is no formatter.
    pub open spec fn shown_answer(&self, answer: Seq<char>) -> Seq<char> {
        shown_text(self.formatter, answer)
    }

    /// Formats an accepted answer for display.
    pub fn display(&self, answer: &str) -> (shown: String)
        ensures
            shown@ == self.shown_answer(answer@),
    {
        match &self.formatter {
            Some(f) => f.format(answer),
            None => answer.to_owned(),
        }
    }

    /// Paints the frame of the current state: it erases the lines of the
    /// last frame, then paints the rejection if one is on display, the
    /// prompt line, the page of candidates around the highlighted one, the
    /// help line, and commits. A closed renderer is left as it is.
    pub fn render(&self, renderer: &mut Renderer)
        requires
            self.wf(),
            old(renderer).wf(),
        ensures
            final(renderer).wf(),
            final(renderer).is_done() == old(renderer).is_done(),
            final(renderer).line_count() == rows_shown(final(renderer).ops()),
            old(renderer).is_done() ==> final(renderer).ops() == old(renderer).ops(),
            !old(renderer).is_done() ==> final(renderer).line_count() == frame_lines(
                self.message@,
                opt_str(self.default),
                opt_str(self.help_message),
                self.page_size as nat,
                self@,
            ),
            !old(renderer).is_done() ==> final(renderer).ops() == old(renderer).ops() + frame(
                self.message@,
                opt_str(self.default),
                opt_str(self.help_message),
                self.page_size as nat,
                self@,
                old(renderer).line_count(),
            ),
    {
        let ghost base = renderer.ops();
        let ghost live = !renderer.is_done();
        let ghost head = seq![PaintView::Erase(renderer.line_count())] + error_rows(self@.error) + seq![
            prompt_line(self.message@, opt_str(self.default), self@.clusters, self@.cursor),
        ];
        renderer.reset_prompt();
        match &self.error {
            Some(err) => {
                renderer.print_error_message(err.as_str());
            },
            None => {},
        }
        renderer.print_prompt_input(self.message, self.default, &self.input);
        assert(live ==> renderer.ops() =~= base + head);
        assert(live ==> renderer.line_count() == renderer.ops().len() - base.len() - 1);
        let (page, selected) = paginate(
            self.page_size,
            self.suggested_options.as_slice(),
            self.cursor_index,
        );
        let ghost shown = window(self.page_size as nat, self@.options, self.cursor_index as nat);
        let ghost rows = choice_rows(shown, selected as int);
        assert(views(page@) =~= shown);
        let mut i: usize = 0;
        while i < page.len()
            invariant
                i <= page@.len(),
                renderer.wf(),
                renderer.is_done() == !live,
                !live ==> renderer.ops() == base,
                live ==> renderer.ops() == base + head + rows.subrange(0, i as int),
                live ==> renderer.line_count() == renderer.ops().len() - base.len() - 1,
                rows == choice_rows(views(page@), selected as int),
            decreases page@.len() - i,
        {
            renderer.print_option(selected == i, page[i].as_str());
            proof {
                assert(rows.subrange(0, i + 1) =~= rows.subrange(0, i as int).push(rows[i as int]));
                assert(live ==> renderer.ops() =~= base + head + rows.subrange(0, i + 1));
            }
            i += 1;
        }
        assert(rows.subrange(0, i as int) =~= rows);
        match self.help_message {
            Some(message) => {
                renderer.print_help(message);
            },
            None => {
                if self.suggested_options.len() > 0 {
                    renderer.print_help(default_help_message());
                }
            },
        }
        renderer.flush();
        proof {
            let tail = help_rows(opt_str(self.help_message), self@.options.len() as int);
            assert(live ==> renderer.ops() =~= base + head + rows + tail + seq![PaintView::Flush]);
            assert(base + head + rows + tail + seq![PaintView::Flush] =~= base + (head + rows + tail
                + seq![PaintView::Flush]));
            renderer.lemma_line_count_is_rows_shown();
        }
    }

    /// Runs the session on the keys `keys[from..]`, in order: before each
    /// key the current frame is painted; the first key that ends the session
    /// decides the result, and the keys after it are not looked at. An
    /// accepted answer is formatted once and painted as the static answered
    /// line. Keys that run out before the session has ended are a failed
    /// read. Beside the result stands the index of the first key that was
    /// not read.
    pub fn prompt_from(self, renderer: &mut Renderer, keys: &Vec<Key>, from: usize) -> (r: (
        InquireResult<String>,
        usize,
    ))
        requires
            self.wf(),
            old(renderer).wf(),
            from <= keys@.len(),
        ensures
            final(renderer).wf(),
            old(renderer).is_done() ==> final(renderer).ops() == old(renderer).ops(),
            !old(renderer).is_done() ==> final(renderer).ops() == old(renderer).ops() + painted(
                self.setup(),
                self@,
                keys@,
                from as int,
                old(renderer).line_count(),
            ),
            result_of(
                session(self.validators@, opt_str(self.default), self.suggester, self@, keys@, from as int),
                r.0,
            ),
            r.0 is Ok ==> final(renderer).is_done(),
            from <= r.1 <= keys@.len(),
            r.1 == keys_read(
                self.validators@,
                opt_str(self.default),
                self.suggester,
                self@,
                keys@,
                from as int,
            ),
    {
        let ghost start = renderer.ops();
        let ghost shown = renderer.line_count();
        let ghost live = !renderer.is_done();
        let mut state = self;
        let mut i: usize = from;
        while i < keys.len()
            invariant
                from <= i <= keys@.len(),
                state.wf(),
                state.same_config(&self),
                state.setup() == self.setup(),
                renderer.wf(),
                start == old(renderer).ops(),
                shown == old(renderer).line_count(),
                live == !old(renderer).is_done(),
                renderer.is_done() == !live,
                !live ==> renderer.ops() == start,
                live ==> start + painted(self.setup(), self@, keys@, from as int, shown)
                    == renderer.ops() + painted(
                    self.setup(),
                    state@,
                    keys@,
                    i as int,
                    renderer.line_count(),
                ),
                session(
                    self.validators@,
                    opt_str(self.default),
                    self.suggester,
                    self@,
                    keys@,
                    from as int,
                ) == session(
                    self.validators@,
                    opt_str(self.default),
                    self.suggester,
                    state@,
                    keys@,
                    i as int,
                ),
                keys_read(
                    self.validators@,
                    opt_str(self.default),
                    self.suggester,
                    self@,
                    keys@,
                    from as int,
                ) == keys_read(
                    self.validators@,
                    opt_str(self.default),
                    self.suggester,
                    state@,
                    keys@,
                    i as int,
                ),
            decreases keys@.len() - i,
        {
            let ghost before = renderer.ops();
            let ghost erased = renderer.line_count();
            let ghost was = state@;
            let ghost now = frame(
                self.message@,
                opt_str(self.default),
                opt_str(self.help_message),
                self.page_size as nat,
                was,
                erased,
            );
            state.render(renderer);
            let ghost lines = renderer.line_count();
            let taken = state.step(keys[i]);
            assert(state.setup() == self.setup());
            match taken {
                Step::Editing => {
                    assert(live ==> before + (now + painted(
                        self.setup(),
                        state@,
                        keys@,
                        i + 1,
                        lines,
                    )) =~= (before + now) + painted(self.setup(), state@, keys@, i + 1, lines));
                },
                Step::Accepted(answer) => {
                    let text = state.display(answer.as_str());
                    renderer.cleanup(state.message, text.as_str());
                    proof {
                        let last = seq![
                            PaintView::Erase(lines),
                            PaintView::Answer {
                                message: self.message@,
                                answer: shown_text(self.formatter, answer@),
                            },
                            PaintView::Flush,
                        ];
                        assert(live ==> renderer.ops() =~= (before + now) + last);
                        assert(before + (now + last) =~= (before + now) + last);
                    }
                    return (Ok(answer), i + 1);
                },
                Step::Failed(e) => {
                    return (Err(e), i + 1);
                },
            }
            i += 1;
        }
        state.render(renderer);
        (Err(InquireError::IO("no key left to read".to_owned())), i)
    }

    /// Runs the session on the keys given, from the first one on, as
    /// `prompt_from` says.
    pub fn prompt(self, renderer: &mut Renderer, keys: &Vec<Key>) -> (r: InquireResult<String>)
        requires
            self.wf(),
            old(renderer).wf(),
        ensures
            final(renderer).wf(),
            old(renderer).is_done() ==> final(renderer).ops() == old(renderer).ops(),
            !old(renderer).is_done() ==> final(renderer).ops() == old(renderer).ops() + painted(
                self.setup(),
                self@,
                keys@,
                0,
                old(renderer).line_count(),
            ),
            result_of(
                session(self.validators@, opt_str(self.default), self.suggester, self@, keys@, 0),
                r,
            ),
            r is Ok ==> final(renderer).is_done(),
    {
        self.prompt_from(renderer, keys, 0).0
    }
}

impl<'a, V: StringValidator, F: StringFormatter, S: Suggester> Text<'a, V, F, S> {
    /// What the prompt is configured with.
    pub open spec fn setup(&self) -> Setup<V, F, S> {
        Setup {
            message: self.message@,
            default: opt_str(self.default),
            help: opt_str(self.help_message),
            page_size: self.page_size as nat,
            validators: self.validators@,
            formatter: self.formatter,
            suggester: self.suggester,
        }
    }

    /// The state in which a session starts: an empty buffer, no rejection,
    /// the candidates for the empty text, the first one highlighted.
    pub open spec fn first_view(suggester: Option<S>) -> PromptView {
        PromptView {
            clusters: Seq::empty(),
            cursor: 0,
            error: None,
            options: match suggester {
                Some(s) => s.candidates(Seq::empty()),
                None => Seq::empty(),
            },
            index: 0,
        }
    }

    /// How a session of this prompt ends on the keys `keys[from..]`.
    pub open spec fn outcome(&self, keys: Seq<Key>, from: int) -> SessionEnd {
        session(
            self.validators@,
            opt_str(self.default),
            self.suggester,
            Self::first_view(self.suggester),
            keys,
            from,
        )
    }

    /// Index of the first key that a session of this prompt on the keys
    /// `keys[from..]` does not read.
    pub open spec fn next_key(&self, keys: Seq<Key>, from: int) -> int {
        keys_read(
            self.validators@,
            opt_str(self.default),
            self.suggester,
            Self::first_view(self.suggester),
            keys,
            from,
        )
    }

    /// Runs a session of this prompt on the keys given, painting into
    /// `renderer`.
    pub fn prompt_with_renderer(self, renderer: &mut Renderer, keys: &Vec<Key>) -> (r: InquireResult<
        String,
    >)
        requires
            old(renderer).wf(),
        ensures
            final(renderer).wf(),
            old(renderer).is_done() ==> final(renderer).ops() == old(renderer).ops(),
            !old(renderer).is_done() ==> final(renderer).ops() == old(renderer).ops() + painted(
                self.setup(),
                Self::first_view(self.suggester),
                keys@,
                0,
                old(renderer).line_count(),
            ),
            result_of(self.outcome(keys@, 0), r),
            r is Ok ==> final(renderer).is_done(),
    {
        let session = TextPrompt::from(self);
        assert(session@ =~= Self::first_view(self.suggester));
        session.prompt(renderer, keys)
    }

    /// Runs a session of this prompt on the keys `keys[from..]`, with a
    /// painter of its own. Beside the result stands the index of the first
    /// key that was not read.
    pub fn prompt_from(self, keys: &Vec<Key>, from: usize) -> (r: (InquireResult<String>, usize))
        requires
            from <= keys@.len(),
        ensures
            result_of(self.outcome(keys@, from as int), r.0),
            from <= r.1 <= keys@.len(),
            r.1 == self.next_key(keys@, from as int),
    {
        let mut renderer = Renderer::new();
        let session = TextPrompt::from(self);
        assert(session@ =~= Self::first_view(self.suggester));
        session.prompt_from(&mut renderer, keys, from)
    }

    /// Runs a session of this prompt on the keys given, with a painter of
    /// its own.
    pub fn prompt(self, keys: &Vec<Key>) -> (r: InquireResult<String>)
        ensures
            result_of(self.outcome(keys@, 0), r),
    {
        self.prompt_from(keys, 0).0
    }
}

/// How a row of sessions ends.
pub enum ManyEnd {
    /// Every session was answered: the answers, in order.
    Answers(Seq<Seq<char>>),
    /// A session failed as the `SessionEnd` says, and none after it ran.
    Failed(SessionEnd),
}

/// The answers `first` put in front of those of `rest`.
pub open spec fn answers_then(first: Seq<Seq<char>>, rest: ManyEnd) -> ManyEnd {
    match rest {
        ManyEnd::Answers(more) => ManyEnd::Answers(first + more),
        ManyEnd::Failed(end) => ManyEnd::Failed(end),
    }
}

/// How the sessions of `texts` end when they run in order on one run of
/// keys, each starting with the key after the one that ended the session
/// before it, the first with `keys[from]`.
pub open spec fn sessions<'a, V: StringValidator, F: StringFormatter, S: Suggester>(
    texts: Seq<Text<'a, V, F, S>>,
    keys: Seq<Key>,
    from: int,
) -> ManyEnd
    decreases texts.len(),
{
    if texts.len() == 0 {
        ManyEnd::Answers(Seq::empty())
    } else {
        match texts[0].outcome(keys, from) {
            SessionEnd::Accepted(answer) => answers_then(
                seq![answer],
                sessions(texts.remove(0), keys, texts[0].next_key(keys, from)),
            ),
            end => ManyEnd::Failed(end),
        }
    }
}

/// Prompting for a whole collection of texts.
pub trait PromptMany {
    /// Prompts for each text in turn, all on one run of keys, and returns
    /// the answers or the first failure.
    fn prompt(self, keys: &Vec<Key>) -> (r: InquireResult<Vec<String>>);
}

impl<'a, V: StringValidator, F: StringFormatter, S: Suggester> PromptMany for Vec<
    Text<'a, V, F, S>,
> {
    fn prompt(self, keys: &Vec<Key>) -> (r: InquireResult<Vec<String>>)
        ensures
            match sessions(self@, keys@, 0) {
                ManyEnd::Answers(answers) => r is Ok && views(r->Ok_0@) == answers,
                ManyEnd::Failed(end) => r is Err && result_of(
                    end,
                    Err::<String, InquireError>(r->Err_0),
                ),
            },
    {
        let mut rest = self;
        let mut answers: Vec<String> = Vec::new();
        let mut at: usize = 0;
        assert(views(answers@) =~= Seq::<Seq<char>>::empty());
        assert(answers_then(Seq::empty(), sessions(self@, keys@, 0)) == sessions(self@, keys@, 0)) by {
            match sessions(self@, keys@, 0) {
                ManyEnd::Answers(more) => {
                    assert(Seq::<Seq<char>>::empty() + more =~= more);
                },
                ManyEnd::Failed(_) => {},
            }
        }
        while rest.len() > 0
            invariant
                at <= keys@.len(),
                sessions(self@, keys@, 0) == answers_then(
                    views(answers@),
                    sessions(rest@, keys@, at as int),
                ),
            decreases rest@.len(),
        {
            let ghost done = views(answers@);
            let ghost ahead = rest@;
            let text = rest.remove(0);
            let (result, next) = text.prompt_from(keys, at);
            match result {
                Ok(answer) => {
                    answers.push(answer);
                    proof {
                        assert(views(answers@) =~= done.push(answer@));
                        match sessions(rest@, keys@, next as int) {
                            ManyEnd::Answers(more) => {
                                assert(done + (seq![answer@] + more) =~= done.push(answer@) + more);
                            },
                            ManyEnd::Failed(_) => {},
                        }
                    }
                    at = next;
                },
                Err(e) => {
                    return Err(e);
                },
            }
        }
        proof {
            assert(views(answers@) + Seq::<Seq<char>>::empty() =~= views(answers@));
        }
        Ok(answers)
    }
}

} // verus!
