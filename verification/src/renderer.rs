//! Incremental painter: it records what a terminal has to paint, frame by
//! frame, and remembers how many lines the last frame took so that the next
//! one can erase exactly those.

use vstd::prelude::*;
use crate::input::{concat, Input};

verus! {

/// One instruction for the terminal. Every instruction but `Erase` and
/// `Flush` paints one line.
#[derive(Clone, Debug, PartialEq, Eq)]
pub enum Paint {
    /// Erase this many lines, upwards from the cursor's line.
    Erase(usize),
    /// A highlighted line with the reason of the last rejection.
    Error(String),
    /// The prompt line: message, default hint, and the buffer as the text
    /// before the cursor, the cluster under it (empty at the end of the
    /// buffer) and the text after that cluster.
    Prompt { message: String, default: Option<String>, before: String, under: String, after: String },
    /// One row of a candidate list.
    Choice { selected: bool, text: String },
    /// A dim informational line.
    Help(String),
    /// The static line that replaces an answered prompt.
    Answer { message: String, answer: String },
    /// Commit what was painted so far.
    Flush,
}

/// A [`Paint`] with its texts as sequences of characters.
pub enum PaintView {
    Erase(nat),
    Error(Seq<char>),
    Prompt {
        message: Seq<char>,
        default: Option<Seq<char>>,
        before: Seq<char>,
        under: Seq<char>,
        after: Seq<char>,
    },
    Choice { selected: bool, text: Seq<char> },
    Help(Seq<char>),
    Answer { message: Seq<char>, answer: Seq<char> },
    Flush,
}

/// The view of an optional text.
pub open spec fn opt_text(s: Option<String>) -> Option<Seq<char>> {
    match s {
        Some(t) => Some(t@),
        None => None,
    }
}

impl View for Paint {
    type V = PaintView;

    open spec fn view(&self) -> PaintView {
        match *self {
            Paint::Erase(n) => PaintView::Erase(n as nat),
            Paint::Error(m) => PaintView::Error(m@),
            Paint::Prompt { message, default, before, under, after } => PaintView::Prompt {
                message: message@,
                default: opt_text(default),
                before: before@,
                under: under@,
                after: after@,
            },
            Paint::Choice { selected, text } => PaintView::Choice { selected, text: text@ },
            Paint::Help(m) => PaintView::Help(m@),
            Paint::Answer { message, answer } => PaintView::Answer { message: message@, answer: answer@ },
            Paint::Flush => PaintView::Flush,
        }
    }
}

/// The views of a list of instructions.
pub open spec fn paint_views(ops: Seq<Paint>) -> Seq<PaintView> {
    Seq::new(ops.len(), |i: int| ops[i]@)
}

/// Whether an instruction paints a line.
pub open spec fn paints_line(op: PaintView) -> bool {
    !(op is Erase) && !(op is Flush)
}

/// Number of lines of this session that stand on the terminal after it has
/// carried out `ops`.
pub open spec fn rows_shown(ops: Seq<PaintView>) -> nat
    decreases ops.len(),
{
    if ops.len() == 0 {
        0
    } else {
        let before = rows_shown(ops.drop_last());
        match ops.last() {
            PaintView::Erase(n) => if n <= before {
                (before - n) as nat
            } else {
                0
            },
            PaintView::Flush => before,
            _ => before + 1,
        }
    }
}

/// The prompt line for a buffer of the given clusters with the cursor at
/// `cursor`: the cursor splits the buffer at a cluster boundary.
pub open spec fn prompt_line(
    message: Seq<char>,
    default: Option<Seq<char>>,
    clusters: Seq<Seq<char>>,
    cursor: int,
) -> PaintView {
    PaintView::Prompt {
        message,
        default,
        before: concat(clusters.subrange(0, cursor)),
        under: if cursor < clusters.len() {
            clusters[cursor]
        } else {
            Seq::empty()
        },
        after: if cursor < clusters.len() {
            concat(clusters.subrange(cursor + 1, clusters.len() as int))
        } else {
            Seq::empty()
        },
    }
}

/// The painter of one prompt session.
#[derive(Debug)]
pub struct Renderer {
    ops: Vec<Paint>,
    cur_line: usize,
    committed: usize,
    done: bool,
}

impl Renderer {
    /// Everything the terminal was told to paint so far, in order.
    pub closed spec fn ops(&self) -> Seq<PaintView> {
        paint_views(self.ops@)
    }

    /// Number of lines of the frame under construction.
    pub closed spec fn line_count(&self) -> nat {
        self.cur_line as nat
    }

    /// Number of instructions that were committed by a flush.
    pub closed spec fn committed_len(&self) -> nat {
        self.committed as nat
    }

    /// Whether the session was closed by `cleanup`.
    pub closed spec fn is_done(&self) -> bool {
        self.done
    }

    /// The remembered line count is the number of lines of this session
    /// that stand on the terminal.
    pub closed spec fn wf(&self) -> bool {
        &&& self.cur_line as nat == rows_shown(self.ops())
        &&& self.cur_line <= self.ops@.len()
        &&& self.committed <= self.ops@.len()
    }

    /// The remembered line count of a well-formed painter is the number of
    /// lines of the session that stand on the terminal: a new frame that
    /// erases that many leaves no line of an earlier frame behind.
    pub proof fn lemma_line_count_is_rows_shown(&self)
        requires
            self.wf(),
        ensures
            self.line_count() == rows_shown(self.ops()),
            self.committed_len() <= self.ops().len(),
    {
    }

    /// A painter that has painted nothing.
    pub fn new() -> (r: Renderer)
        ensures
            r.wf(),
            r.ops() == Seq::<PaintView>::empty(),
            r.line_count() == 0,
            r.committed_len() == 0,
            !r.is_done(),
    {
        let r = Renderer { ops: Vec::new(), cur_line: 0, committed: 0, done: false };
        assert(r.ops() =~= Seq::<PaintView>::empty());
        r
    }

    /// Records one instruction that paints a line, unless the session is
    /// closed.
    fn paint_line(&mut self, op: Paint)
        requires
            old(self).wf(),
            paints_line(op@),
        ensures
            final(self).wf(),
            final(self).is_done() == old(self).is_done(),
            final(self).committed_len() == old(self).committed_len(),
            old(self).is_done() ==> final(self).ops() == old(self).ops() && final(self).line_count()
                == old(self).line_count(),
            !old(self).is_done() ==> final(self).ops() == old(self).ops().push(op@)
                && final(self).line_count() == old(self).line_count() + 1,
    {
        if self.done {
            return ;
        }
        let ghost before = self.ops();
        self.ops.push(op);
        let len: usize = self.ops.len();
        proof {
            assert(self.ops() =~= before.push(op@));
            assert(self.ops().drop_last() =~= before);
        }
        self.cur_line = self.cur_line + 1;
    }

    /// Begins a new frame: erases exactly the lines that the last frame
    /// painted, so that none of them remains.
    pub fn reset_prompt(&mut self)
        requires
            old(self).wf(),
        ensures
            final(self).wf(),
            final(self).is_done() == old(self).is_done(),
            final(self).committed_len() == old(self).committed_len(),
            old(self).is_done() ==> final(self).ops() == old(self).ops() && final(self).line_count()
                == old(self).line_count(),
            !old(self).is_done() ==> final(self).ops() == old(self).ops().push(
                PaintView::Erase(old(self).line_count()),
            ) && final(self).line_count() == 0 && rows_shown(final(self).ops()) == 0,
    {
        if self.done {
            return ;
        }
        let ghost before = self.ops();
        let op = Paint::Erase(self.cur_line);
        self.ops.push(op);
        proof {
            assert(self.ops() =~= before.push(PaintView::Erase(old(self).line_count())));
            assert(self.ops().drop_last() =~= before);
        }
        self.cur_line = 0;
    }

    /// Paints the reason of the last rejection on a line of its own.
    pub fn print_error_message(&mut self, message: &str)
        requires
            old(self).wf(),
        ensures
            final(self).wf(),
            final(self).is_done() == old(self).is_done(),
            final(self).committed_len() == old(self).committed_len(),
            old(self).is_done() ==> final(self).ops() == old(self).ops() && final(self).line_count()
                == old(self).line_count(),
            !old(self).is_done() ==> final(self).ops() == old(self).ops().push(
                PaintView::Error(message@),
            ) && final(self).line_count() == old(self).line_count() + 1,
    {
        self.paint_line(Paint::Error(message.to_owned()));
    }

    /// Paints the prompt line: the message, the default hint and the buffer,
    /// split at the cursor's cluster so that the terminal can mark it.
    pub fn print_prompt_input(&mut self, message: &str, default: Option<&str>, input: &Input)
        requires
            old(self).wf(),
            input.wf(),
        ensures
            final(self).wf(),
            final(self).is_done() == old(self).is_done(),
            final(self).committed_len() == old(self).committed_len(),
            old(self).is_done() ==> final(self).ops() == old(self).ops() && final(self).line_count()
                == old(self).line_count(),
            !old(self).is_done() ==> final(self).ops() == old(self).ops().push(
                prompt_line(
                    message@,
                    match default {
                        Some(d) => Some(d@),
                        None => None,
                    },
                    input.clusters(),
                    input.cursor_pos(),
                ),
            ) && final(self).line_count() == old(self).line_count() + 1,
    {
        let hint: Option<String> = match default {
            Some(d) => Some(d.to_owned()),
            None => None,
        };
        let under: String = match input.cluster(input.cursor()) {
            Some(c) => c.to_owned(),
            None => String::new(),
        };
        let op = Paint::Prompt {
            message: message.to_owned(),
            default: hint,
            before: input.before_cursor(),
            under,
            after: input.after_cursor(),
        };
        self.paint_line(op);
    }

    /// Paints one row of a candidate list.
    pub fn print_option(&mut self, selected: bool, text: &str)
        requires
            old(self).wf(),
        ensures
            final(self).wf(),
            final(self).is_done() == old(self).is_done(),
            final(self).committed_len() == old(self).committed_len(),
            old(self).is_done() ==> final(self).ops() == old(self).ops() && final(self).line_count()
                == old(self).line_count(),
            !old(self).is_done() ==> final(self).ops() == old(self).ops().push(
                (PaintView::Choice { selected, text: text@ }),
            ) && final(self).line_count() == old(self).line_count() + 1,
    {
        self.paint_line(Paint::Choice { selected, text: text.to_owned() });
    }

    /// Paints a dim informational line.
    pub fn print_help(&mut self, text: &str)
        requires
            old(self).wf(),
        ensures
            final(self).wf(),
            final(self).is_done() == old(self).is_done(),
            final(self).committed_len() == old(self).committed_len(),
            old(self).is_done() ==> final(self).ops() == old(self).ops() && final(self).line_count()
                == old(self).line_count(),
            !old(self).is_done() ==> final(self).ops() == old(self).ops().push(
                PaintView::Help(text@),
            ) && final(self).line_count() == old(self).line_count() + 1,
    {
        self.paint_line(Paint::Help(text.to_owned()));
    }

    /// Commits the frame: everything painted so far is ready for the
    /// terminal. A closed session is left as it is.
    pub fn flush(&mut self)
        requires
            old(self).wf(),
        ensures
            final(self).wf(),
            final(self).is_done() == old(self).is_done(),
            final(self).line_count() == old(self).line_count(),
            old(self).is_done() ==> final(self).ops() == old(self).ops() && final(
                self).committed_len() == old(self).committed_len(),
            !old(self).is_done() ==> final(self).ops() == old(self).ops().push(PaintView::Flush)
                && final(self).committed_len() == final(self).ops().len(),
    {
        if self.done {
            return ;
        }
        let ghost before = self.ops();
        self.ops.push(Paint::Flush);
        proof {
            assert(self.ops() =~= before.push(PaintView::Flush));
            assert(self.ops().drop_last() =~= before);
        }
        self.committed = self.ops.len();
    }

    /// Replaces the interactive frame by one static line, the message with
    /// the formatted answer, commits it, and closes the session: nothing is
    /// painted after that.
    pub fn cleanup(&mut self, message: &str, answer: &str)
        requires
            old(self).wf(),
        ensures
            final(self).wf(),
            final(self).is_done(),
            old(self).is_done() ==> final(self).ops() == old(self).ops() && final(self).line_count()
                == old(self).line_count() && final(self).committed_len() == old(self).committed_len(),
            !old(self).is_done() ==> final(self).ops() == old(self).ops().push(
                PaintView::Erase(old(self).line_count()),
            ).push((PaintView::Answer { message: message@, answer: answer@ })).push(PaintView::Flush)
                && final(self).line_count() == 1 && rows_shown(final(self).ops()) == 1
                && final(self).committed_len() == final(self).ops().len(),
    {
        if self.done {
            return ;
        }
        self.reset_prompt();
        self.paint_line(Paint::Answer { message: message.to_owned(), answer: answer.to_owned() });
        self.flush();
        self.done = true;
    }

    /// The instructions recorded so far, committed ones first.
    pub fn paints(&self) -> (ops: &Vec<Paint>)
        ensures
            paint_views(ops@) == self.ops(),
    {
        &self.ops
    }

    /// Number of recorded instructions that a flush has committed.
    pub fn committed(&self) -> (n: usize)
        ensures
            n == self.committed_len(),
    {
        self.committed
    }

    /// Number of lines of the frame under construction.
    pub fn lines(&self) -> (n: usize)
        ensures
            n == self.line_count(),
    {
        self.cur_line
    }

    /// Whether `cleanup` has closed the session.
    pub fn finished(&self) -> (b: bool)
        ensures
            b == self.is_done(),
    {
        self.done
    }
}

} // verus!
