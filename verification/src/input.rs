//! Text buffer edited one user-perceived character at a time.

use vstd::prelude::*;
use unicode_segmentation::UnicodeSegmentation;
use crate::key::Key;

verus! {

/// The extended grapheme clusters of a text, in order, as
/// `UnicodeSegmentation::graphemes(text, true)` yields them.
pub uninterp spec fn grapheme_clusters(text: Seq<char>) -> Seq<Seq<char>>;

/// The texts of a list of strings.
pub open spec fn views(parts: Seq<String>) -> Seq<Seq<char>> {
    Seq::new(parts.len(), |i: int| parts[i]@)
}

/// The pieces joined in order.
pub open spec fn concat(parts: Seq<Seq<char>>) -> Seq<char>
    decreases parts.len(),
{
    if parts.len() == 0 {
        Seq::empty()
    } else {
        concat(parts.drop_last()) + parts.last()
    }
}

/// No piece is empty.
pub open spec fn all_nonempty(parts: Seq<Seq<char>>) -> bool {
    forall|i: int| 0 <= i < parts.len() ==> (#[trigger] parts[i]).len() > 0
}

/// The text that results from putting `piece` in front of cluster `at`.
pub open spec fn text_with(clusters: Seq<Seq<char>>, at: int, piece: Seq<char>) -> Seq<char> {
    concat(clusters.subrange(0, at)) + piece + concat(clusters.subrange(at, clusters.len() as int))
}

/// The text that results from taking cluster `at` out.
pub open spec fn text_without(clusters: Seq<Seq<char>>, at: int) -> Seq<char> {
    concat(clusters.subrange(0, at)) + concat(clusters.subrange(at + 1, clusters.len() as int))
}

/// The smaller of a wanted cursor position and the number of clusters.
pub open spec fn clamp_cursor(wanted: int, len: int) -> int {
    if wanted <= len {
        wanted
    } else {
        len
    }
}

/// Joining one more piece appends it to the joined text.
pub proof fn lemma_concat_push(parts: Seq<Seq<char>>, piece: Seq<char>)
    ensures
        concat(parts.push(piece)) == concat(parts) + piece,
{
    assert(parts.push(piece).drop_last() =~= parts);
    assert(parts.push(piece).last() == piece);
}

/// Splits a text into its extended grapheme clusters by
/// `UnicodeSegmentation::graphemes(text, true)`, each cluster copied into a
/// string of its own. The iterator hands out consecutive, non-empty slices
/// that start at the text's beginning and stop at its end, so the clusters
/// joined give the text back.
#[verifier::external_body]
fn split_graphemes(text: &str) -> (parts: Vec<String>)
    ensures
        views(parts@) == grapheme_clusters(text@),
        concat(views(parts@)) == text@,
        all_nonempty(views(parts@)),
{
    text.graphemes(true).map(|cluster| cluster.to_string()).collect()
}

/// Appends `piece` to `out` by `String::push_str`.
#[verifier::external_body]
pub(crate) fn append(out: &mut String, piece: &str)
    ensures
        final(out)@ == old(out)@ + piece@,
{
    out.push_str(piece);
}

/// The one-character string of `c`, made by `String::from`.
#[verifier::external_body]
fn char_string(c: char) -> (s: String)
    ensures
        s@ == seq![c],
{
    String::from(c)
}

/// Appends the pieces `parts[from..to]` to `out`, in order.
fn append_range(out: &mut String, parts: &Vec<String>, from: usize, to: usize)
    requires
        from <= to <= parts.len(),
    ensures
        final(out)@ == old(out)@ + concat(views(parts@).subrange(from as int, to as int)),
{
    let ghost start = out@;
    let mut i: usize = from;
    proof {
        assert(views(parts@).subrange(from as int, from as int) =~= Seq::empty());
        assert(start + concat(Seq::<Seq<char>>::empty()) =~= start);
    }
    while i < to
        invariant
            from <= i <= to <= parts.len(),
            out@ == start + concat(views(parts@).subrange(from as int, i as int)),
        decreases to - i,
    {
        let ghost before = views(parts@).subrange(from as int, i as int);
        append(out, parts[i].as_str());
        proof {
            lemma_concat_push(before, parts[i as int]@);
            assert(views(parts@).subrange(from as int, i + 1) =~= before.push(parts[i as int]@));
            assert((start + concat(before)) + parts[i as int]@ =~= start + (concat(before)
                + parts[i as int]@));
        }
        i += 1;
    }
}

/// A line of text under edit: its grapheme clusters and a cursor between
/// two of them.
#[derive(Clone, Debug)]
pub struct Input {
    clusters: Vec<String>,
    cursor: usize,
}

impl Input {
    /// The clusters of the buffer, in order.
    pub closed spec fn clusters(&self) -> Seq<Seq<char>> {
        views(self.clusters@)
    }

    /// Number of clusters to the left of the cursor.
    pub closed spec fn cursor_pos(&self) -> int {
        self.cursor as int
    }

    /// The text of the buffer: its clusters joined.
    pub open spec fn text(&self) -> Seq<char> {
        concat(self.clusters())
    }

    /// The cursor lies within the buffer.
    pub open spec fn wf(&self) -> bool {
        0 <= self.cursor_pos() <= self.clusters().len()
    }

    /// The buffer holds exactly the grapheme clusters of its text, so the
    /// cursor stands on a cluster boundary of that text.
    pub open spec fn is_segmented(&self) -> bool {
        self.clusters() == grapheme_clusters(self.text())
    }

    /// An empty buffer.
    pub fn new() -> (input: Input)
        ensures
            input.wf(),
            input.is_segmented(),
            input.clusters() == Seq::<Seq<char>>::empty(),
            input.cursor_pos() == 0,
            input.text() == Seq::<char>::empty(),
    {
        let parts = split_graphemes("");
        proof {
            reveal_strlit("");
            if parts@.len() > 0 {
                assert(views(parts@).last().len() > 0);
                assert(concat(views(parts@)).len() > 0);
            }
            assert(views(parts@) =~= Seq::<Seq<char>>::empty());
        }
        Input::from_clusters(parts, 0)
    }

    /// A buffer of the given clusters with the cursor at `cursor`, or at the
    /// end where `cursor` lies beyond it. The clusters are taken as they
    /// are: whether they are the grapheme clusters of their text is up to
    /// the caller.
    pub fn from_clusters(parts: Vec<String>, cursor: usize) -> (input: Input)
        ensures
            input.wf(),
            input.clusters() == views(parts@),
            input.cursor_pos() == clamp_cursor(cursor as int, parts@.len() as int),
    {
        let len: usize = parts.len();
        let at: usize = if cursor <= len {
            cursor
        } else {
            len
        };
        Input { clusters: parts, cursor: at }
    }

    /// Replaces the whole content by `content`; the cursor goes to the end.
    pub fn with_content(self, content: &str) -> (input: Input)
        ensures
            input.wf(),
            input.is_segmented(),
            input.text() == content@,
            input.clusters() == grapheme_clusters(content@),
            input.cursor_pos() == input.clusters().len(),
    {
        let parts = split_graphemes(content);
        let len: usize = parts.len();
        Input::from_clusters(parts, len)
    }

    /// Number of clusters in the buffer.
    pub fn length(&self) -> (n: usize)
        ensures
            n == self.clusters().len(),
    {
        self.clusters.len()
    }

    /// Number of clusters to the left of the cursor.
    pub fn cursor(&self) -> (n: usize)
        ensures
            n == self.cursor_pos(),
    {
        self.cursor
    }

    /// The cluster at position `i`, if there is one.
    pub fn cluster(&self, i: usize) -> (r: Option<&str>)
        ensures
            i < self.clusters().len() ==> r is Some && r->0@ == self.clusters()[i as int],
            i >= self.clusters().len() ==> r is None,
    {
        if i < self.clusters.len() {
            Some(self.clusters[i].as_str())
        } else {
            None
        }
    }

    /// The text of the buffer.
    pub fn content(&self) -> (text: String)
        ensures
            text@ == self.text(),
    {
        let mut text = String::new();
        append_range(&mut text, &self.clusters, 0, self.clusters.len());
        proof {
            assert(self.clusters().subrange(0, self.clusters().len() as int) =~= self.clusters());
            assert(Seq::<char>::empty() + self.text() =~= self.text());
        }
        text
    }

    /// The text before the cursor.
    pub fn before_cursor(&self) -> (text: String)
        requires
            self.wf(),
        ensures
            text@ == concat(self.clusters().subrange(0, self.cursor_pos())),
    {
        let mut text = String::new();
        append_range(&mut text, &self.clusters, 0, self.cursor);
        proof {
            let t = concat(self.clusters().subrange(0, self.cursor_pos()));
            assert(Seq::<char>::empty() + t =~= t);
        }
        text
    }

    /// The text after the cluster under the cursor.
    pub fn after_cursor(&self) -> (text: String)
        requires
            self.wf(),
        ensures
            self.cursor_pos() < self.clusters().len() ==> text@ == concat(
                self.clusters().subrange(self.cursor_pos() + 1, self.clusters().len() as int),
            ),
            self.cursor_pos() == self.clusters().len() ==> text@ == Seq::<char>::empty(),
    {
        let mut text = String::new();
        if self.cursor < self.clusters.len() {
            append_range(&mut text, &self.clusters, self.cursor + 1, self.clusters.len());
            proof {
                let t = concat(
                    self.clusters().subrange(self.cursor_pos() + 1, self.clusters().len() as int),
                );
                assert(Seq::<char>::empty() + t =~= t);
            }
        }
        text
    }

    /// Puts `grapheme` in front of the cursor and segments the new text
    /// afresh; the cursor advances by one cluster, as far as the text goes.
    pub fn insert(&mut self, grapheme: &str)
        requires
            old(self).wf(),
        ensures
            final(self).wf(),
            final(self).is_segmented(),
            final(self).text() == text_with(old(self).clusters(), old(self).cursor_pos(), grapheme@),
            final(self).cursor_pos() == clamp_cursor(
                old(self).cursor_pos() + 1,
                final(self).clusters().len() as int,
            ),
    {
        let mut text = String::new();
        append_range(&mut text, &self.clusters, 0, self.cursor);
        append(&mut text, grapheme);
        append_range(&mut text, &self.clusters, self.cursor, self.clusters.len());
        proof {
            let t = concat(self.clusters().subrange(0, self.cursor_pos()));
            assert(Seq::<char>::empty() + t =~= t);
        }
        let parts = split_graphemes(text.as_str());
        let wanted: usize = if self.cursor < parts.len() {
            self.cursor + 1
        } else {
            parts.len()
        };
        *self = Input::from_clusters(parts, wanted);
    }

    /// Takes out cluster `at` and segments the remaining text afresh; the
    /// cursor goes to `at`, as far as the text goes.
    fn remove(&mut self, at: usize)
        requires
            old(self).wf(),
            at < old(self).clusters().len(),
        ensures
            final(self).wf(),
            final(self).is_segmented(),
            final(self).text() == text_without(old(self).clusters(), at as int),
            final(self).cursor_pos() == clamp_cursor(at as int, final(self).clusters().len() as int),
    {
        let len: usize = self.clusters.len();
        let mut text = String::new();
        append_range(&mut text, &self.clusters, 0, at);
        append_range(&mut text, &self.clusters, at + 1, len);
        proof {
            let t = concat(self.clusters().subrange(0, at as int));
            assert(Seq::<char>::empty() + t =~= t);
        }
        let parts = split_graphemes(text.as_str());
        *self = Input::from_clusters(parts, at);
    }

    /// Removes the cluster to the left of the cursor, whatever its width in
    /// code points. With the cursor at the start nothing changes. Tells
    /// whether a cluster was removed.
    pub fn delete_before(&mut self) -> (removed: bool)
        requires
            old(self).wf(),
        ensures
            final(self).wf(),
            removed == (old(self).cursor_pos() > 0),
            old(self).is_segmented() ==> final(self).is_segmented(),
            !removed ==> *final(self) == *old(self),
            removed ==> final(self).is_segmented() && final(self).text() == text_without(
                old(self).clusters(),
                old(self).cursor_pos() - 1,
            ) && final(self).cursor_pos() == clamp_cursor(
                old(self).cursor_pos() - 1,
                final(self).clusters().len() as int,
            ),
    {
        if self.cursor == 0 {
            return false;
        }
        let at: usize = self.cursor - 1;
        self.remove(at);
        true
    }

    /// Removes the cluster under the cursor. With the cursor at the end
    /// nothing changes. Tells whether a cluster was removed.
    pub fn delete_at(&mut self) -> (removed: bool)
        requires
            old(self).wf(),
        ensures
            final(self).wf(),
            removed == (old(self).cursor_pos() < old(self).clusters().len()),
            old(self).is_segmented() ==> final(self).is_segmented(),
            !removed ==> *final(self) == *old(self),
            removed ==> final(self).is_segmented() && final(self).text() == text_without(
                old(self).clusters(),
                old(self).cursor_pos(),
            ) && final(self).cursor_pos() == clamp_cursor(
                old(self).cursor_pos(),
                final(self).clusters().len() as int,
            ),
    {
        if self.cursor >= self.clusters.len() {
            return false;
        }
        let at: usize = self.cursor;
        self.remove(at);
        true
    }

    /// Moves the cursor one cluster to the left, unless it is at the start.
    pub fn move_left(&mut self)
        requires
            old(self).wf(),
        ensures
            final(self).wf(),
            old(self).is_segmented() ==> final(self).is_segmented(),
            final(self).clusters() == old(self).clusters(),
            final(self).cursor_pos() == if old(self).cursor_pos() > 0 {
                old(self).cursor_pos() - 1
            } else {
                0
            },
    {
        if self.cursor > 0 {
            self.cursor = self.cursor - 1;
        }
    }

    /// Moves the cursor one cluster to the right, unless it is at the end.
    pub fn move_right(&mut self)
        requires
            old(self).wf(),
        ensures
            final(self).wf(),
            old(self).is_segmented() ==> final(self).is_segmented(),
            final(self).clusters() == old(self).clusters(),
            final(self).cursor_pos() == clamp_cursor(
                old(self).cursor_pos() + 1,
                old(self).clusters().len() as int,
            ),
    {
        if self.cursor < self.clusters.len() {
            self.cursor = self.cursor + 1;
        }
    }

    /// Moves the cursor to `at`, or to the end where `at` lies beyond it.
    pub fn move_to(&mut self, at: usize)
        requires
            old(self).wf(),
        ensures
            final(self).wf(),
            old(self).is_segmented() ==> final(self).is_segmented(),
            final(self).clusters() == old(self).clusters(),
            final(self).cursor_pos() == clamp_cursor(at as int, old(self).clusters().len() as int),
    {
        let len: usize = self.clusters.len();
        self.cursor = if at <= len {
            at
        } else {
            len
        };
    }

    /// Whether `key` changes the text of a buffer of `len` clusters with the
    /// cursor at `cursor`.
    pub open spec fn edits_text(key: Key, cursor: int, len: int) -> bool {
        match key {
            Key::Char(_, m) => !m.control && !m.alt,
            Key::Backspace => cursor > 0,
            Key::Delete(_) => cursor < len,
            _ => false,
        }
    }

    /// The clusters and the cursor that `key` leaves of a buffer: an edit
    /// segments the new text afresh and clamps the cursor to it.
    pub open spec fn after_key(clusters: Seq<Seq<char>>, cursor: int, key: Key) -> (
        Seq<Seq<char>>,
        int,
    ) {
        let len = clusters.len() as int;
        match key {
            Key::Char(c, m) => if !m.control && !m.alt {
                let now = grapheme_clusters(text_with(clusters, cursor, seq![c]));
                (now, clamp_cursor(cursor + 1, now.len() as int))
            } else {
                (clusters, cursor)
            },
            Key::Backspace => if cursor > 0 {
                let now = grapheme_clusters(text_without(clusters, cursor - 1));
                (now, clamp_cursor(cursor - 1, now.len() as int))
            } else {
                (clusters, cursor)
            },
            Key::Delete(_) => if cursor < len {
                let now = grapheme_clusters(text_without(clusters, cursor));
                (now, clamp_cursor(cursor, now.len() as int))
            } else {
                (clusters, cursor)
            },
            Key::Left(_) => (clusters, if cursor > 0 {
                cursor - 1
            } else {
                0
            }),
            Key::Right(_) => (clusters, clamp_cursor(cursor + 1, len)),
            Key::Home => (clusters, 0),
            Key::End => (clusters, len),
            _ => (clusters, cursor),
        }
    }

    /// The clusters and the cursor after the keys `keys[from..]`, applied in
    /// order.
    pub open spec fn after_keys(clusters: Seq<Seq<char>>, cursor: int, keys: Seq<Key>, from: int) -> (
        Seq<Seq<char>>,
        int,
    )
        decreases keys.len() - from,
    {
        if from < 0 || from >= keys.len() {
            (clusters, cursor)
        } else {
            let next = Self::after_key(clusters, cursor, keys[from]);
            Self::after_keys(next.0, next.1, keys, from + 1)
        }
    }

    /// Whatever keys are applied to a buffer whose cursor lies within it,
    /// in whatever order, the cursor still lies within the buffer.
    pub proof fn lemma_cursor_stays_in_range(
        clusters: Seq<Seq<char>>,
        cursor: int,
        keys: Seq<Key>,
        from: int,
    )
        requires
            0 <= cursor <= clusters.len(),
        ensures
            0 <= Self::after_keys(clusters, cursor, keys, from).1 <= Self::after_keys(
                clusters,
                cursor,
                keys,
                from,
            ).0.len(),
        decreases keys.len() - from,
    {
        if 0 <= from < keys.len() {
            let next = Self::after_key(clusters, cursor, keys[from]);
            Self::lemma_cursor_stays_in_range(next.0, next.1, keys, from + 1);
        }
    }

    /// Backspace leaves a buffer without clusters as it is.
    pub proof fn lemma_backspace_on_empty(clusters: Seq<Seq<char>>, cursor: int)
        requires
            clusters.len() == 0,
            0 <= cursor <= clusters.len(),
        ensures
            Self::after_key(clusters, cursor, Key::Backspace) == (clusters, cursor),
            !Self::edits_text(Key::Backspace, cursor, clusters.len() as int),
    {
    }

    /// Applies an editing key: a character without control or alt is
    /// inserted, backspace and delete remove a cluster, the arrows, home and
    /// end move the cursor; any other key is ignored. Tells whether the text
    /// was edited.
    pub fn handle_key(&mut self, key: Key) -> (dirty: bool)
        requires
            old(self).wf(),
        ensures
            final(self).wf(),
            dirty == Self::edits_text(key, old(self).cursor_pos(), old(self).clusters().len() as int),
            old(self).is_segmented() ==> final(self).is_segmented(),
            dirty ==> final(self).is_segmented(),
            (final(self).clusters(), final(self).cursor_pos()) == Self::after_key(
                old(self).clusters(),
                old(self).cursor_pos(),
                key,
            ),
    {
        match key {
            Key::Char(c, m) => {
                if !m.control && !m.alt {
                    let s = char_string(c);
                    self.insert(s.as_str());
                    true
                } else {
                    false
                }
            },
            Key::Backspace => self.delete_before(),
            Key::Delete(_) => self.delete_at(),
            Key::Left(_) => {
                self.move_left();
                false
            },
            Key::Right(_) => {
                self.move_right();
                false
            },
            Key::Home => {
                self.move_to(0);
                false
            },
            Key::End => {
                let len: usize = self.clusters.len();
                self.move_to(len);
                false
            },
            _ => false,
        }
    }
}

} // verus!
