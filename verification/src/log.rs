//! The activity log: the most recent lines of everything that was appended.
use crate::text;
use std::collections::VecDeque;
use vstd::prelude::*;
use vstd::string::*;

verus! {

/// How many lines the log keeps.
pub const OUTPUT_BLOCK_LIMIT: usize = 2000;

/// Whether a list of lines ends with one that goes on.
pub open spec fn is_open(blocks: Seq<Seq<char>>) -> bool {
    blocks.len() > 0 && blocks.last().len() > 0 && blocks.last().last() != '\n'
}

/// The lines after a character was appended: it goes on with an open line, or starts another.
pub open spec fn with_char(blocks: Seq<Seq<char>>, c: char) -> Seq<Seq<char>> {
    if is_open(blocks) {
        blocks.drop_last().push(blocks.last().push(c))
    } else {
        blocks.push(seq![c])
    }
}

/// The lines after a text was appended, none of them forgotten.
pub open spec fn with_text(blocks: Seq<Seq<char>>, s: Seq<char>) -> Seq<Seq<char>>
    decreases s.len(),
{
    if s.len() == 0 {
        blocks
    } else {
        with_char(with_text(blocks, s.drop_last()), s.last())
    }
}

/// The most recent lines.
pub open spec fn recent(blocks: Seq<Seq<char>>) -> Seq<Seq<char>> {
    if blocks.len() > OUTPUT_BLOCK_LIMIT {
        blocks.subrange(blocks.len() - OUTPUT_BLOCK_LIMIT, blocks.len() as int)
    } else {
        blocks
    }
}

/// The text of the first `n` lines.
pub open spec fn joined(blocks: Seq<Seq<char>>, n: nat) -> Seq<char>
    decreases n,
{
    if n == 0 {
        Seq::empty()
    } else {
        joined(blocks, (n - 1) as nat) + blocks[n - 1]
    }
}

/// The values of a list of lines.
pub open spec fn block_texts(blocks: Seq<String>) -> Seq<Seq<char>> {
    blocks.map_values(|block: String| block@)
}

/// The activity log.
#[derive(Debug)]
pub struct OutputBuffer {
    blocks: VecDeque<String>,
}

impl View for OutputBuffer {
    type V = Seq<Seq<char>>;

    closed spec fn view(&self) -> Seq<Seq<char>> {
        block_texts(self.blocks@)
    }
}

proof fn lemma_text_in_parts(blocks: Seq<Seq<char>>, a: Seq<char>, b: Seq<char>)
    ensures
        with_text(blocks, a + b) == with_text(with_text(blocks, a), b),
    decreases b.len(),
{
    if b.len() == 0 {
        assert(a + b =~= a);
    } else {
        lemma_text_in_parts(blocks, a, b.drop_last());
        assert((a + b).drop_last() =~= a + b.drop_last());
        assert((a + b).last() == b.last());
    }
}

proof fn lemma_piece(blocks: Seq<Seq<char>>, piece: Seq<char>)
    requires
        piece.len() > 0,
        forall|k: int| 0 <= k < piece.len() - 1 ==> #[trigger] piece[k] != '\n',
    ensures
        with_text(blocks, piece) == (if is_open(blocks) {
            blocks.drop_last().push(blocks.last() + piece)
        } else {
            blocks.push(piece)
        }),
    decreases piece.len(),
{
    if piece.len() == 1 {
        assert(piece.drop_last() =~= Seq::empty());
        assert(with_text(blocks, piece.drop_last()) == blocks);
        if is_open(blocks) {
            assert(blocks.last() + piece =~= blocks.last().push(piece.last()));
        } else {
            assert(piece =~= seq![piece.last()]);
        }
    } else {
        let head = piece.drop_last();
        assert forall|k: int| 0 <= k < head.len() - 1 implies #[trigger] head[k] != '\n' by {
            assert(head[k] == piece[k]);
        }
        lemma_piece(blocks, head);
        let before = with_text(blocks, head);
        assert(head.last() == piece[piece.len() - 2]);
        if is_open(blocks) {
            assert(before.last() == blocks.last() + head);
            assert(before.last().last() == head.last());
            assert(before.drop_last() =~= blocks.drop_last());
            assert((blocks.last() + head).push(piece.last()) =~= blocks.last() + piece);
        } else {
            assert(before.last() == head);
            assert(before.drop_last() =~= blocks);
            assert(head.push(piece.last()) =~= piece);
        }
    }
}

impl OutputBuffer {
    /// Whether no more lines are kept than may be.
    pub open spec fn well_formed(self) -> bool {
        self@.len() <= OUTPUT_BLOCK_LIMIT
    }

    /// An empty log.
    pub fn new() -> (buffer: OutputBuffer)
        ensures
            buffer.well_formed(),
            buffer@ == Seq::<Seq<char>>::empty(),
    {
        let buffer = OutputBuffer { blocks: VecDeque::new() };
        assert(buffer@ =~= Seq::empty());
        buffer
    }

    /// How many lines are kept.
    pub fn block_count(&self) -> (n: usize)
        ensures
            n == self@.len(),
    {
        self.blocks.len()
    }

    /// Forgets every line.
    pub fn clear(&mut self)
        ensures
            final(self).well_formed(),
            final(self)@ == Seq::<Seq<char>>::empty(),
    {
        self.blocks.clear();
        assert(self@ =~= Seq::empty());
    }

    fn append_piece(&mut self, piece: &str)
        requires
            piece@.len() > 0,
            forall|k: int| 0 <= k < piece@.len() - 1 ==> #[trigger] piece@[k] != '\n',
        ensures
            final(self)@ == with_text(old(self)@, piece@),
    {
        proof {
            lemma_piece(self@, piece@);
        }
        let ghost before = self@;
        let count: usize = self.blocks.len();
        let mut goes_on = false;
        if count > 0 {
            let last = &self.blocks[count - 1];
            assert(before.last() == last@);
            let size: usize = last.as_str().unicode_len();
            if size > 0 {
                goes_on = last.as_str().get_char(size - 1) != '\n';
            }
        }
        if goes_on {
            match self.blocks.pop_back() {
                Some(last) => {
                    let mut last = last;
                    last.append(piece);
                    self.blocks.push_back(last);
                    assert(self@ =~= before.drop_last().push(before.last() + piece@));
                },
                None => {},
            }
        } else {
            self.blocks.push_back(piece.to_owned());
            assert(self@ =~= before.push(piece@));
        }
    }

    /// Appends a text, and forgets the oldest lines where there are too many.
    pub fn append(&mut self, s: &str)
        requires
            old(self).well_formed(),
        ensures
            final(self).well_formed(),
            final(self)@ == recent(with_text(old(self)@, s@)),
    {
        let chars = text::chars_of(s);
        let ghost t = s@;
        let ghost before = self@;
        let mut start: usize = 0;
        let mut i: usize = 0;
        assert(t.subrange(0, 0) =~= Seq::empty());
        while i < chars.len()
            invariant
                start <= i <= chars.len(),
                chars@ == t,
                s@ == t,
                before == old(self)@,
                self@ == with_text(before, t.subrange(0, start as int)),
                forall|k: int| start <= k < i ==> #[trigger] t[k] != '\n',
            decreases chars.len() - i,
        {
            if chars[i] == '\n' {
                let piece = s.substring_char(start, i + 1);
                proof {
                    lemma_text_in_parts(
                        before,
                        t.subrange(0, start as int),
                        t.subrange(start as int, i + 1),
                    );
                    assert(t.subrange(0, start as int) + t.subrange(start as int, i + 1)
                        =~= t.subrange(0, i + 1));
                    assert forall|k: int| 0 <= k < piece@.len() - 1 implies #[trigger] piece@[k]
                        != '\n' by {
                        assert(piece@[k] == t[start + k]);
                    }
                }
                self.append_piece(piece);
                i = i + 1;
                start = i;
            } else {
                i = i + 1;
            }
        }
        if start < i {
            let piece = s.substring_char(start, i);
            proof {
                lemma_text_in_parts(
                    before,
                    t.subrange(0, start as int),
                    t.subrange(start as int, i as int),
                );
                assert(t.subrange(0, start as int) + t.subrange(start as int, i as int) =~= t);
                assert forall|k: int| 0 <= k < piece@.len() - 1 implies #[trigger] piece@[k]
                    != '\n' by {
                    assert(piece@[k] == t[start + k]);
                }
            }
            self.append_piece(piece);
        } else {
            assert(t.subrange(0, start as int) =~= t);
        }
        let ghost full = self@;
        assert(full == with_text(before, t));
        let ghost mut gone: int = 0;
        while self.blocks.len() > OUTPUT_BLOCK_LIMIT
            invariant
                0 <= gone <= full.len(),
                self@ == full.subrange(gone, full.len() as int),
                gone > 0 ==> full.len() - gone >= OUTPUT_BLOCK_LIMIT,
            decreases self.blocks.len(),
        {
            let ghost kept = self@;
            assert(kept.len() == self.blocks@.len());
            let _ = self.blocks.pop_front();
            assert(self@ =~= kept.subrange(1, kept.len() as int));
            proof {
                gone = gone + 1;
            }
            assert(self@ =~= full.subrange(gone, full.len() as int));
        }
        assert(self@ =~= recent(full));
    }

    /// Everything that is kept, as one text.
    pub fn as_text(&self) -> (r: String)
        ensures
            r@ == joined(self@, self@.len()),
    {
        let mut out = String::new();
        let mut i: usize = 0;
        assert(out@ =~= joined(self@, 0));
        while i < self.blocks.len()
            invariant
                i <= self.blocks.len(),
                out@ == joined(self@, i as nat),
            decreases self.blocks.len() - i,
        {
            out.append(self.blocks[i].as_str());
            assert(self@[i as int] == self.blocks@[i as int]@);
            i = i + 1;
        }
        out
    }
}

proof fn lemma_joined_prefix(a: Seq<Seq<char>>, b: Seq<Seq<char>>, n: nat)
    requires
        n <= a.len(),
        n <= b.len(),
        forall|k: int| 0 <= k < n ==> a[k] == b[k],
    ensures
        joined(a, n) == joined(b, n),
    decreases n,
{
    if n > 0 {
        lemma_joined_prefix(a, b, (n - 1) as nat);
    }
}

/// As long as the log is not full, it holds exactly what was appended, in order.
pub proof fn the_log_keeps_what_was_appended(blocks: Seq<Seq<char>>, s: Seq<char>)
    ensures
        joined(with_text(blocks, s), with_text(blocks, s).len()) == joined(blocks, blocks.len())
            + s,
    decreases s.len(),
{
    if s.len() == 0 {
        assert(joined(blocks, blocks.len()) + s =~= joined(blocks, blocks.len()));
    } else {
        the_log_keeps_what_was_appended(blocks, s.drop_last());
        let before = with_text(blocks, s.drop_last());
        let after = with_char(before, s.last());
        if is_open(before) {
            lemma_joined_prefix(after, before, (before.len() - 1) as nat);
            assert(joined(after, after.len()) =~= joined(before, before.len()).push(s.last()));
        } else {
            lemma_joined_prefix(after, before, before.len());
            assert(joined(after, after.len()) =~= joined(before, before.len()).push(s.last()));
        }
        assert(joined(blocks, blocks.len()) + s =~= (joined(blocks, blocks.len())
            + s.drop_last()).push(s.last()));
    }
}

} // verus!
