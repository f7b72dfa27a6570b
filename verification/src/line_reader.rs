//! The line stream reader's core: splitting a stream of characters into
//! complete lines. The surrounding binary owns the blocking reads; it feeds
//! whatever characters arrived — possibly one at a time — into a
//! [`LineSplitter`], and forwards each completed line.
//!
//! The model guarantees the essential stream properties: every character fed
//! is delivered exactly once, lines come out in input order, and a line is
//! delivered exactly when its terminator arrives.

use vstd::prelude::*;

use crate::strutil::chars_to_string;

verus! {

/// The complete lines contained in `s`: each ends with a newline, in order.
pub open spec fn split_done(s: Seq<char>) -> Seq<Seq<char>>
    decreases s.len(),
{
    if s.len() == 0 {
        Seq::empty()
    } else {
        let prev = split_done(s.drop_last());
        if s.last() == '\n' {
            prev.push(split_pending(s.drop_last()).push('\n'))
        } else {
            prev
        }
    }
}

/// The unterminated tail of `s`: what follows its last newline.
pub open spec fn split_pending(s: Seq<char>) -> Seq<char>
    decreases s.len(),
{
    if s.len() == 0 {
        Seq::empty()
    } else if s.last() == '\n' {
        Seq::empty()
    } else {
        split_pending(s.drop_last()).push(s.last())
    }
}

/// The concatenation of a sequence of lines.
pub open spec fn concat_lines(lines: Seq<Seq<char>>) -> Seq<char>
    decreases lines.len(),
{
    if lines.len() == 0 {
        Seq::empty()
    } else {
        concat_lines(lines.drop_last()) + lines.last()
    }
}

/// Incremental line splitter: accepts characters and accumulates completed
/// lines. `fed` records the whole input stream so far.
pub struct LineSplitter {
    pub lines: Vec<String>,
    pub pending: Vec<char>,
    pub fed: Ghost<Seq<char>>,
}

impl LineSplitter {
    /// The splitter's state is exactly the fold of the characters fed so far.
    pub open spec fn wf(self) -> bool {
        &&& self.lines.deep_view() == split_done(self.fed@)
        &&& self.pending@ == split_pending(self.fed@)
    }

    pub fn new() -> (r: Self)
        ensures
            r.wf(),
            r.fed@ == Seq::<char>::empty(),
            r.lines@ == Seq::<String>::empty(),
    {
        let r = LineSplitter { lines: Vec::new(), pending: Vec::new(), fed: Ghost(Seq::empty()) };
        proof {
            assert(r.lines.deep_view() =~= split_done(r.fed@));
        }
        r
    }

    /// Feeds one character. A newline completes the pending line and
    /// delivers it; any other character extends the pending line.
    pub fn push_char(&mut self, c: char)
        requires
            old(self).wf(),
        ensures
            final(self).wf(),
            final(self).fed@ == old(self).fed@.push(c),
            c == '\n' ==> final(self).lines.deep_view() == old(self).lines.deep_view().push(
                old(self).pending@.push('\n'),
            ) && final(self).pending@ == Seq::<char>::empty(),
            c != '\n' ==> final(self).lines.deep_view() == old(self).lines.deep_view()
                && final(self).pending@ == old(self).pending@.push(c),
    {
        proof {
            assert(self.fed@.push(c).drop_last() =~= self.fed@);
        }
        self.fed = Ghost(self.fed@.push(c));
        self.pending.push(c);
        if c == '\n' {
            let line = chars_to_string(&self.pending);
            self.lines.push(line);
            self.pending.clear();
            proof {
                assert(self.lines.deep_view() =~= split_done(self.fed@));
            }
        } else {
            proof {
                assert(self.lines.deep_view() =~= split_done(self.fed@));
            }
        }
    }

    /// Feeds a chunk of characters, in order. Previously delivered lines
    /// stay exactly as they were: new lines are only appended.
    pub fn push_chars(&mut self, chunk: &Vec<char>)
        requires
            old(self).wf(),
        ensures
            final(self).wf(),
            final(self).fed@ == old(self).fed@ + chunk@,
            old(self).lines.deep_view().is_prefix_of(final(self).lines.deep_view()),
    {
        let mut i: usize = 0;
        proof {
            assert(self.fed@ + chunk@.subrange(0, 0) =~= self.fed@);
        }
        while i < chunk.len()
            invariant
                self.wf(),
                i <= chunk@.len(),
                self.fed@ == old(self).fed@ + chunk@.subrange(0, i as int),
                old(self).lines.deep_view().is_prefix_of(self.lines.deep_view()),
            decreases chunk@.len() - i,
        {
            self.push_char(chunk[i]);
            i = i + 1;
            proof {
                assert(self.fed@ =~= old(self).fed@ + chunk@.subrange(0, i as int));
            }
        }
        proof {
            assert(chunk@.subrange(0, chunk@.len() as int) =~= chunk@);
        }
    }

    /// Removes and returns the delivered lines, leaving the pending tail in
    /// place: the caller forwards them exactly once.
    pub fn take_lines(&mut self) -> (r: Vec<String>)
        requires
            old(self).wf(),
        ensures
            r.deep_view() == split_done(old(self).fed@),
            final(self).pending@ == old(self).pending@,
            final(self).lines@ == Seq::<String>::empty(),
            final(self).fed@ == split_pending(old(self).fed@),
            final(self).wf(),
    {
        let mut out: Vec<String> = Vec::new();
        core::mem::swap(&mut out, &mut self.lines);
        proof {
            lemma_split_of_pending(self.fed@);
        }
        self.fed = Ghost(split_pending(self.fed@));
        proof {
            assert(self.lines.deep_view() =~= split_done(self.fed@));
        }
        out
    }
}

/// A pending tail contains no newline, so re-splitting it yields no
/// complete line and leaves it pending in full.
pub proof fn lemma_split_of_pending(s: Seq<char>)
    ensures
        split_done(split_pending(s)) == Seq::<Seq<char>>::empty(),
        split_pending(split_pending(s)) == split_pending(s),
    decreases s.len(),
{
    if s.len() == 0 {
    } else if s.last() == '\n' {
    } else {
        lemma_split_of_pending(s.drop_last());
        let p = split_pending(s);
        assert(p.len() > 0 && p.last() == s.last() && p.drop_last() =~= split_pending(
            s.drop_last(),
        ));
        assert(split_pending(p) =~= p);
    }
}

/// Exactly-once delivery: the delivered lines followed by the pending tail
/// are, character for character, the entire input stream.
pub proof fn lemma_lines_exactly_once(s: Seq<char>)
    ensures
        concat_lines(split_done(s)) + split_pending(s) == s,
    decreases s.len(),
{
    if s.len() == 0 {
        assert(concat_lines(split_done(s)) + split_pending(s) =~= s);
    } else {
        lemma_lines_exactly_once(s.drop_last());
        let d = s.drop_last();
        if s.last() == '\n' {
            let prev = split_done(d);
            let line = split_pending(d).push('\n');
            assert(split_done(s) == prev.push(line));
            assert(prev.push(line).drop_last() =~= prev);
            assert(concat_lines(prev.push(line)) == concat_lines(prev) + line);
            assert(concat_lines(split_done(s)) + split_pending(s) =~= concat_lines(prev) + line);
            assert(concat_lines(prev) + line =~= (concat_lines(prev) + split_pending(d)).push(
                '\n',
            ));
            assert(concat_lines(split_done(s)) + split_pending(s) == d.push('\n'));
            assert(s =~= d.push('\n'));
        } else {
            let c = s.last();
            assert(split_done(s) == split_done(d));
            assert(split_pending(s) == split_pending(d).push(c));
            assert(concat_lines(split_done(d)) + split_pending(d).push(c) =~= (concat_lines(
                split_done(d),
            ) + split_pending(d)).push(c));
            assert(s =~= d.push(c));
            assert(concat_lines(split_done(s)) + split_pending(s) =~= s);
        }
    }
}

/// Order preservation: extending the input only appends delivered lines;
/// what was already delivered never changes or reorders.
pub proof fn lemma_lines_in_order(s: Seq<char>, t: Seq<char>)
    ensures
        split_done(s).is_prefix_of(split_done(s + t)),
    decreases t.len(),
{
    if t.len() == 0 {
        assert(s + t =~= s);
    } else {
        lemma_lines_in_order(s, t.drop_last());
        assert((s + t).drop_last() =~= s + t.drop_last());
        assert(split_done(s).is_prefix_of(split_done(s + t)));
    }
}

/// Every delivered line is newline-terminated, exactly at its end.
pub proof fn lemma_lines_terminated(s: Seq<char>, i: int)
    requires
        0 <= i < split_done(s).len(),
    ensures
        split_done(s)[i].len() > 0,
        split_done(s)[i].last() == '\n',
        forall|k: int| 0 <= k < split_done(s)[i].len() - 1 ==> split_done(s)[i][k] != '\n',
    decreases s.len(),
{
    if s.len() == 0 {
    } else {
        if s.last() == '\n' {
            if i < split_done(s.drop_last()).len() {
                lemma_lines_terminated(s.drop_last(), i);
            } else {
                lemma_pending_no_newline(s.drop_last());
            }
        } else {
            lemma_lines_terminated(s.drop_last(), i);
        }
    }
}

/// The pending tail holds no newline.
pub proof fn lemma_pending_no_newline(s: Seq<char>)
    ensures
        forall|k: int| 0 <= k < split_pending(s).len() ==> split_pending(s)[k] != '\n',
    decreases s.len(),
{
    if s.len() == 0 {
    } else if s.last() == '\n' {
    } else {
        lemma_pending_no_newline(s.drop_last());
        let p = split_pending(s);
        assert forall|k: int| 0 <= k < p.len() implies p[k] != '\n' by {
            if k < p.len() - 1 {
                assert(p[k] == split_pending(s.drop_last())[k]);
            } else {
                assert(p[k] == s.last());
            }
        }
    }
}

} // verus!
