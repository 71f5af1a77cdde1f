//! Cutting a byte stream into lines, whatever chunks it arrives in.
//!
//! Both the terminal reader and the server-sent-events reader keep the bytes
//! of an unfinished line between chunks and hand out each line once its
//! `\n` has arrived.

use vstd::prelude::*;

verus! {

/// The byte that ends a line.
pub const NEWLINE: u8 = 10;

/// `s` cut at each `sep`: the finished pieces (without `sep`), in order, and
/// what follows the last `sep`.
pub open spec fn split_lines<A>(s: Seq<A>, sep: A) -> (Seq<Seq<A>>, Seq<A>)
    decreases s.len(),
{
    if s.len() == 0 {
        (Seq::empty(), Seq::empty())
    } else {
        let prev = split_lines(s.drop_last(), sep);
        if s.last() == sep {
            (prev.0.push(prev.1), Seq::empty())
        } else {
            (prev.0, prev.1.push(s.last()))
        }
    }
}

/// Each piece followed by `sep`, all joined.
pub open spec fn joined_lines<A>(lines: Seq<Seq<A>>, sep: A) -> Seq<A> {
    lines.map_values(|l: Seq<A>| l.push(sep)).flatten()
}

/// A sequence without `sep` is one unfinished piece.
pub proof fn lemma_split_without_sep<A>(s: Seq<A>, sep: A)
    requires
        !s.contains(sep),
    ensures
        split_lines(s, sep) == (Seq::<Seq<A>>::empty(), s),
    decreases s.len(),
{
    if s.len() > 0 {
        assert(!s.drop_last().contains(sep)) by {
            if s.drop_last().contains(sep) {
                let i = choose|i: int| 0 <= i < s.drop_last().len() && s.drop_last()[i] == sep;
                assert(s[i] == sep);
            }
        }
        lemma_split_without_sep(s.drop_last(), sep);
        assert(s[s.len() - 1] != sep);
        assert(s.drop_last().push(s.last()) =~= s);
    }
}

/// Nothing is lost or added: the finished pieces, each with its `sep`,
/// followed by the unfinished rest, give back `s`; and no piece holds `sep`.
pub proof fn lemma_split_lines_reassemble<A>(s: Seq<A>, sep: A)
    ensures
        joined_lines(split_lines(s, sep).0, sep) + split_lines(s, sep).1 == s,
        !split_lines(s, sep).1.contains(sep),
        forall|i: int|
            0 <= i < split_lines(s, sep).0.len() ==> !(#[trigger] split_lines(s, sep).0[i]).contains(
                sep,
            ),
    decreases s.len(),
{
    if s.len() > 0 {
        let prev = split_lines(s.drop_last(), sep);
        lemma_split_lines_reassemble(s.drop_last(), sep);
        let f = |l: Seq<A>| l.push(sep);
        if s.last() == sep {
            assert(prev.0.push(prev.1).map_values(f) =~= prev.0.map_values(f).push(prev.1.push(sep)));
            prev.0.map_values(f).lemma_flatten_push(prev.1.push(sep));
            assert(joined_lines(prev.0, sep) + prev.1.push(sep) =~= (joined_lines(prev.0, sep)
                + prev.1).push(sep));
            assert(s.drop_last().push(sep) =~= s);
            assert forall|i: int| 0 <= i < prev.0.push(prev.1).len() implies !(#[trigger] prev.0.push(
                prev.1,
            )[i]).contains(sep) by {
                if i < prev.0.len() {
                    assert(prev.0.push(prev.1)[i] == prev.0[i]);
                }
            }
            assert(!Seq::<A>::empty().contains(sep));
        } else {
            assert(joined_lines(prev.0, sep) + prev.1.push(s.last()) =~= (joined_lines(prev.0, sep)
                + prev.1).push(s.last()));
            assert(s.drop_last().push(s.last()) =~= s);
            assert(!prev.1.push(s.last()).contains(sep)) by {
                if prev.1.push(s.last()).contains(sep) {
                    let i = choose|i: int|
                        0 <= i < prev.1.push(s.last()).len() && prev.1.push(s.last())[i] == sep;
                    if i < prev.1.len() {
                        assert(prev.1[i] == sep);
                    }
                }
            }
        }
    }
}

/// Cutting does not depend on where the input was divided: splitting
/// `s + t` gives the pieces finished in `s`, then those finished when the
/// rest of `s` is continued by `t`.
pub proof fn lemma_split_lines_append<A>(s: Seq<A>, t: Seq<A>, sep: A)
    ensures
        split_lines(s + t, sep) == ({
            let first = split_lines(s, sep);
            let second = split_lines(first.1 + t, sep);
            (first.0 + second.0, second.1)
        }),
    decreases t.len(),
{
    let first = split_lines(s, sep);
    if t.len() == 0 {
        assert(s + t =~= s);
        assert(first.1 + t =~= first.1);
        lemma_split_lines_reassemble(s, sep);
        lemma_split_without_sep(first.1, sep);
        assert(first.0 + Seq::<Seq<A>>::empty() =~= first.0);
    } else {
        lemma_split_lines_append(s, t.drop_last(), sep);
        assert((s + t).drop_last() =~= s + t.drop_last());
        assert((first.1 + t).drop_last() =~= first.1 + t.drop_last());
        assert((s + t).last() == t.last());
        assert((first.1 + t).last() == t.last());
        let second = split_lines(first.1 + t.drop_last(), sep);
        if t.last() == sep {
            assert((first.0 + second.0).push(second.1) =~= first.0 + second.0.push(second.1));
        }
    }
}

/// The bytes of a line whose `\n` has not arrived yet.
#[derive(Debug)]
pub struct LineBuffer {
    buf: Vec<u8>,
}

/// The byte vectors of `v`, as sequences.
pub open spec fn byte_lines(v: Seq<Vec<u8>>) -> Seq<Seq<u8>> {
    v.map_values(|l: Vec<u8>| l@)
}

impl LineBuffer {
    #[verifier::type_invariant]
    spec fn unfinished(self) -> bool {
        !self.buf@.contains(NEWLINE)
    }

    /// The bytes kept for the next line.
    pub closed spec fn pending(self) -> Seq<u8> {
        self.buf@
    }

    pub fn new() -> (res: LineBuffer)
        ensures
            res.pending() == Seq::<u8>::empty(),
    {
        LineBuffer { buf: Vec::new() }
    }

    /// Takes the next chunk of the stream and hands out the lines it
    /// finishes, without their `\n`, in order; the bytes after the last
    /// `\n` are kept.
    pub fn push_chunk(&mut self, bytes: &[u8]) -> (res: Vec<Vec<u8>>)
        ensures
            split_lines(old(self).pending() + bytes@, NEWLINE) == (
                byte_lines(res@),
                final(self).pending(),
            ),
    {
        proof {
            use_type_invariant(&*self);
            lemma_split_without_sep(self.buf@, NEWLINE);
            assert(self.buf@ + bytes@.take(0) =~= self.buf@);
        }
        let mut cur: Vec<u8> = Vec::new();
        std::mem::swap(&mut cur, &mut self.buf);
        let ghost start = cur@;
        let mut lines: Vec<Vec<u8>> = Vec::new();
        let mut i: usize = 0;
        while i < bytes.len()
            invariant
                i <= bytes@.len(),
                !cur@.contains(NEWLINE),
                split_lines(start + bytes@.take(i as int), NEWLINE) == (byte_lines(lines@), cur@),
            decreases bytes@.len() - i,
        {
            let b = bytes[i];
            assert((start + bytes@.take(i + 1)).drop_last() =~= start + bytes@.take(i as int));
            assert((start + bytes@.take(i + 1)).last() == b);
            if b == NEWLINE {
                let mut line: Vec<u8> = Vec::new();
                std::mem::swap(&mut line, &mut cur);
                let ghost before = lines@;
                lines.push(line);
                assert(byte_lines(lines@) =~= byte_lines(before).push(line@));
                assert(!Seq::<u8>::empty().contains(NEWLINE));
            } else {
                let ghost before = cur@;
                cur.push(b);
                assert(!cur@.contains(NEWLINE)) by {
                    if cur@.contains(NEWLINE) {
                        let k = choose|k: int| 0 <= k < cur@.len() && cur@[k] == NEWLINE;
                        if k < before.len() {
                            assert(before[k] == NEWLINE);
                        }
                    }
                }
            }
            i = i + 1;
        }
        assert(bytes@.take(bytes@.len() as int) =~= bytes@);
        std::mem::swap(&mut cur, &mut self.buf);
        lines
    }
}

} // verus!
