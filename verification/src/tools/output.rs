//! Paging of long command output into chunks of bounded length.

use vstd::prelude::*;
use std::collections::VecDeque;
use crate::text::{json_quoted, json_string, push_char};
use vstd::string::*;

verus! {

broadcast use vstd::string::group_string_axioms;

/// `cs` cuts `s` into consecutive pieces: they concatenate to `s`, none is
/// empty, none is longer than `n`, and all but the last are exactly `n` long.
pub open spec fn is_chunking(cs: Seq<Seq<char>>, s: Seq<char>, n: nat) -> bool {
    &&& cs.flatten() == s
    &&& forall|i: int| 0 <= i < cs.len() ==> 0 < (#[trigger] cs[i]).len() <= n
    &&& forall|i: int| 0 <= i < cs.len() - 1 ==> (#[trigger] cs[i]).len() == n
}

/// Chunks are not empty, so a chunking of an empty text has no chunks and
/// a chunking of a non-empty text is no longer than the text.
proof fn lemma_flatten_len(cs: Seq<Seq<char>>, n: nat)
    requires
        forall|i: int| 0 <= i < cs.len() ==> 0 < (#[trigger] cs[i]).len() <= n,
    ensures
        cs.len() > 0 ==> cs.flatten().len() >= cs[0].len() + if cs.len() > 1 {
            1int
        } else {
            0int
        },
        cs.len() > 0 ==> cs.flatten() == cs[0] + cs.drop_first().flatten(),
        cs.len() == 0 ==> cs.flatten().len() == 0,
{
    if cs.len() > 1 {
        let rest = cs.drop_first();
        assert(rest[0] == cs[1]);
        assert(rest.flatten() == rest[0] + rest.drop_first().flatten());
    }
}

/// There is only one way to cut a text into chunks of `n` characters: any
/// two chunkings of the same text are equal.
pub proof fn lemma_chunking_unique(a: Seq<Seq<char>>, b: Seq<Seq<char>>, s: Seq<char>, n: nat)
    requires
        is_chunking(a, s, n),
        is_chunking(b, s, n),
    ensures
        a == b,
    decreases s.len(),
{
    lemma_flatten_len(a, n);
    lemma_flatten_len(b, n);
    if a.len() == 0 || b.len() == 0 {
        assert(a =~= b);
        return;
    }
    if a.len() == 1 {
        assert(a.drop_first().flatten() =~= Seq::<char>::empty());
        assert(a[0] =~= s);
        if b.len() > 1 {
            assert(b[0].len() == n);
        }
        assert(b.drop_first().flatten() =~= Seq::<char>::empty());
        assert(a =~= b);
        return;
    }
    if b.len() == 1 {
        assert(b.drop_first().flatten() =~= Seq::<char>::empty());
        assert(a[0].len() == n);
        return;
    }
    assert(a[0].len() == n && b[0].len() == n);
    assert(a[0] =~= s.subrange(0, n as int));
    assert(b[0] =~= s.subrange(0, n as int));
    let ra = a.drop_first();
    let rb = b.drop_first();
    let rs = s.subrange(n as int, s.len() as int);
    assert(ra.flatten() =~= rs);
    assert(rb.flatten() =~= rs);
    assert(is_chunking(ra, rs, n)) by {
        assert forall|i: int| 0 <= i < ra.len() implies 0 < (#[trigger] ra[i]).len() <= n by {
            assert(ra[i] == a[i + 1]);
        }
        assert forall|i: int| 0 <= i < ra.len() - 1 implies (#[trigger] ra[i]).len() == n by {
            assert(ra[i] == a[i + 1]);
        }
    }
    assert(is_chunking(rb, rs, n)) by {
        assert forall|i: int| 0 <= i < rb.len() implies 0 < (#[trigger] rb[i]).len() <= n by {
            assert(rb[i] == b[i + 1]);
        }
        assert forall|i: int| 0 <= i < rb.len() - 1 implies (#[trigger] rb[i]).len() == n by {
            assert(rb[i] == b[i + 1]);
        }
    }
    lemma_chunking_unique(ra, rb, rs, n);
    assert(a =~= seq![a[0]] + ra);
    assert(b =~= seq![b[0]] + rb);
}

/// The JSON object that carries one chunk of output when more follow:
/// `{"more_output_available":true,"output":<chunk>}`.
pub open spec fn more_output_json(chunk: Seq<char>) -> Seq<char> {
    "{\"more_output_available\":true,\"output\":"@ + json_quoted(chunk) + "}"@
}

/// What reading the next chunk of `queue` hands out: nothing is the empty
/// text, the last chunk is handed out as it is, any other chunk is wrapped
/// with the note that more output is available.
pub open spec fn next_chunk_text(queue: Seq<Seq<char>>) -> Seq<char> {
    if queue.len() == 0 {
        Seq::empty()
    } else if queue.len() == 1 {
        queue[0]
    } else {
        more_output_json(queue[0])
    }
}

/// Cuts `output` into chunks of at most `n` characters (the last one may be
/// shorter), in order.
pub fn chunk_output(output: &str, n: usize) -> (res: VecDeque<String>)
    requires
        n > 0,
    ensures
        is_chunking(res.deep_view(), output@, n as nat),
{
    let mut chunks: VecDeque<String> = VecDeque::new();
    let mut cur = String::new();
    let mut cur_len: usize = 0;
    for c in it: output.chars()
        invariant
            n > 0,
            it.seq() == output@,
            cur@.len() == cur_len,
            cur_len < n,
            chunks.deep_view().flatten_alt() + cur@ == output@.take(it.index() as int),
            forall|i: int| 0 <= i < chunks.deep_view().len() ==> (#[trigger] chunks.deep_view()[i]).len() == n,
    {
        let ghost before = chunks.deep_view();
        let ghost cur_before = cur@;
        push_char(&mut cur, c);
        cur_len = cur_len + 1;
        assert(output@.take(it.index() + 1) =~= output@.take(it.index() as int).push(c));
        if cur_len == n {
            let ghost done = cur@;
            chunks.push_back(cur);
            assert(chunks.deep_view() =~= before.push(done));
            assert(before.push(done).drop_last() =~= before);
            assert(chunks.deep_view().flatten_alt() == before.flatten_alt() + done);
            cur = String::new();
            cur_len = 0;
            assert(chunks.deep_view().flatten_alt() + cur@ =~= before.flatten_alt() + cur_before.push(c));
        } else {
            assert(before.flatten_alt() + cur@ =~= before.flatten_alt() + cur_before + seq![c]);
        }
    }
    assert(output@.take(output@.len() as int) =~= output@);
    let ghost before = chunks.deep_view();
    if cur_len > 0 {
        let ghost last = cur@;
        chunks.push_back(cur);
        assert(chunks.deep_view() =~= before.push(last));
        assert(before.push(last).drop_last() =~= before);
    } else {
        assert(before.flatten_alt() + cur@ =~= before.flatten_alt());
    }
    proof {
        chunks.deep_view().lemma_flatten_and_flatten_alt_are_equivalent();
    }
    chunks
}

/// Takes the next chunk off `queue` and renders it as [`next_chunk_text`]
/// says.
pub fn take_next_chunk(queue: &mut VecDeque<String>) -> (res: String)
    ensures
        res@ == next_chunk_text(old(queue).deep_view()),
        final(queue).deep_view() == if old(queue).deep_view().len() == 0 {
            old(queue).deep_view()
        } else {
            old(queue).deep_view().drop_first()
        },
{
    let ghost q = queue.deep_view();
    match queue.pop_front() {
        None => String::new(),
        Some(chunk) => {
            assert(queue.deep_view() =~= q.drop_first());
            if queue.len() == 0 {
                chunk
            } else {
                let quoted = json_string(chunk.as_str());
                let mut r = String::from_str("{\"more_output_available\":true,\"output\":");
                r.append(quoted.as_str());
                r.append("}");
                r
            }
        },
    }
}

} // verus!
