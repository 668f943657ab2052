//! Framing of the line-oriented protocol: a connection's input buffer
//! is cut into commands at line breaks, and each command line is split
//! into its name and arguments at the first space.

use vstd::prelude::*;

verus! {

/// Both byte values that end a command line.
pub open spec fn is_line_break(b: u8) -> bool {
    b == 0x0a || b == 0x0d
}

/// The input without its leading line-break bytes (blank lines between
/// commands are ignored).
pub open spec fn spec_skip_breaks(s: Seq<u8>) -> Seq<u8>
    decreases s.len(),
{
    if s.len() > 0 && is_line_break(s[0]) {
        spec_skip_breaks(s.drop_first())
    } else {
        s
    }
}

/// Position of the first line break, or the length when there is none.
pub open spec fn first_break(s: Seq<u8>) -> int
    decreases s.len(),
{
    if s.len() == 0 {
        0
    } else if is_line_break(s[0]) {
        0
    } else {
        1 + first_break(s.drop_first())
    }
}

/// The first complete command line of a buffer and what follows it:
/// leading blank lines are dropped, the line ends before its
/// terminator, and the rest begins after the terminator.  `None` when
/// the buffer holds no complete line (a partial trailing line waits for
/// the next read).
pub open spec fn spec_next_line(s: Seq<u8>) -> Option<(Seq<u8>, Seq<u8>)>
    decreases s.len(),
{
    if s.len() == 0 {
        None
    } else if is_line_break(s[0]) {
        spec_next_line(s.drop_first())
    } else if first_break(s) == s.len() {
        None
    } else {
        Some((s.take(first_break(s)), s.skip(first_break(s) + 1)))
    }
}

pub proof fn lemma_first_break_at(t: Seq<u8>, i: int)
    requires
        0 <= i <= t.len(),
        forall|j: int| 0 <= j < i ==> !is_line_break(#[trigger] t[j]),
        i < t.len() ==> is_line_break(t[i]),
    ensures
        first_break(t) == i,
    decreases i,
{
    if i > 0 {
        lemma_first_break_at(t.drop_first(), i - 1);
    }
}

proof fn lemma_next_line_skip(s: Seq<u8>, k: int)
    requires
        0 <= k <= s.len(),
        forall|j: int| 0 <= j < k ==> is_line_break(#[trigger] s[j]),
    ensures
        spec_next_line(s) == spec_next_line(s.skip(k)),
        spec_skip_breaks(s) == spec_skip_breaks(s.skip(k)),
    decreases k,
{
    if k > 0 {
        assert(s.drop_first() =~= s.skip(1));
        lemma_next_line_skip(s.drop_first(), k - 1);
        assert(s.drop_first().skip(k - 1) =~= s.skip(k));
    } else {
        assert(s.skip(0) =~= s);
    }
}

/// Removes and returns the first complete line of the buffer, dropping
/// leading blank lines; leaves a partial trailing line in place.
#[verifier::loop_isolation(false)]
pub fn next_line(buf: &mut Vec<u8>) -> (r: Option<Vec<u8>>)
    ensures
        r is Some <==> spec_next_line(old(buf)@) is Some,
        (match r {
            Some(l) => spec_next_line(old(buf)@) == Some((l@, final(buf)@)),
            None => final(buf)@ == spec_skip_breaks(old(buf)@),
        }),
{
    let n = buf.len();
    let mut start: usize = 0;
    while start < n && (buf[start] == 0x0a || buf[start] == 0x0d)
        invariant
            start <= n,
            forall|j: int| 0 <= j < start ==> is_line_break(#[trigger] buf@[j]),
        decreases n - start,
    {
        start = start + 1;
    }
    let mut end: usize = start;
    while end < n && buf[end] != 0x0a && buf[end] != 0x0d
        invariant
            start <= end <= n,
            forall|j: int| start <= j < end ==> !is_line_break(#[trigger] buf@[j]),
        decreases n - end,
    {
        end = end + 1;
    }
    let ghost tail = buf@.skip(start as int);
    proof {
        lemma_next_line_skip(buf@, start as int);
        assert(forall|j: int|
            0 <= j < end - start ==> !is_line_break(#[trigger] tail[j]) && tail[j] == buf@[start
                + j]);
        lemma_first_break_at(tail, end - start);
    }
    if end == n {
        // No complete line; shed the leading blank lines only.
        if start > 0 {
            let rest = vstd::slice::slice_to_vec(
                vstd::slice::slice_subrange(buf.as_slice(), start, n),
            );
            proof {
                assert(buf@.subrange(start as int, n as int) =~= tail);
            }
            *buf = rest;
        }
        proof {
            assert(spec_skip_breaks(tail) =~= tail);
        }
        return None;
    }
    let line = vstd::slice::slice_to_vec(vstd::slice::slice_subrange(buf.as_slice(), start, end));
    let rest = vstd::slice::slice_to_vec(
        vstd::slice::slice_subrange(buf.as_slice(), end + 1, n),
    );
    proof {
        assert(buf@.subrange(start as int, end as int) =~= tail.take(end - start));
        assert(buf@.subrange(end as int + 1, n as int) =~= tail.skip((end - start) + 1));
    }
    *buf = rest;
    Some(line)
}

/// Position of the first space, or the length when there is none.
pub open spec fn first_space(s: Seq<u8>) -> int
    decreases s.len(),
{
    if s.len() == 0 {
        0
    } else if s[0] == 0x20 {
        0
    } else {
        1 + first_space(s.drop_first())
    }
}

/// A command line split at its first space into the command name and
/// the arguments; the arguments are empty when there is no space.
pub open spec fn spec_split_command(l: Seq<u8>) -> (Seq<u8>, Seq<u8>) {
    if first_space(l) == l.len() {
        (l, Seq::<u8>::empty())
    } else {
        (l.take(first_space(l)), l.skip(first_space(l) + 1))
    }
}

proof fn lemma_first_space_at(t: Seq<u8>, i: int)
    requires
        0 <= i <= t.len(),
        forall|j: int| 0 <= j < i ==> #[trigger] t[j] != 0x20,
        i < t.len() ==> t[i] == 0x20,
    ensures
        first_space(t) == i,
    decreases i,
{
    if i > 0 {
        lemma_first_space_at(t.drop_first(), i - 1);
    }
}

/// Splits a command line at the first space.
#[verifier::loop_isolation(false)]
pub fn split_command(line: &Vec<u8>) -> (r: (Vec<u8>, Vec<u8>))
    ensures
        (r.0@, r.1@) == spec_split_command(line@),
{
    let n = line.len();
    let mut i: usize = 0;
    while i < n && line[i] != 0x20
        invariant
            i <= n,
            forall|j: int| 0 <= j < i ==> #[trigger] line@[j] != 0x20,
        decreases n - i,
    {
        i = i + 1;
    }
    proof {
        lemma_first_space_at(line@, i as int);
    }
    if i == n {
        let name = crate::player::clone_bytes(line);
        let args: Vec<u8> = Vec::new();
        (name, args)
    } else {
        let name = vstd::slice::slice_to_vec(vstd::slice::slice_subrange(line.as_slice(), 0, i));
        let args = vstd::slice::slice_to_vec(
            vstd::slice::slice_subrange(line.as_slice(), i + 1, n),
        );
        proof {
            assert(line@.subrange(0, i as int) =~= line@.take(i as int));
            assert(line@.subrange(i as int + 1, n as int) =~= line@.skip(i as int + 1));
        }
        (name, args)
    }
}

} // verus!
