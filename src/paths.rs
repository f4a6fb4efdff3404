use vstd::prelude::*;
use crate::names::{ext, has_ext, has_sep, joined, last_segment};
use crate::text::{chars_of, string_of};

verus! {

/// Splitting `s` at `k`, where no separator follows `k`, leaves the tail in the last segment.
pub proof fn lemma_last_segment_split(s: Seq<char>, k: int)
    requires
        0 <= k <= s.len(),
        forall|i: int| k <= i < s.len() ==> s[i] != '/',
    ensures
        last_segment(s) == last_segment(s.subrange(0, k)) + s.subrange(k, s.len() as int),
    decreases s.len(),
{
    if k == s.len() {
        assert(s.subrange(0, k) =~= s);
        assert(s.subrange(k, s.len() as int) =~= Seq::<char>::empty());
        assert(last_segment(s) + Seq::<char>::empty() =~= last_segment(s));
    } else {
        let t = s.drop_last();
        lemma_last_segment_split(t, k);
        assert(t.subrange(0, k) =~= s.subrange(0, k));
        assert(s.subrange(k, s.len() as int) =~= t.subrange(k, t.len() as int).push(s.last()));
        assert(last_segment(s) =~= last_segment(t).push(s.last()));
        assert((last_segment(t.subrange(0, k)) + t.subrange(k, t.len() as int)).push(s.last())
            =~= last_segment(t.subrange(0, k)) + t.subrange(k, t.len() as int).push(s.last()));
    }
}

/// The last segment of a name with the extension carries the extension too.
pub proof fn lemma_last_segment_keeps_ext(s: Seq<char>)
    requires
        has_ext(s),
    ensures
        has_ext(last_segment(s)),
        last_segment(s).len() > 0,
{
    let k = s.len() - 4;
    assert(s.subrange(k, s.len() as int) == ext());
    assert forall|i: int| k <= i < s.len() implies s[i] != '/' by {
        assert(s[i] == s.subrange(k, s.len() as int)[i - k]);
    }
    lemma_last_segment_split(s, k);
    let l = last_segment(s);
    assert(l.subrange(l.len() - 4, l.len() as int) =~= ext());
}

/// The first index of the last segment of `cs`: no separator stands at or after it,
/// and one stands just before it unless it is 0.
fn segment_start(cs: &Vec<char>) -> (j: usize)
    ensures
        j <= cs@.len(),
        forall|i: int| j <= i < cs@.len() ==> cs@[i] != '/',
        j > 0 ==> cs@[j - 1] == '/',
{
    let mut j: usize = cs.len();
    while j > 0 && cs[j - 1] != '/'
        invariant
            j <= cs@.len(),
            forall|i: int| j <= i < cs@.len() ==> cs@[i] != '/',
        decreases j,
    {
        j = j - 1;
    }
    j
}

/// Whether `path` holds a separator.
pub fn contains_separator(path: &str) -> (r: bool)
    ensures
        r == has_sep(path@),
{
    let cs = chars_of(path);
    let j = segment_start(&cs);
    if j > 0 {
        assert(cs@[j - 1] == '/');
    }
    j > 0
}

/// The part of `path` after its last separator.
pub fn final_segment(path: &str) -> (r: String)
    ensures
        r@ == last_segment(path@),
{
    let cs = chars_of(path);
    let j = segment_start(&cs);
    let n = cs.len();
    let mut tail: Vec<char> = Vec::new();
    let mut i: usize = j;
    while i < n
        invariant
            j <= i <= n,
            n == cs@.len(),
            tail@ == cs@.subrange(j as int, i as int),
        decreases n - i,
    {
        tail.push(cs[i]);
        i = i + 1;
        assert(tail@ =~= cs@.subrange(j as int, i as int));
    }
    proof {
        lemma_last_segment_split(cs@, j as int);
        let head = cs@.subrange(0, j as int);
        if j > 0 {
            assert(head.last() == '/');
        }
        assert(last_segment(head) =~= Seq::<char>::empty());
        assert(last_segment(cs@) =~= tail@);
    }
    string_of(tail.as_slice())
}

/// `dir/name`.
pub fn join_path(dir: &str, name: &str) -> (r: String)
    ensures
        r@ == joined(dir@, name@),
{
    let mut out = chars_of(dir);
    let tail = chars_of(name);
    out.push('/');
    let ghost head = out@;
    let mut i: usize = 0;
    while i < tail.len()
        invariant
            i <= tail@.len(),
            out@ == head + tail@.subrange(0, i as int),
        decreases tail@.len() - i,
    {
        out.push(tail[i]);
        i = i + 1;
        assert(out@ =~= head + tail@.subrange(0, i as int));
    }
    assert(tail@.subrange(0, tail@.len() as int) =~= tail@);
    assert(head =~= dir@ + seq!['/']);
    string_of(out.as_slice())
}

} // verus!
