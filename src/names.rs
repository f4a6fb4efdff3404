use vstd::prelude::*;
use crate::text::{chars_of, string_of};

verus! {

/// The extension that every template file name carries.
pub const EXTENSION: &'static str = ".typ";

/// The characters of [`EXTENSION`].
pub open spec fn ext() -> Seq<char> {
    seq!['.', 't', 'y', 'p']
}

/// Whether `s` already ends with the template extension.
pub open spec fn has_ext(s: Seq<char>) -> bool {
    s.len() >= ext().len() && s.subrange(s.len() - ext().len(), s.len() as int) == ext()
}

/// The canonical name: `s` itself if it carries the extension, else `s` with it appended.
pub open spec fn canonical(s: Seq<char>) -> Seq<char> {
    if has_ext(s) {
        s
    } else {
        s + ext()
    }
}

/// `dir/name`: a path joined with a single separator.
pub open spec fn joined(dir: Seq<char>, name: Seq<char>) -> Seq<char> {
    dir + seq!['/'] + name
}

/// Whether `s` holds a path separator.
pub open spec fn has_sep(s: Seq<char>) -> bool {
    exists|i: int| 0 <= i < s.len() && s[i] == '/'
}

/// The part of `s` after its last separator (all of `s` when it has none).
pub open spec fn last_segment(s: Seq<char>) -> Seq<char>
    decreases s.len(),
{
    if s.len() == 0 {
        s
    } else if s.last() == '/' {
        Seq::empty()
    } else {
        last_segment(s.drop_last()).push(s.last())
    }
}

/// A canonical name carries the extension, and normalizing it again changes nothing.
pub proof fn lemma_canonical_idempotent(s: Seq<char>)
    ensures
        has_ext(canonical(s)),
        canonical(canonical(s)) == canonical(s),
{
    if !has_ext(s) {
        let c = s + ext();
        assert(c.subrange(c.len() - ext().len(), c.len() as int) =~= ext());
    }
}

/// A name without the extension and the same name with it have one canonical form.
pub proof fn lemma_canonical_with_or_without_ext(s: Seq<char>)
    requires
        !has_ext(s),
    ensures
        canonical(s) == canonical(s + ext()),
        canonical(s + ext()) == s + ext(),
{
    lemma_canonical_idempotent(s);
}

/// Whether the characters end with the template extension.
fn ends_with_ext(cs: &Vec<char>) -> (r: bool)
    ensures
        r == has_ext(cs@),
{
    let n = cs.len();
    if n < 4 {
        return false;
    }
    let r = cs[n - 4] == '.' && cs[n - 3] == 't' && cs[n - 2] == 'y' && cs[n - 1] == 'p';
    assert(r == (cs@.subrange(n - 4, n as int) =~= ext()));
    r
}

/// Whether `name` ends with the template extension.
pub fn has_extension(name: &str) -> (r: bool)
    ensures
        r == has_ext(name@),
{
    let cs = chars_of(name);
    ends_with_ext(&cs)
}

/// Appends the template extension to `name` unless it already ends with it.
pub fn normalize_name(name: &str) -> (r: String)
    ensures
        r@ == canonical(name@),
{
    let cs = chars_of(name);
    if ends_with_ext(&cs) {
        name.to_owned()
    } else {
        let mut out = cs;
        out.push('.');
        out.push('t');
        out.push('y');
        out.push('p');
        assert(out@ =~= name@ + ext());
        string_of(out.as_slice())
    }
}

} // verus!
