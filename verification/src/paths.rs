//! The path model: `/`-separated path strings, with joining, parent
//! extraction and prefix tests, and the lemmas that relate them.

use vstd::prelude::*;
use vstd::string::StringExecFns;
use vstd::string::StrSliceExecFns;

verus! {

/// The result of appending one path component (or relative path) to a base
/// path: an empty base yields the component alone, otherwise exactly one
/// `/` separates the two.
pub open spec fn join_chars(base: Seq<char>, rel: Seq<char>) -> Seq<char> {
    if base.len() == 0 {
        rel
    } else if base.last() == '/' {
        base + rel
    } else {
        base.push('/') + rel
    }
}

/// The index of the last `/` in `s`, or `-1` if `s` holds none.
pub open spec fn last_slash_index(s: Seq<char>) -> int
    decreases s.len(),
{
    if s.len() == 0 {
        -1
    } else if s.last() == '/' {
        s.len() - 1
    } else {
        last_slash_index(s.drop_last())
    }
}

/// The parent directory of a path: everything before the last `/`.
/// A path without a `/` has the empty parent; a path whose only `/` is
/// leading (such as `/bin`) has the root `/` as its parent.
pub open spec fn parent_chars(s: Seq<char>) -> Seq<char> {
    let i = last_slash_index(s);
    if i < 0 {
        Seq::empty()
    } else if i == 0 {
        s.take(1)
    } else {
        s.take(i)
    }
}

/// Joins `base` and `rel` with a single `/` separator; an empty base
/// leaves `rel` unchanged.
pub fn path_join(base: &str, rel: &str) -> (r: String)
    ensures
        r@ == join_chars(base@, rel@),
{
    let n = base.unicode_len();
    if n == 0 {
        rel.to_owned()
    } else if base.get_char(n - 1) == '/' {
        base.to_owned().concat(rel)
    } else {
        let r = base.to_owned().concat("/").concat(rel);
        proof {
            reveal_strlit("/");
            assert(("/")@ =~= seq!['/']);
            assert((base@ + ("/")@) + rel@ =~= base@.push('/') + rel@);
        }
        r
    }
}

proof fn lemma_last_slash_absent(s: Seq<char>)
    requires
        forall|j: int| 0 <= j < s.len() ==> s[j] != '/',
    ensures
        last_slash_index(s) == -1,
    decreases s.len(),
{
    if s.len() > 0 {
        lemma_last_slash_absent(s.drop_last());
    }
}

proof fn lemma_last_slash_at(s: Seq<char>, k: int)
    requires
        0 <= k < s.len(),
        s[k] == '/',
        forall|j: int| k < j < s.len() ==> s[j] != '/',
    ensures
        last_slash_index(s) == k,
    decreases s.len(),
{
    if k < s.len() - 1 {
        lemma_last_slash_at(s.drop_last(), k);
    }
}

/// Removes the last component of a path, as `parent_chars` describes.
pub fn path_parent(path: &str) -> (r: String)
    ensures
        r@ == parent_chars(path@),
{
    let n = path.unicode_len();
    let mut i = n;
    while i > 0
        invariant
            i <= n,
            n == path@.len(),
            forall|j: int| i <= j < n ==> path@[j] != '/',
        decreases i,
    {
        if path.get_char(i - 1) == '/' {
            proof {
                lemma_last_slash_at(path@, i - 1);
            }
            if i == 1 {
                return path.substring_char(0, 1).to_owned();
            } else {
                return path.substring_char(0, i - 1).to_owned();
            }
        }
        i = i - 1;
    }
    proof {
        lemma_last_slash_absent(path@);
    }
    String::new()
}

/// Whether `prefix` is a character-for-character prefix of `s`.
pub fn str_starts_with(s: &str, prefix: &str) -> (r: bool)
    ensures
        r == prefix@.is_prefix_of(s@),
{
    let np = prefix.unicode_len();
    let ns = s.unicode_len();
    if np > ns {
        return false;
    }
    let mut i: usize = 0;
    while i < np
        invariant
            i <= np,
            np <= ns,
            np == prefix@.len(),
            ns == s@.len(),
            forall|j: int| 0 <= j < i ==> prefix@[j] == s@[j],
        decreases np - i,
    {
        if prefix.get_char(i) != s.get_char(i) {
            assert(!prefix@.is_prefix_of(s@)) by {
                assert(prefix@[i as int] != s@.subrange(0, np as int)[i as int]);
            }
            return false;
        }
        i = i + 1;
    }
    proof {
        assert(prefix@ =~= s@.subrange(0, np as int));
    }
    true
}

/// Joining a `/`-free, non-empty name onto a directory and taking the
/// parent of the result, then joining the same name again, rebuilds the
/// same path. This fails for a base with a redundant trailing separator
/// (such as `a//`), which the parent step normalises away.
pub proof fn lemma_join_parent_roundtrip(base: Seq<char>, name: Seq<char>)
    requires
        name.len() > 0,
        forall|j: int| 0 <= j < name.len() ==> name[j] != '/',
        base.len() == 0 || base.last() != '/' || base =~= seq!['/'],
    ensures
        join_chars(parent_chars(join_chars(base, name)), name) == join_chars(base, name),
{
    let p = join_chars(base, name);
    if base.len() == 0 {
        lemma_last_slash_absent(name);
        assert(parent_chars(p) =~= Seq::<char>::empty());
        assert(join_chars(Seq::empty(), name) == name);
    } else if base =~= seq!['/'] {
        assert(p =~= seq!['/'] + name);
        assert(p[0] == '/');
        assert(forall|j: int| 0 < j < p.len() ==> p[j] == name[j - 1] && p[j] != '/');
        lemma_last_slash_at(p, 0);
        assert(parent_chars(p) =~= p.take(1));
        assert(p.take(1) =~= seq!['/']);
        assert(join_chars(p.take(1), name) =~= seq!['/'] + name);
    } else {
        assert(p =~= base.push('/') + name);
        assert(p[base.len() as int] == '/');
        assert(forall|j: int| base.len() < j < p.len() ==> p[j] == name[j - base.len() - 1]
            && p[j] != '/');
        lemma_last_slash_at(p, base.len() as int);
        assert(parent_chars(p) =~= p.take(base.len() as int));
        assert(p.take(base.len() as int) =~= base);
        assert(join_chars(base, name) == p);
    }
}

} // verus!
