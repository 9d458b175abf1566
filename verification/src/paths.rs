//! Path strings as the handlers build them: joining a relative path onto a
//! directory, and stripping the leading slashes of a URL path.

use vstd::prelude::*;
use vstd::string::StrSliceExecFns;
use vstd::string::StringExecFns;

verus! {

/// The URL path with every leading `/` removed (what `trim_start_matches('/')` yields).
pub open spec fn trim_leading_slashes(s: Seq<char>) -> Seq<char>
    decreases s.len(),
{
    if s.len() > 0 && s[0] == '/' {
        trim_leading_slashes(s.drop_first())
    } else {
        s
    }
}

/// Appending `rel` to the directory path `base` on a Unix system: an absolute
/// `rel` replaces `base`; otherwise a separator is inserted unless `base` is
/// empty or already ends with one.
pub open spec fn joined(base: Seq<char>, rel: Seq<char>) -> Seq<char> {
    if rel.len() > 0 && rel[0] == '/' {
        rel
    } else if base.len() == 0 || base.last() == '/' {
        base + rel
    } else {
        base + seq!['/'] + rel
    }
}

/// Strips every leading `/` from `s`.
pub fn trim_start_slashes(s: &str) -> (r: &str)
    ensures
        r@ == trim_leading_slashes(s@),
{
    let n = s.unicode_len();
    let mut i: usize = 0;
    assert(s@.skip(0) =~= s@);
    while i < n && s.get_char(i) == '/'
        invariant
            i <= n,
            n == s@.len(),
            trim_leading_slashes(s@.skip(i as int)) == trim_leading_slashes(s@),
        decreases n - i,
    {
        assert(s@.skip(i as int).drop_first() =~= s@.skip(i + 1));
        i = i + 1;
    }
    assert(s@.skip(i as int) =~= s@.subrange(i as int, n as int));
    s.substring_char(i, n)
}

/// Joins `rel` onto the directory path `base`.
pub fn join_path(base: &str, rel: &str) -> (r: String)
    ensures
        r@ == joined(base@, rel@),
{
    let rel_len = rel.unicode_len();
    if rel_len > 0 && rel.get_char(0) == '/' {
        return String::from_str(rel);
    }
    let base_len = base.unicode_len();
    let mut r = String::from_str(base);
    if base_len > 0 && base.get_char(base_len - 1) != '/' {
        proof {
            reveal_strlit("/");
        }
        r.append("/");
    }
    r.append(rel);
    r
}

/// What trimming leaves never starts with a slash.
pub proof fn lemma_trimmed_not_rooted(s: Seq<char>)
    ensures
        trim_leading_slashes(s).len() > 0 ==> trim_leading_slashes(s)[0] != '/',
        trim_leading_slashes(s).len() <= s.len(),
        trim_leading_slashes(s) == s.skip(s.len() - trim_leading_slashes(s).len()),
    decreases s.len(),
{
    if s.len() > 0 && s[0] == '/' {
        lemma_trimmed_not_rooted(s.drop_first());
        assert(s.drop_first().skip(s.drop_first().len() - trim_leading_slashes(s).len())
            =~= s.skip(s.len() - trim_leading_slashes(s).len()));
    } else {
        assert(s.skip(0) =~= s);
    }
}

/// Trimming the leading slashes twice is the same as trimming them once.
pub proof fn lemma_trim_idempotent(s: Seq<char>)
    ensures
        trim_leading_slashes(trim_leading_slashes(s)) == trim_leading_slashes(s),
{
    lemma_trimmed_not_rooted(s);
}

/// A relative path joined onto a directory keeps the directory as its prefix
/// and ends with the relative path.
pub proof fn lemma_join_relative(base: Seq<char>, rel: Seq<char>)
    requires
        rel.len() == 0 || rel[0] != '/',
    ensures
        joined(base, rel).len() >= base.len() + rel.len(),
        joined(base, rel).subrange(0, base.len() as int) == base,
        joined(base, rel).skip(joined(base, rel).len() - rel.len()) == rel,
{
    let j = joined(base, rel);
    assert(j.subrange(0, base.len() as int) =~= base);
    assert(j.skip(j.len() - rel.len()) =~= rel);
}

/// Trimming removes a run of slashes from the front and nothing else: what
/// remains is the end of the path, everything removed was a `/`, and what
/// remains does not start with one.
pub proof fn lemma_trim_removes_only_leading_slashes(s: Seq<char>)
    ensures
        ({
            let t = trim_leading_slashes(s);
            &&& t.len() <= s.len()
            &&& t == s.skip(s.len() - t.len())
            &&& forall|i: int| 0 <= i < s.len() - t.len() ==> s[i] == '/'
            &&& t.len() > 0 ==> t[0] != '/'
        }),
    decreases s.len(),
{
    lemma_trimmed_not_rooted(s);
    if s.len() > 0 && s[0] == '/' {
        lemma_trim_removes_only_leading_slashes(s.drop_first());
        let t = trim_leading_slashes(s);
        assert forall|i: int| 0 <= i < s.len() - t.len() implies s[i] == '/' by {
            if i > 0 {
                assert(s[i] == s.drop_first()[i - 1]);
            }
        }
    }
}

/// Joining inserts exactly one `/` between a directory and a relative path
/// when the directory is not empty and does not already end with one, and
/// nothing otherwise; an absolute path replaces the directory.
pub proof fn lemma_join_separator(base: Seq<char>, rel: Seq<char>)
    ensures
        rel.len() > 0 && rel[0] == '/' ==> joined(base, rel) == rel,
        !(rel.len() > 0 && rel[0] == '/') && base.len() > 0 && base.last() != '/' ==> joined(
            base,
            rel,
        ) == base + seq!['/'] + rel,
        !(rel.len() > 0 && rel[0] == '/') && (base.len() == 0 || base.last() == '/') ==> joined(
            base,
            rel,
        ) == base + rel,
        joined(base, rel).len() <= base.len() + rel.len() + 1,
{
}

} // verus!
