//! Small string utilities: equality against catalog entries, the
//! space-to-underscore rewrite used for wiki links, and extraction of the
//! final path component of a track's source filename.

use vstd::prelude::*;

verus! {

/// Relies on `str`'s `PartialEq`: true exactly when the two strings hold the
/// same characters.
#[verifier::external_body]
pub(crate) fn str_eq(a: &str, b: &str) -> (r: bool)
    ensures
        r == (a@ == b@),
{
    a == b
}

/// Relies on `String::push`: appends the given character to the end of the
/// string.
#[verifier::external_body]
pub(crate) fn push_char(s: &mut String, c: char)
    ensures
        final(s)@ == old(s)@.push(c),
{
    s.push(c);
}

/// The string with every space replaced by an underscore, as wiki page names
/// spell it.
pub open spec fn spec_underscored(s: Seq<char>) -> Seq<char> {
    s.map_values(|c: char| if c == ' ' { '_' } else { c })
}

/// Replaces every space with an underscore.
pub fn underscore_spaces(s: &str) -> (r: String)
    ensures
        r@ == spec_underscored(s@),
{
    let n: usize = s.unicode_len();
    let mut out = String::new();
    let mut i: usize = 0;
    while i < n
        invariant
            i <= n,
            n == s@.len(),
            out@ == spec_underscored(s@.subrange(0, i as int)),
        decreases n - i,
    {
        let c = s.get_char(i);
        if c == ' ' {
            push_char(&mut out, '_');
        } else {
            push_char(&mut out, c);
        }
        proof {
            assert(s@.subrange(0, i + 1) =~= s@.subrange(0, i as int).push(s@[i as int]));
            assert(spec_underscored(s@.subrange(0, i + 1)) =~= spec_underscored(
                s@.subrange(0, i as int),
            ).push(if s@[i as int] == ' ' { '_' } else { s@[i as int] }));
        }
        i += 1;
    }
    proof {
        assert(s@.subrange(0, n as int) =~= s@);
    }
    out
}

/// True of the characters that separate path components.
pub open spec fn spec_is_separator(c: char) -> bool {
    c == '/' || c == '\\'
}

/// The index just after the last path separator, or 0 when there is none.
pub open spec fn spec_file_name_start(s: Seq<char>) -> int
    decreases s.len(),
{
    if s.len() == 0 {
        0
    } else if spec_is_separator(s.last()) {
        s.len() as int
    } else {
        spec_file_name_start(s.drop_last())
    }
}

/// The final path component: everything after the last separator.
pub open spec fn spec_file_name(s: Seq<char>) -> Seq<char> {
    s.subrange(spec_file_name_start(s), s.len() as int)
}

pub proof fn lemma_file_name_start_bounds(s: Seq<char>)
    ensures
        0 <= spec_file_name_start(s) <= s.len(),
    decreases s.len(),
{
    if s.len() != 0 && !spec_is_separator(s.last()) {
        lemma_file_name_start_bounds(s.drop_last());
    }
}

/// Returns the final component of a path: the part after the last `/` or
/// `\`, or the whole string when it has neither.
pub fn file_name_of(path: &str) -> (r: &str)
    ensures
        r@ == spec_file_name(path@),
{
    let n: usize = path.unicode_len();
    proof {
        lemma_file_name_start_bounds(path@);
        assert(path@.subrange(0, n as int) =~= path@);
    }
    let mut i: usize = n;
    while i > 0
        invariant
            i <= n,
            n == path@.len(),
            spec_file_name_start(path@) == spec_file_name_start(path@.subrange(0, i as int)),
        decreases i,
    {
        let c = path.get_char(i - 1);
        proof {
            assert(path@.subrange(0, i as int).last() == path@[i - 1]);
        }
        if c == '/' || c == '\\' {
            proof {
                assert(spec_file_name_start(path@.subrange(0, i as int)) == i);
            }
            return path.substring_char(i, n);
        }
        proof {
            assert(path@.subrange(0, i as int).drop_last() =~= path@.subrange(0, i - 1));
        }
        i -= 1;
    }
    proof {
        assert(path@.subrange(0, 0) =~= Seq::<char>::empty());
        assert(spec_file_name_start(path@) == 0);
        assert(path@.subrange(0, n as int) =~= path@);
    }
    path
}

} // verus!
