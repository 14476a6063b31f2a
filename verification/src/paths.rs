//! Validation and decomposition of candidate source-file paths.

use vstd::prelude::*;
use vstd::string::StrSliceExecFns;
use vstd::string::StringExecFns;

verus! {

/// A path is acceptable when its name ends in the `.ml` suffix.
pub open spec fn is_ml_path(s: Seq<char>) -> bool {
    &&& s.len() >= 3
    &&& s[s.len() - 3] == '.'
    &&& s[s.len() - 2] == 'm'
    &&& s[s.len() - 1] == 'l'
}

/// Returns whether `path` ends with the recognized `.ml` suffix.
pub fn has_ml_suffix(path: &str) -> (r: bool)
    ensures
        r == is_ml_path(path@),
{
    let n = path.unicode_len();
    if n < 3 {
        return false;
    }
    let a = path.get_char(n - 3);
    let b = path.get_char(n - 2);
    let c = path.get_char(n - 1);
    a == '.' && b == 'm' && c == 'l'
}

/// The last segment of a `/`-separated path: everything after the final
/// `/`, or the whole path when it holds none. A path ending in `/` has an
/// empty last segment.
pub open spec fn base_name_of(s: Seq<char>) -> Seq<char>
    decreases s.len(),
{
    if s.len() == 0 {
        s
    } else if s[s.len() - 1] == '/' {
        Seq::empty()
    } else {
        base_name_of(s.drop_last()).push(s[s.len() - 1])
    }
}

/// When no `/` occurs at or after position `cut`, and `cut` is either the
/// start of the path or just past a `/`, the last segment is exactly the
/// suffix from `cut`.
proof fn lemma_base_name_suffix(s: Seq<char>, cut: int)
    requires
        0 <= cut <= s.len(),
        forall|j: int| cut <= j < s.len() ==> s[j] != '/',
        cut > 0 ==> s[cut - 1] == '/',
    ensures
        base_name_of(s) == s.subrange(cut, s.len() as int),
    decreases s.len(),
{
    if s.len() == 0 {
        assert(base_name_of(s) =~= s.subrange(cut, s.len() as int));
    } else if cut == s.len() {
        assert(base_name_of(s) =~= s.subrange(cut, s.len() as int));
    } else {
        lemma_base_name_suffix(s.drop_last(), cut);
        assert(base_name_of(s) =~= s.subrange(cut, s.len() as int));
    }
}

/// Returns the last `/`-separated segment of `path`: the human-readable
/// file name of a canonicalized path.
pub fn base_name(path: &str) -> (r: String)
    ensures
        r@ == base_name_of(path@),
{
    let n = path.unicode_len();
    let mut cut: usize = 0;
    let mut k: usize = 0;
    while k < n
        invariant
            k <= n,
            cut <= k,
            n == path@.len(),
            cut > 0 ==> path@[cut - 1] == '/',
            forall|j: int| cut <= j < k ==> path@[j] != '/',
        decreases n - k,
    {
        if path.get_char(k) == '/' {
            cut = k + 1;
        }
        k = k + 1;
    }
    proof {
        lemma_base_name_suffix(path@, cut as int);
    }
    let segment = path.substring_char(cut, n);
    String::from_str(segment)
}

/// The resolved target path of the program, from the candidate argument and
/// the file system's answers: `Some` exactly when an argument was given, it
/// ends in `.ml`, the file exists, and canonicalization succeeded — in which
/// case the result is the canonical form.
pub open spec fn resolve_spec(
    arg: Option<Seq<char>>,
    file_exists: bool,
    canonical: Option<Seq<char>>,
) -> Option<Seq<char>> {
    match arg {
        Option::None => Option::None,
        Option::Some(a) => if is_ml_path(a) && file_exists {
            canonical
        } else {
            Option::None
        },
    }
}

/// Decides the target path of a run. `arg` is the first command-line
/// argument, if any; `file_exists` whether the file system confirms the
/// candidate exists; `canonical` the canonicalized absolute form, if the
/// file system could produce one.
pub fn resolve_path(arg: Option<&String>, file_exists: bool, canonical: Option<String>) -> (r:
    Option<String>)
    ensures
        r.deep_view() == resolve_spec(arg.deep_view(), file_exists, canonical.deep_view()),
{
    match arg {
        Option::None => Option::None,
        Option::Some(a) => {
            if has_ml_suffix(a.as_str()) && file_exists {
                canonical
            } else {
                Option::None
            }
        },
    }
}

/// A candidate whose name does not end in the recognized suffix is rejected,
/// whatever the file system would have said of it.
pub proof fn lemma_bad_suffix_rejected(a: Seq<char>, file_exists: bool, canonical: Option<
    Seq<char>,
>)
    requires
        !is_ml_path(a),
    ensures
        resolve_spec(Option::Some(a), file_exists, canonical) is None,
{
}

/// A candidate naming no existing file is rejected, whatever canonicalization
/// would have returned.
pub proof fn lemma_missing_file_rejected(a: Seq<char>, canonical: Option<Seq<char>>)
    ensures
        resolve_spec(Option::Some(a), false, canonical) is None,
{
}

} // verus!
