//! Checks on the path parameters that operations accept.
use vstd::prelude::*;

use crate::error::{Error, ErrorKind};

verus! {

/// Some two neighbouring characters of `s` are both `.`.
pub open spec fn has_parent_ref(s: Seq<char>) -> bool {
    exists|i: int| 0 <= i && i + 1 < s.len() && s[i] == '.' && #[trigger] s[i + 1] == '.'
}

/// `s` ends with `suffix`.
pub open spec fn has_suffix(s: Seq<char>, suffix: Seq<char>) -> bool {
    suffix.len() <= s.len() && s.subrange(s.len() - suffix.len(), s.len() as int) == suffix
}

/// The lower-case form of `s`, as Rust's Unicode case mapping gives it.
pub uninterp spec fn lower_of(s: Seq<char>) -> Seq<char>;

/// Relies on str::to_lowercase: the Unicode lower-case mapping of each
/// character; the result depends on the characters alone.
#[verifier::external_body]
pub(crate) fn lowercase(s: &str) -> (r: String)
    ensures
        r@ == lower_of(s@),
{
    s.to_lowercase()
}

/// Whether `s` holds `..` anywhere.
pub fn contains_parent_ref(s: &str) -> (r: bool)
    ensures
        r == has_parent_ref(s@),
{
    let n = s.unicode_len();
    let mut i: usize = 0;
    let mut prev_dot = false;
    while i < n
        invariant
            n == s@.len(),
            i <= n,
            prev_dot == (i > 0 && s@[i - 1] == '.'),
            forall|j: int| 0 <= j && j + 1 < i ==> !(s@[j] == '.' && #[trigger] s@[j + 1] == '.'),
        decreases n - i,
    {
        let c = s.get_char(i);
        if c == '.' && prev_dot {
            assert(s@[i - 1] == '.' && s@[(i - 1) + 1] == '.');
            return true;
        }
        prev_dot = c == '.';
        i = i + 1;
    }
    false
}

/// Whether `s` ends with `suffix`.
pub fn ends_with(s: &str, suffix: &str) -> (r: bool)
    ensures
        r == has_suffix(s@, suffix@),
{
    let n = s.unicode_len();
    let m = suffix.unicode_len();
    if m > n {
        return false;
    }
    let start = n - m;
    let mut k: usize = 0;
    while k < m
        invariant
            n == s@.len(),
            m == suffix@.len(),
            start == n - m,
            k <= m,
            forall|j: int| 0 <= j < k ==> s@[start + j] == suffix@[j],
        decreases m - k,
    {
        if s.get_char(start + k) != suffix.get_char(k) {
            assert(s@.subrange(start as int, n as int)[k as int] != suffix@[k as int]);
            return false;
        }
        k = k + 1;
    }
    assert(s@.subrange(start as int, n as int) =~= suffix@);
    true
}

/// Whether the two strings hold the same characters.
pub fn same_text(a: &str, b: &str) -> (r: bool)
    ensures
        r == (a@ == b@),
{
    let a = a.to_owned();
    let b = b.to_owned();
    a == b
}

/// Refuses a path parameter that holds `..`, before anything touches the
/// filesystem.
pub fn check_no_parent_ref(path: &str) -> (r: Result<(), Error>)
    ensures
        r is Ok <==> !has_parent_ref(path@),
        r matches Err(e) ==> e.kind == ErrorKind::Parameter && e.message@ == "file path cannot contain `..`"@,
{
    if contains_parent_ref(path) {
        Err(Error::new(ErrorKind::Parameter, "file path cannot contain `..`"))
    } else {
        Ok(())
    }
}

} // verus!
