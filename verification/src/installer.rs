//! Installing FileDrop on the user's path: how the Windows `Path` value is
//! extended, and the hint shown on Unix.
//!
//! Copying the executable and editing the registry live outside the
//! library.
use vstd::prelude::*;

verus! {

/// `t` occurs in `s` at position `i`.
pub open spec fn occurs_at(s: Seq<char>, t: Seq<char>, i: int) -> bool {
    0 <= i && i + t.len() <= s.len() && s.subrange(i, i + t.len()) == t
}

/// `t` occurs somewhere in `s` (`str::contains`).
pub open spec fn contains_text(s: Seq<char>, t: Seq<char>) -> bool {
    exists|i: int| occurs_at(s, t, i)
}

/// The new `Path` value once `dir` is added: unchanged (`None`) when it
/// already mentions `dir`; otherwise `dir` appended, after a `;` unless the
/// value is empty or already ends with one.
pub open spec fn path_with_dir(current: Seq<char>, dir: Seq<char>) -> Option<Seq<char>> {
    if contains_text(current, dir) {
        None
    } else if current.len() == 0 || current.last() == ';' {
        Some(current + dir)
    } else {
        Some(current + ";"@ + dir)
    }
}

fn occurs_here(s: &str, t: &str, i: usize) -> (r: bool)
    requires
        i + t@.len() <= s@.len(),
    ensures
        r == occurs_at(s@, t@, i as int),
{
    let m = t.unicode_len();
    let n = s.unicode_len();
    let mut k: usize = 0;
    while k < m
        invariant
            m == t@.len(),
            n == s@.len(),
            i + m <= s@.len(),
            k <= m,
            forall|j: int| 0 <= j < k ==> s@[i + j] == t@[j],
        decreases m - k,
    {
        if s.get_char(i + k) != t.get_char(k) {
            assert(s@.subrange(i as int, i + m)[k as int] != t@[k as int]);
            return false;
        }
        k = k + 1;
    }
    assert(s@.subrange(i as int, i + m) =~= t@);
    true
}

/// Whether `t` occurs in `s`.
pub fn contains_str(s: &str, t: &str) -> (r: bool)
    ensures
        r == contains_text(s@, t@),
{
    let n = s.unicode_len();
    let m = t.unicode_len();
    if m > n {
        assert forall|i: int| !occurs_at(s@, t@, i) by {}
        return false;
    }
    if m == 0 {
        assert(s@.subrange(0, 0) =~= t@);
        assert(occurs_at(s@, t@, 0));
        return true;
    }
    let mut i: usize = 0;
    while i <= n - m
        invariant
            n == s@.len(),
            m == t@.len(),
            1 <= m <= n,
            i <= n - m + 1,
            forall|j: int| 0 <= j < i ==> !occurs_at(s@, t@, j),
        decreases n - m + 1 - i,
    {
        if occurs_here(s, t, i) {
            return true;
        }
        i = i + 1;
    }
    assert forall|j: int| !occurs_at(s@, t@, j) by {
        if 0 <= j < i {
        }
    }
    false
}

/// The `Path` value with the install directory added, or `None` when it is
/// already there.
pub fn windows_path_update(current: &str, dir: &str) -> (r: Option<String>)
    ensures
        match path_with_dir(current@, dir@) {
            Some(p) => r matches Some(s) && s@ == p,
            None => r is None,
        },
{
    if contains_str(current, dir) {
        return None;
    }
    let n = current.unicode_len();
    let mut s = String::from_str(current);
    if !(n == 0 || current.get_char(n - 1) == ';') {
        s.append(";");
    }
    s.append(dir);
    Some(s)
}

/// The line a Unix user adds to their shell profile.
pub fn unix_path_line(dir: &str) -> (r: String)
    ensures
        r@ == "     export PATH=\"$PATH:"@ + dir@ + "\"\r\n"@,
{
    let mut s = String::from_str("     export PATH=\"$PATH:");
    s.append(dir);
    s.append("\"\r\n");
    s
}

/// Adding the directory twice changes nothing the second time: once
/// added, the directory is found in the new value.
pub proof fn lemma_path_update_idempotent(current: Seq<char>, dir: Seq<char>)
    ensures
        path_with_dir(current, dir) matches Some(p) ==> path_with_dir(p, dir) is None,
{
    if let Some(p) = path_with_dir(current, dir) {
        let i = p.len() - dir.len();
        assert(p.subrange(i, i + dir.len()) =~= dir);
        assert(occurs_at(p, dir, i));
    }
}

} // verus!
