//! Removal of `//` line comments from configuration text.
//!
//! A comment runs from a `//` through the next newline, newline included,
//! so human-readable notes can precede or follow the JSON content of a
//! configuration file. A `//` with no newline after it is kept unchanged.
//! The removal is purely textual: it does not know about string literals,
//! so a `//` inside a quoted value is treated as a comment opener too.

use vstd::prelude::*;

verus! {

/// The text with every line comment removed: whenever `//` occurs, it and
/// everything through the next `'\n'` (inclusive) is dropped, and scanning
/// resumes after that newline. A trailing `//` that no newline follows is
/// kept as it stands.
pub open spec fn strip_comments_spec(s: Seq<char>) -> Seq<char>
    decreases s.len(),
{
    if s.len() < 2 {
        s
    } else if s[0] == '/' && s[1] == '/' {
        scan_comment_spec(s, s.skip(2))
    } else {
        seq![s[0]] + strip_comments_spec(s.skip(1))
    }
}

/// Helper for [`strip_comments_spec`], looking at `rest` for the newline
/// that ends a comment opened at the start of `whole`. If none exists the
/// comment is not a comment after all and `whole` is kept verbatim.
pub open spec fn scan_comment_spec(whole: Seq<char>, rest: Seq<char>) -> Seq<char>
    decreases rest.len(),
{
    if rest.len() == 0 {
        whole
    } else if rest[0] == '\n' {
        strip_comments_spec(rest.skip(1))
    } else {
        scan_comment_spec(whole, rest.skip(1))
    }
}

/// Stepping past one kept character unfolds the specification by one element.
proof fn lemma_strip_keep_char(s: Seq<char>, i: int)
    requires
        0 <= i < s.len(),
        !(s[i] == '/' && i + 1 < s.len() && s[i + 1] == '/'),
    ensures
        strip_comments_spec(s.skip(i)) == seq![s[i]] + strip_comments_spec(s.skip(i + 1)),
{
    let t = s.skip(i);
    assert(t.len() == s.len() - i);
    assert(t[0] == s[i]);
    if t.len() < 2 {
        assert(s.skip(i + 1) =~= Seq::<char>::empty());
        assert(strip_comments_spec(s.skip(i + 1)) =~= Seq::<char>::empty());
        assert(seq![s[i]] + strip_comments_spec(s.skip(i + 1)) =~= t);
    } else {
        assert(t[1] == s[i + 1]);
        assert(!(t[0] == '/' && t[1] == '/'));
        assert(t.skip(1) =~= s.skip(i + 1));
        assert(strip_comments_spec(t) == seq![t[0]] + strip_comments_spec(t.skip(1)));
    }
}

/// Scanning from `m` to the first newline at `j` lands the specification just
/// past that newline.
proof fn lemma_scan_to_newline(whole: Seq<char>, s: Seq<char>, m: int, j: int)
    requires
        0 <= m <= j < s.len(),
        s[j] == '\n',
        forall|k: int| m <= k < j ==> s[k] != '\n',
    ensures
        scan_comment_spec(whole, s.skip(m)) == strip_comments_spec(s.skip(j + 1)),
    decreases j - m,
{
    let rest = s.skip(m);
    assert(rest.len() > 0);
    assert(rest[0] == s[m]);
    if m == j {
        assert(rest[0] == '\n');
        assert(rest.skip(1) =~= s.skip(j + 1));
    } else {
        assert(rest[0] != '\n');
        assert(rest.skip(1) =~= s.skip(m + 1));
        lemma_scan_to_newline(whole, s, m + 1, j);
    }
}

/// Scanning a tail that holds no newline gives back the whole comment text.
proof fn lemma_scan_no_newline(whole: Seq<char>, s: Seq<char>, m: int)
    requires
        0 <= m <= s.len(),
        forall|k: int| m <= k < s.len() ==> s[k] != '\n',
    ensures
        scan_comment_spec(whole, s.skip(m)) == whole,
    decreases s.len() - m,
{
    let rest = s.skip(m);
    if rest.len() == 0 {
    } else {
        assert(rest[0] == s[m]);
        assert(rest[0] != '\n');
        assert(rest.skip(1) =~= s.skip(m + 1));
        lemma_scan_no_newline(whole, s, m + 1);
    }
}

/// Opening a comment at `i` (with `i + 1` in range) unfolds the specification
/// into a scan for the closing newline.
proof fn lemma_strip_open_comment(s: Seq<char>, i: int)
    requires
        0 <= i,
        i + 1 < s.len(),
        s[i] == '/',
        s[i + 1] == '/',
    ensures
        strip_comments_spec(s.skip(i)) == scan_comment_spec(s.skip(i), s.skip(i + 2)),
{
    let t = s.skip(i);
    assert(t.len() >= 2);
    assert(t[0] == s[i] && t[1] == s[i + 1]);
    assert(t.skip(2) =~= s.skip(i + 2));
}

/// Removes every `//` line comment from `s`, as [`strip_comments_spec`]
/// describes.
pub fn strip_comments(s: &str) -> (r: String)
    ensures
        r@ == strip_comments_spec(s@),
{
    let n = s.unicode_len();
    let mut out = String::new();
    let mut i: usize = 0;
    proof {
        assert(s@.skip(0) =~= s@);
    }
    while i < n
        invariant
            n == s@.len(),
            0 <= i <= n,
            strip_comments_spec(s@) == out@ + strip_comments_spec(s@.skip(i as int)),
        decreases n - i,
    {
        let c = s.get_char(i);
        if c == '/' && i + 1 < n && s.get_char(i + 1) == '/' {
            // A comment opens here; look for the newline that closes it.
            let mut j: usize = i + 2;
            let mut found = false;
            while j < n && !found
                invariant
                    n == s@.len(),
                    i + 2 <= j <= n,
                    found ==> j < n && s@[j as int] == '\n',
                    forall|k: int| i + 2 <= k < j ==> s@[k] != '\n',
                decreases n - j + (if found { 0int } else { 1int }),
            {
                if s.get_char(j) == '\n' {
                    found = true;
                } else {
                    j = j + 1;
                }
            }
            if found {
                proof {
                    lemma_strip_open_comment(s@, i as int);
                    lemma_scan_to_newline(s@.skip(i as int), s@, i as int + 2, j as int);
                }
                i = j + 1;
            } else {
                // No closing newline: the tail is kept verbatim.
                let tail = s.substring_char(i, n);
                proof {
                    lemma_strip_open_comment(s@, i as int);
                    lemma_scan_no_newline(s@.skip(i as int), s@, i as int + 2);
                    assert(tail@ =~= s@.skip(i as int));
                }
                out.append(tail);
                i = n;
                proof {
                    assert(s@.skip(n as int) =~= Seq::<char>::empty());
                    assert(out@ + strip_comments_spec(s@.skip(n as int)) =~= out@);
                }
            }
        } else {
            let kept = s.substring_char(i, i + 1);
            proof {
                lemma_strip_keep_char(s@, i as int);
                assert(kept@ =~= seq![s@[i as int]]);
            }
            out.append(kept);
            i = i + 1;
            proof {
                assert(out@ + strip_comments_spec(s@.skip(i as int)) =~= strip_comments_spec(s@));
            }
        }
    }
    proof {
        assert(s@.skip(n as int) =~= Seq::<char>::empty());
        assert(out@ =~= strip_comments_spec(s@));
    }
    out
}

} // verus!
