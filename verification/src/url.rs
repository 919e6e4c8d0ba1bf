//! URL decomposition: scheme, host, default port, and path, read off a URL
//! string without an HTTP library.
//!
//! The parser is intentionally naive: it does not validate host syntax, does
//! not support an explicit port in the authority, and treats the scheme only
//! as the choice of a default port.

use vstd::prelude::*;
use vstd::string::StrSliceExecFns;

verus! {

/// The position of the first occurrence of `c` in `s` at or after `i`.
pub open spec fn spec_find_char(s: Seq<char>, c: char, i: int) -> Option<int>
    decreases s.len() - i,
{
    if i < 0 || i >= s.len() {
        None
    } else if s[i] == c {
        Some(i)
    } else {
        spec_find_char(s, c, i + 1)
    }
}

/// `s` with every leading double slash removed.
pub open spec fn spec_strip_slashes(s: Seq<char>) -> Seq<char>
    decreases s.len(),
{
    if s.len() >= 2 && s[0] == '/' && s[1] == '/' {
        spec_strip_slashes(s.skip(2))
    } else {
        s
    }
}

/// The decomposition of a URL.
pub enum UrlOutcome {
    /// A scheme other than `http` or `https`.
    UnsupportedScheme,
    /// Nothing left for the host: no colon after the scheme, or nothing
    /// before the first slash once the double slashes are stripped.
    MissingHost,
    /// Scheme, host and path were found; the port is 80 for `http` and 443
    /// for `https`.
    Parsed { host: Seq<char>, port: u16, path: Seq<char> },
}

/// Decomposes `url`: the scheme is everything before the first colon (the
/// whole string when there is none) and must be `http` or `https`; leading
/// double slashes of the remainder are stripped; the host is the remainder
/// up to the first slash, and the path is from that slash on, `/` when
/// there is none.
pub open spec fn spec_parse_url(url: Seq<char>) -> UrlOutcome {
    let copt = spec_find_char(url, ':', 0);
    let scheme = match copt {
        None => url,
        Some(ci) => url.take(ci),
    };
    if scheme != "http"@ && scheme != "https"@ {
        UrlOutcome::UnsupportedScheme
    } else {
        match copt {
            None => UrlOutcome::MissingHost,
            Some(ci) => {
                let stripped = spec_strip_slashes(url.skip(ci + 1));
                let hp = match spec_find_char(stripped, '/', 0) {
                    None => (stripped, "/"@),
                    Some(si) => (stripped.take(si), stripped.skip(si)),
                };
                if hp.0.len() == 0 {
                    UrlOutcome::MissingHost
                } else {
                    UrlOutcome::Parsed {
                        host: hp.0,
                        port: if scheme == "http"@ {
                            80u16
                        } else {
                            443u16
                        },
                        path: hp.1,
                    }
                }
            },
        }
    }
}

/// Searching from position `k + i` of `s` is searching from position `i` of
/// `s` with its first `k` characters dropped.
pub proof fn lemma_find_char_skip(s: Seq<char>, c: char, k: int, i: int)
    requires
        0 <= k <= s.len(),
        0 <= i,
    ensures
        spec_find_char(s, c, k + i) == (match spec_find_char(s.skip(k), c, i) {
            None => None::<int>,
            Some(j) => Some(j + k),
        }),
    decreases s.len() - (k + i),
{
    if k + i < s.len() {
        assert(s.skip(k)[i] == s[k + i]);
        if s[k + i] != c {
            lemma_find_char_skip(s, c, k, i + 1);
        }
    }
}

/// Finds the first occurrence of `c` in `s` at or after `from`.
pub fn find_char(s: &str, c: char, from: usize) -> (r: Option<usize>)
    ensures
        match r {
            Some(j) => spec_find_char(s@, c, from as int) == Some(j as int) && from <= j
                < s@.len(),
            None => spec_find_char(s@, c, from as int) is None,
        },
{
    let n = s.unicode_len();
    let mut k = from;
    while k < n
        invariant
            from <= k,
            n == s@.len(),
            spec_find_char(s@, c, from as int) == spec_find_char(s@, c, k as int),
        decreases n - k,
    {
        if s.get_char(k) == c {
            return Some(k);
        }
        k = k + 1;
    }
    None
}

/// Compares two strings character by character.
pub fn str_eq(a: &str, b: &str) -> (r: bool)
    ensures
        r == (a@ == b@),
{
    let na = a.unicode_len();
    let nb = b.unicode_len();
    if na != nb {
        return false;
    }
    let mut k: usize = 0;
    while k < na
        invariant
            k <= na,
            na == a@.len() && na == b@.len(),
            forall|i: int| 0 <= i < k ==> a@[i] == b@[i],
        decreases na - k,
    {
        if a.get_char(k) != b.get_char(k) {
            return false;
        }
        k = k + 1;
    }
    proof {
        assert(a@ =~= b@);
    }
    true
}

/// The number of characters taken up by the leading double slashes of `s`.
pub fn strip_slashes_len(s: &str) -> (r: usize)
    ensures
        r <= s@.len(),
        spec_strip_slashes(s@) == s@.skip(r as int),
{
    let n = s.unicode_len();
    let mut k: usize = 0;
    assert(s@.skip(0) =~= s@);
    while n >= 2 && k <= n - 2 && s.get_char(k) == '/' && s.get_char(k + 1) == '/'
        invariant
            k <= n,
            n == s@.len(),
            spec_strip_slashes(s@) == spec_strip_slashes(s@.skip(k as int)),
        decreases n - k,
    {
        proof {
            assert(s@.skip(k as int).skip(2) =~= s@.skip(k + 2 as int));
        }
        k = k + 2;
    }
    proof {
        assert(spec_strip_slashes(s@.skip(k as int)) == s@.skip(k as int));
    }
    k
}

} // verus!
