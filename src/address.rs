use vstd::prelude::*;

use crate::config::default_port;

verus! {

pub open spec fn has_prefix(s: Seq<char>, p: Seq<char>) -> bool {
    p.len() <= s.len() && s.subrange(0, p.len() as int) == p
}

pub open spec fn scheme_http() -> Seq<char> {
    seq!['h', 't', 't', 'p', ':', '/', '/']
}

pub open spec fn scheme_https() -> Seq<char> {
    seq!['h', 't', 't', 'p', 's', ':', '/', '/']
}

pub open spec fn scheme_ws() -> Seq<char> {
    seq!['w', 's', ':', '/', '/']
}

pub open spec fn scheme_wss() -> Seq<char> {
    seq!['w', 's', 's', ':', '/', '/']
}

/// The address with the first recognised scheme prefix removed, if any.
/// At most one prefix is ever removed.
pub open spec fn strip_scheme(s: Seq<char>) -> Seq<char> {
    if has_prefix(s, scheme_http()) {
        s.subrange(scheme_http().len() as int, s.len() as int)
    } else if has_prefix(s, scheme_https()) {
        s.subrange(scheme_https().len() as int, s.len() as int)
    } else if has_prefix(s, scheme_ws()) {
        s.subrange(scheme_ws().len() as int, s.len() as int)
    } else if has_prefix(s, scheme_wss()) {
        s.subrange(scheme_wss().len() as int, s.len() as int)
    } else {
        s
    }
}

/// `i` is the position of the last ':' in `s`.
pub open spec fn is_last_colon(s: Seq<char>, i: int) -> bool {
    &&& 0 <= i < s.len()
    &&& s[i] == ':'
    &&& forall|j: int| i < j < s.len() ==> s[j] != ':'
}

pub open spec fn has_colon(s: Seq<char>) -> bool {
    exists|i: int| 0 <= i < s.len() && s[i] == ':'
}

/// The (host, port) pair that an address stands for: after the scheme is
/// stripped, the text is split at its last ':'; without one the whole text
/// is the host and the port is the default port.
pub open spec fn resolve_spec(addr: Seq<char>) -> (Seq<char>, Seq<char>) {
    let s = strip_scheme(addr);
    if has_colon(s) {
        let i = choose|i: int| is_last_colon(s, i);
        (s.subrange(0, i), s.subrange(i + 1, s.len() as int))
    } else {
        (s, default_port())
    }
}

/// A text has its last ':' at one position only, so the split is well defined.
pub proof fn lemma_last_colon_unique(s: Seq<char>, i: int, k: int)
    requires
        is_last_colon(s, i),
        is_last_colon(s, k),
    ensures
        i == k,
{
}

fn starts_with(s: &str, p: &str) -> (r: bool)
    ensures
        r == has_prefix(s@, p@),
{
    let n = s.unicode_len();
    let m = p.unicode_len();
    if m > n {
        return false;
    }
    let mut i: usize = 0;
    while i < m
        invariant
            m == p@.len(),
            n == s@.len(),
            m <= n,
            i <= m,
            forall|j: int| 0 <= j < i ==> s@[j] == p@[j],
        decreases m - i,
    {
        if s.get_char(i) != p.get_char(i) {
            assert(s@.subrange(0, m as int)[i as int] != p@[i as int]);
            return false;
        }
        i = i + 1;
    }
    assert(s@.subrange(0, m as int) =~= p@);
    true
}

fn strip_one_scheme(s: &str) -> (r: &str)
    ensures
        r@ == strip_scheme(s@),
{
    let n = s.unicode_len();
    proof {
        reveal_strlit("http://");
        reveal_strlit("https://");
        reveal_strlit("ws://");
        reveal_strlit("wss://");
    }
    assert("http://"@ =~= scheme_http());
    assert("https://"@ =~= scheme_https());
    assert("ws://"@ =~= scheme_ws());
    assert("wss://"@ =~= scheme_wss());
    if starts_with(s, "http://") {
        s.substring_char(7, n)
    } else if starts_with(s, "https://") {
        s.substring_char(8, n)
    } else if starts_with(s, "ws://") {
        s.substring_char(5, n)
    } else if starts_with(s, "wss://") {
        s.substring_char(6, n)
    } else {
        s
    }
}

/// Splits a user-entered server address into host and port.
///
/// One scheme prefix (`http://`, `https://`, `ws://`, `wss://`) is removed,
/// then the rest is split at its last ':'. Without a ':' the port is
/// "4127". IPv6 literals and addresses with a path are not recognised: the
/// split is always at the last ':'.
pub fn extract_host_port(url: &str) -> (r: (String, String))
    ensures
        (r.0@, r.1@) == resolve_spec(url@),
{
    let clean = strip_one_scheme(url);
    let n = clean.unicode_len();
    let mut i: usize = n;
    while i > 0
        invariant
            clean@ == strip_scheme(url@),
            n == clean@.len(),
            i <= n,
            forall|j: int| i <= j < n ==> clean@[j] != ':',
        decreases i,
    {
        if clean.get_char(i - 1) == ':' {
            let pos = i - 1;
            assert(is_last_colon(clean@, pos as int));
            assert(has_colon(clean@));
            let host = String::from_str(clean.substring_char(0, pos));
            let port = String::from_str(clean.substring_char(pos + 1, n));
            proof {
                let k = choose|k: int| is_last_colon(clean@, k);
                lemma_last_colon_unique(clean@, pos as int, k);
                assert(resolve_spec(url@).0 == clean@.subrange(0, pos as int));
                assert(resolve_spec(url@).1 == clean@.subrange(pos + 1, n as int));
            }
            return (host, port);
        }
        i = i - 1;
    }
    proof {
        reveal_strlit("4127");
    }
    assert("4127"@ =~= default_port());
    (String::from_str(clean), String::from_str("4127"))
}

} // verus!
