//! Derivation of the upstream target `(host, port)` from the parts of a
//! request's URL, following RFC 7230 section 5.3: an explicit `host:port`
//! authority wins; otherwise the URL's own port, or the scheme's default.

use vstd::prelude::*;
use vstd::string::StringExecFns;
use vstd::string::StrSliceExecFns;
use crate::error::Error;
use crate::num::all_digits;
use crate::num::dec_seq;
use crate::num::dec_val;
use crate::num::is_digit;
use crate::num::parse_u16;

verus! {

/// Number of occurrences of `c` in `s`.
pub open spec fn count_char(s: Seq<char>, c: char) -> nat
    decreases s.len(),
{
    if s.len() == 0 {
        0
    } else {
        count_char(s.drop_last(), c) + if s.last() == c {
            1nat
        } else {
            0nat
        }
    }
}

/// Index of the first `':'` of `s`, or `s.len()` when there is none.
pub open spec fn first_colon(s: Seq<char>) -> int
    decreases s.len(),
{
    if s.len() == 0 {
        0
    } else if s[0] == ':' {
        0
    } else {
        1 + first_colon(s.skip(1))
    }
}

/// The host part of a host string: everything before the first `':'`,
/// or the whole string when it has no colon.
pub open spec fn split_host(s: Seq<char>) -> Seq<char> {
    s.take(first_colon(s))
}

/// The port digits of a host string holding exactly one `':'`:
/// everything after it.
pub open spec fn port_str(s: Seq<char>) -> Seq<char> {
    s.skip(first_colon(s) + 1)
}

/// A non-empty all-digit string whose value fits in a port number.
pub open spec fn valid_port_str(s: Seq<char>) -> bool {
    s.len() > 0 && all_digits(s) && dec_val(s) <= 65535
}

/// The port used when the authority carries none: the URL's explicit port if
/// present, else 443 for the `https` scheme and 80 for any other.
pub open spec fn default_port(scheme: Seq<char>, url_port: Option<u16>) -> u16 {
    match url_port {
        Some(p) => p,
        None => if scheme == "https"@ {
            443u16
        } else {
            80u16
        },
    }
}

/// The target derived from URL parts, or `None` when the host string names a
/// port that is not a valid number.
pub open spec fn target_of(scheme: Seq<char>, host: Seq<char>, url_port: Option<u16>) -> Option<
    (Seq<char>, u16),
> {
    if count_char(host, ':') == 1 {
        if valid_port_str(port_str(host)) {
            Some((split_host(host), dec_val(port_str(host)) as u16))
        } else {
            None
        }
    } else {
        Some((split_host(host), default_port(scheme, url_port)))
    }
}

/// Counting occurrences distributes over concatenation.
pub proof fn lemma_count_concat(a: Seq<char>, b: Seq<char>, c: char)
    ensures
        count_char(a + b, c) == count_char(a, c) + count_char(b, c),
    decreases b.len(),
{
    if b.len() == 0 {
        assert(a + b =~= a);
    } else {
        lemma_count_concat(a, b.drop_last(), c);
        assert((a + b).drop_last() =~= a + b.drop_last());
        assert((a + b).last() == b.last());
    }
}

/// A character occurs zero times exactly when no position holds it.
pub proof fn lemma_count_zero(s: Seq<char>, c: char)
    ensures
        count_char(s, c) == 0 <==> (forall|j: int| 0 <= j < s.len() ==> s[j] != c),
    decreases s.len(),
{
    if s.len() > 0 {
        lemma_count_zero(s.drop_last(), c);
        assert(forall|j: int| 0 <= j < s.len() - 1 ==> s[j] == s.drop_last()[j]);
    }
}

/// A string of decimal digits holds no colon.
pub proof fn lemma_digits_no_colon(s: Seq<char>)
    requires
        all_digits(s),
    ensures
        count_char(s, ':') == 0,
{
    assert(':' as u32 == 58);
    assert(forall|j: int| 0 <= j < s.len() ==> is_digit(#[trigger] s[j]) && s[j] != ':');
    lemma_count_zero(s, ':');
}

/// The first colon stands at `i` when no colon stands before `i` and either
/// `i` is the length or a colon stands at `i`.
pub proof fn lemma_first_colon_at(s: Seq<char>, i: int)
    requires
        0 <= i <= s.len(),
        forall|j: int| 0 <= j < i ==> s[j] != ':',
        i == s.len() || s[i] == ':',
    ensures
        first_colon(s) == i,
    decreases s.len(),
{
    if s.len() == 0 {
    } else if s[0] == ':' {
        assert(i == 0);
    } else {
        assert(i >= 1);
        let t = s.skip(1);
        assert(forall|j: int| 0 <= j < i - 1 ==> t[j] == s[j + 1] && s[j + 1] != ':');
        assert(i - 1 == t.len() || t[i - 1] == ':');
        lemma_first_colon_at(t, i - 1);
    }
}

/// Authority parsing, explicit form: for a host string written
/// `host ":" digits`, with no colon in `host` and a valid port number in
/// `digits`, the derived target is exactly `(host, value of digits)`,
/// whatever the scheme and the URL's own port say.
pub proof fn lemma_authority_explicit(
    scheme: Seq<char>,
    host: Seq<char>,
    digits: Seq<char>,
    url_port: Option<u16>,
)
    requires
        count_char(host, ':') == 0,
        valid_port_str(digits),
    ensures
        target_of(scheme, host + seq![':'] + digits, url_port) == Some(
            (host, dec_val(digits) as u16),
        ),
{
    let s = host + seq![':'] + digits;
    lemma_digits_no_colon(digits);
    lemma_count_concat(host + seq![':'], digits, ':');
    lemma_count_concat(host, seq![':'], ':');
    assert(seq![':'].drop_last() =~= Seq::<char>::empty());
    assert(count_char(Seq::<char>::empty(), ':') == 0);
    assert(seq![':'].last() == ':');
    assert(count_char(seq![':'], ':') == count_char(seq![':'].drop_last(), ':') + 1);
    assert(count_char(s, ':') == 1);
    lemma_count_zero(host, ':');
    assert(forall|j: int| 0 <= j < host.len() ==> s[j] == host[j] && s[j] != ':');
    assert(s[host.len() as int] == ':');
    lemma_first_colon_at(s, host.len() as int);
    assert(split_host(s) =~= host);
    assert(port_str(s) =~= digits);
}

/// Authority parsing, scheme-default form: for a host string with no colon
/// and no explicit URL port, the derived target is the host itself with
/// port 443 under the `https` scheme and port 80 under any other.
pub proof fn lemma_authority_default(scheme: Seq<char>, host: Seq<char>)
    requires
        count_char(host, ':') == 0,
    ensures
        target_of(scheme, host, None) == Some(
            (
                host,
                if scheme == "https"@ {
                    443u16
                } else {
                    80u16
                },
            ),
        ),
{
    lemma_count_zero(host, ':');
    lemma_first_colon_at(host, host.len() as int);
    assert(split_host(host) =~= host);
}

/// Authority round trip: deriving a target from the authority string written
/// for `(host, port)` — the host, a colon, the port in decimal — gives back
/// exactly `(host, port)`, for any host without a colon of its own.
pub proof fn lemma_authority_round_trip(
    scheme: Seq<char>,
    host: Seq<char>,
    port: u16,
    url_port: Option<u16>,
)
    requires
        count_char(host, ':') == 0,
    ensures
        target_of(scheme, host + ":"@ + dec_seq(port as nat), url_port) == Some((host, port)),
{
    crate::num::lemma_dec_round_trip(port as nat);
    reveal_strlit(":");
    assert(":"@ =~= seq![':']);
    lemma_authority_explicit(scheme, host, dec_seq(port as nat), url_port);
}

/// Derives the upstream target from the parts of the request URL: its scheme,
/// its host string if it has one, and its explicit port if it has one.
///
/// A missing host fails the protocol's preconditions and is a bad request.
/// A host string of the form `host:port` overrides everything; a port that
/// is not a valid number is a parse failure; otherwise the URL port or the
/// scheme default applies.
pub fn derive_target(scheme: &str, host: Option<&str>, url_port: Option<u16>) -> (r: Result<
    (String, u16),
    Error,
>)
    ensures
        match host {
            None => r matches Err(e) && e is BadRequest,
            Some(h) => match target_of(scheme@, h@, url_port) {
                Some(t) => r matches Ok(got) && got.0@ == t.0 && got.1 == t.1,
                None => r matches Err(e) && e is Parse,
            },
        },
{
    let h = match host {
        None => {
            return Err(Error::BadRequest(String::from_str("missing host in url")));
        },
        Some(h) => h,
    };
    let n = h.unicode_len();
    let mut colons: usize = 0;
    let mut found: bool = false;
    let mut fc: usize = 0;
    let mut i: usize = 0;
    while i < n
        invariant
            i <= n,
            n == h@.len(),
            colons <= i,
            colons as nat == count_char(h@.take(i as int), ':'),
            found <==> colons > 0,
            !found ==> forall|j: int| 0 <= j < i ==> h@[j] != ':',
            found ==> fc < i && h@[fc as int] == ':' && forall|j: int| 0 <= j < fc ==> h@[j]
                != ':',
        decreases n - i,
    {
        let c = h.get_char(i);
        proof {
            assert(h@.take(i + 1).drop_last() =~= h@.take(i as int));
            assert(h@.take(i + 1).last() == h@[i as int]);
        }
        if c == ':' {
            if !found {
                found = true;
                fc = i;
            }
            colons += 1;
        }
        i += 1;
    }
    proof {
        assert(h@.take(n as int) =~= h@);
        if found {
            lemma_first_colon_at(h@, fc as int);
        } else {
            lemma_first_colon_at(h@, n as int);
        }
    }
    if colons == 1 {
        let host_part = h.substring_char(0, fc);
        let port_part = h.substring_char(fc + 1, n);
        proof {
            assert(host_part@ =~= split_host(h@));
            assert(port_part@ =~= port_str(h@));
        }
        match parse_u16(port_part) {
            Some(p) => Ok((String::from_str(host_part), p)),
            None => Err(Error::Parse(String::from_str("invalid port number"))),
        }
    } else {
        let end = if found {
            fc
        } else {
            n
        };
        let host_part = h.substring_char(0, end);
        proof {
            assert(host_part@ =~= split_host(h@));
        }
        let p = match url_port {
            Some(p) => p,
            None => {
                let sch = String::from_str(scheme);
                let https = String::from_str("https");
                if sch == https {
                    443
                } else {
                    80
                }
            },
        };
        Ok((String::from_str(host_part), p))
    }
}

} // verus!
