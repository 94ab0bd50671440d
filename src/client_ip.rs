//! The address of the visitor behind a request, from proxy headers where they are trusted.
use crate::text::{chars_of, string_of, trim, trim_slice};
use vstd::prelude::*;
use vstd::slice::slice_subrange;

verus! {

/// The number of characters of `s` before its first comma.
pub open spec fn comma_index(s: Seq<char>) -> nat
    decreases s.len(),
{
    if s.len() == 0 || s[0] == ',' {
        0
    } else {
        1 + comma_index(s.drop_first())
    }
}

/// The first entry of a comma-separated list, as `split(',').next()` gives it.
pub open spec fn first_entry(s: Seq<char>) -> Seq<char> {
    s.take(comma_index(s) as int)
}

pub open spec fn opt_view(o: Option<&str>) -> Option<Seq<char>> {
    match o {
        Some(s) => Some(s@),
        None => None,
    }
}

/// The visitor's address. Where proxy headers are trusted: `CF-Connecting-IP`, trimmed; else
/// the first entry of `X-Forwarded-For`, trimmed, unless it is empty; else `X-Real-IP`,
/// trimmed. Otherwise, and where none of them is present, the peer's address.
pub open spec fn real_ip(
    cf_connecting_ip: Option<Seq<char>>,
    forwarded_for: Option<Seq<char>>,
    x_real_ip: Option<Seq<char>>,
    peer_ip: Seq<char>,
    trust_proxy_headers: bool,
) -> Seq<char> {
    if !trust_proxy_headers {
        peer_ip
    } else if cf_connecting_ip is Some {
        trim(cf_connecting_ip->0)
    } else if forwarded_for is Some && trim(first_entry(forwarded_for->0)).len() > 0 {
        trim(first_entry(forwarded_for->0))
    } else if x_real_ip is Some {
        trim(x_real_ip->0)
    } else {
        peer_ip
    }
}

fn first_entry_of(s: &[char]) -> (r: &[char])
    ensures
        r@ == first_entry(s@),
{
    let mut i: usize = 0;
    assert(s@.skip(0) =~= s@);
    while i < s.len() && s[i] != ','
        invariant
            i <= s.len(),
            comma_index(s@) == i + comma_index(s@.skip(i as int)),
        decreases s.len() - i,
    {
        assert(s@.skip(i as int)[0] == s@[i as int]);
        assert(s@.skip(i as int).drop_first() =~= s@.skip(i + 1));
        i = i + 1;
    }
    proof {
        if i < s.len() {
            assert(s@.skip(i as int)[0] == s@[i as int]);
        }
        assert(comma_index(s@.skip(i as int)) == 0);
        assert(s@.take(i as int) =~= s@.subrange(0, i as int));
    }
    slice_subrange(s, 0, i)
}

fn trimmed(s: &str) -> (r: String)
    ensures
        r@ == trim(s@),
{
    let c = chars_of(s);
    string_of(trim_slice(&c))
}

/// The visitor's address, from the values of the proxy headers that came with the request
/// and the address of the peer that sent it.
pub fn extract_real_ip(
    cf_connecting_ip: Option<&str>,
    forwarded_for: Option<&str>,
    x_real_ip: Option<&str>,
    peer_ip: &str,
    trust_proxy_headers: bool,
) -> (r: String)
    ensures
        r@ == real_ip(
            opt_view(cf_connecting_ip),
            opt_view(forwarded_for),
            opt_view(x_real_ip),
            peer_ip@,
            trust_proxy_headers,
        ),
{
    if trust_proxy_headers {
        if let Some(cf) = cf_connecting_ip {
            return trimmed(cf);
        }
        if let Some(xff) = forwarded_for {
            let c = chars_of(xff);
            let first = first_entry_of(&c);
            let ip = trim_slice(first);
            if ip.len() > 0 {
                return string_of(ip);
            }
        }
        if let Some(value) = x_real_ip {
            return trimmed(value);
        }
    }
    peer_ip.to_owned()
}

} // verus!
