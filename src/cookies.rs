//! Rewriting the cookies that the upstream API sets, so that a browser keeps them for the
//! instance's own host over plain HTTP.
use crate::text::{
    chars_of, joined, push_all, split_on, starts_with, starts_with_exec, string_of, trim, trim_slice,
};
use vstd::prelude::*;
use vstd::slice::slice_subrange;

verus! {

/// The text that `str::to_lowercase` makes of `s`.
pub uninterp spec fn lower_of(s: Seq<char>) -> Seq<char>;

/// Relies on `str::to_lowercase`: the result depends on the characters alone.
#[verifier::external_body]
fn lowercase(s: &str) -> (r: String)
    ensures
        r@ == lower_of(s@),
{
    s.to_lowercase()
}

/// An attribute that ties the cookie to the upstream host or to HTTPS, and is dropped.
pub open spec fn dropped_attribute(part: Seq<char>) -> bool {
    starts_with(lower_of(part), "domain="@) || lower_of(part) == "secure"@
}

/// A kept attribute: `SameSite=None`, which browsers honour only with `Secure`, becomes
/// `SameSite=Lax`; any other stays as it is.
pub open spec fn kept_attribute(part: Seq<char>) -> Seq<char> {
    if starts_with(lower_of(part), "samesite=none"@) {
        "SameSite=Lax"@
    } else {
        part
    }
}

/// `parts` followed by what becomes of the attribute `piece`, trimmed.
pub open spec fn next_parts(parts: Seq<Seq<char>>, piece: Seq<char>) -> Seq<Seq<char>> {
    let p = trim(piece);
    if dropped_attribute(p) {
        parts
    } else {
        parts.push(kept_attribute(p))
    }
}

pub open spec fn cookie_parts(pieces: Seq<Seq<char>>) -> Seq<Seq<char>>
    decreases pieces.len(),
{
    if pieces.len() == 0 {
        Seq::empty()
    } else {
        next_parts(cookie_parts(pieces.drop_last()), pieces.last())
    }
}

/// The cookie's `;`-separated attributes, trimmed, without `Domain=` and `Secure`, with
/// `SameSite=None` made `SameSite=Lax`, joined with `; `.
pub open spec fn rewritten_cookie(cookie: Seq<char>) -> Seq<char> {
    joined(cookie_parts(split_on(cookie, ';')), "; "@)
}

fn add_part(out: &mut Vec<char>, any: bool, piece: &[char], Ghost(parts): Ghost<Seq<Seq<char>>>) -> (r: bool)
    requires
        old(out)@ == joined(parts, "; "@),
        any == (parts.len() > 0),
    ensures
        final(out)@ == joined(next_parts(parts, piece@), "; "@),
        r == (next_parts(parts, piece@).len() > 0),
{
    let part = trim_slice(piece);
    let text = string_of(part);
    let lower = chars_of(lowercase(text.as_str()).as_str());
    let domain = chars_of("domain=");
    let secure = chars_of("secure");
    let same_site_none = chars_of("samesite=none");
    let is_secure = lower.len() == secure.len() && starts_with_exec(&lower, &secure);
    assert(is_secure == (lower@ == "secure"@)) by {
        assert(secure@ == "secure"@);
        if lower@.len() == secure@.len() {
            assert(lower@ =~= lower@.subrange(0, secure@.len() as int));
        }
    }
    if starts_with_exec(&lower, &domain) || is_secure {
        return any;
    }
    let kept = if starts_with_exec(&lower, &same_site_none) {
        chars_of("SameSite=Lax")
    } else {
        let mut k: Vec<char> = Vec::new();
        push_all(&mut k, part);
        k
    };
    let ghost next = parts.push(kept@);
    assert(next.drop_last() =~= parts);
    if any {
        let mut sep = chars_of("; ");
        out.append(&mut sep);
    }
    let mut k = kept;
    out.append(&mut k);
    if !any {
        assert(out@ =~= next[0]);
    }
    true
}

/// The `Set-Cookie` value `cookie`, rewritten for the instance's host.
pub fn rewrite_set_cookie(cookie: &str) -> (r: String)
    ensures
        r@ == rewritten_cookie(cookie@),
{
    let s = chars_of(cookie);
    let mut out: Vec<char> = Vec::new();
    let mut any = false;
    let mut start: usize = 0;
    let mut i: usize = 0;
    let ghost mut done: Seq<Seq<char>> = Seq::empty();
    assert(s@.take(0) =~= Seq::<char>::empty());
    assert(s@.subrange(0, 0) =~= Seq::<char>::empty());
    assert(split_on(Seq::<char>::empty(), ';') == done.push(Seq::<char>::empty()));
    assert(out@ =~= joined(cookie_parts(done), "; "@));
    while i < s.len()
        invariant
            s@ == cookie@,
            start <= i <= s.len(),
            split_on(s@.take(i as int), ';') == done.push(s@.subrange(start as int, i as int)),
            out@ == joined(cookie_parts(done), "; "@),
            any == (cookie_parts(done).len() > 0),
        decreases s.len() - i,
    {
        assert(s@.take(i + 1).drop_last() =~= s@.take(i as int));
        assert(s@.take(i + 1).last() == s@[i as int]);
        if s[i] == ';' {
            let piece = slice_subrange(&s, start, i);
            any = add_part(&mut out, any, piece, Ghost(cookie_parts(done)));
            proof {
                assert(done.push(piece@).drop_last() =~= done);
                done = done.push(piece@);
                assert(s@.subrange(i + 1, i + 1) =~= Seq::<char>::empty());
            }
            start = i + 1;
        } else {
            proof {
                let p = done.push(s@.subrange(start as int, i as int));
                assert(s@.subrange(start as int, i as int).push(s@[i as int]) =~= s@.subrange(
                    start as int,
                    i + 1,
                ));
                assert(p.update(p.len() - 1, p.last().push(s@[i as int])) =~= done.push(
                    s@.subrange(start as int, i + 1),
                ));
            }
        }
        i = i + 1;
    }
    let piece = slice_subrange(&s, start, s.len());
    add_part(&mut out, any, piece, Ghost(cookie_parts(done)));
    assert(s@.take(s.len() as int) =~= s@);
    assert(done.push(piece@).drop_last() =~= done);
    string_of(&out)
}

} // verus!
