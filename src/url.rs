//! Reduction of a benchmark base URL to its host part.

use vstd::prelude::*;

use vstd::string::StringSliceAdditionalSpecFns;
use vstd::utf8::{is_char_boundary, valid_utf8};

verus! {

/// The bytes of `https://`.
pub open spec fn https_scheme() -> Seq<u8> {
    seq![104u8, 116u8, 116u8, 112u8, 115u8, 58u8, 47u8, 47u8]
}

/// The bytes of `http://`.
pub open spec fn http_scheme() -> Seq<u8> {
    seq![104u8, 116u8, 116u8, 112u8, 58u8, 47u8, 47u8]
}

/// The byte of `/`.
pub const SLASH: u8 = 47;

/// `b` with every leading repetition of `p` removed.
pub open spec fn strip_all(b: Seq<u8>, p: Seq<u8>) -> Seq<u8>
    decreases b.len(),
{
    if 0 < p.len() <= b.len() && b.subrange(0, p.len() as int) == p {
        strip_all(b.subrange(p.len() as int, b.len() as int), p)
    } else {
        b
    }
}

/// `b` with every trailing `c` removed.
pub open spec fn trim_trailing(b: Seq<u8>, c: u8) -> Seq<u8>
    decreases b.len(),
{
    if b.len() > 0 && b.last() == c {
        trim_trailing(b.drop_last(), c)
    } else {
        b
    }
}

/// The host part of a base URL: leading `https://`, then leading `http://`,
/// and trailing slashes removed.
pub open spec fn url_host(b: Seq<u8>) -> Seq<u8> {
    trim_trailing(strip_all(strip_all(b, https_scheme()), http_scheme()), SLASH)
}

proof fn lemma_boundary_after_ascii(b: Seq<u8>)
    requires
        valid_utf8(b),
        b.len() > 0,
        b[0] < 0x80,
    ensures
        is_char_boundary(b, 1),
{
    reveal_with_fuel(is_char_boundary, 2);
}

fn drop_first_ascii<'a>(s: &'a str) -> (r: &'a str)
    requires
        s.spec_bytes().len() > 0,
        s.spec_bytes()[0] < 0x80,
    ensures
        r.spec_bytes() == s.spec_bytes().subrange(1, s.spec_bytes().len() as int),
{
    proof {
        vstd::utf8::encode_utf8_valid_utf8(s@);
        lemma_boundary_after_ascii(s.spec_bytes());
    }
    let (_, rest) = s.split_at(1);
    rest
}

fn starts_with(b: &[u8], p: &Vec<u8>) -> (r: bool)
    ensures
        r == (p@.len() <= b@.len() && b@.subrange(0, p@.len() as int) == p@),
{
    if p.len() > b.len() {
        return false;
    }
    let mut i: usize = 0;
    while i < p.len()
        invariant
            i <= p@.len() <= b@.len(),
            b@.subrange(0, i as int) == p@.subrange(0, i as int),
        decreases p@.len() - i,
    {
        if b[i] != p[i] {
            assert(b@.subrange(0, p@.len() as int)[i as int] != p@[i as int]);
            return false;
        }
        assert(b@.subrange(0, i + 1) == b@.subrange(0, i as int).push(b@[i as int]));
        assert(p@.subrange(0, i + 1) == p@.subrange(0, i as int).push(p@[i as int]));
        i = i + 1;
    }
    assert(p@.subrange(0, p@.len() as int) == p@);
    true
}

fn strip_prefix_all<'a>(s: &'a str, p: &Vec<u8>) -> (r: &'a str)
    requires
        p@.len() > 0,
        forall|i: int| 0 <= i < p@.len() ==> p@[i] < 0x80,
    ensures
        r.spec_bytes() == strip_all(s.spec_bytes(), p@),
{
    let mut cur = s;
    loop
        invariant
            p@.len() > 0,
            forall|i: int| 0 <= i < p@.len() ==> p@[i] < 0x80,
            strip_all(cur.spec_bytes(), p@) == strip_all(s.spec_bytes(), p@),
        decreases cur.spec_bytes().len(),
    {
        if !starts_with(cur.as_bytes(), p) {
            return cur;
        }
        let ghost start = cur.spec_bytes();
        let mut k: usize = 0;
        while k < p.len()
            invariant
                k <= p@.len() <= start.len(),
                start.subrange(0, p@.len() as int) == p@,
                forall|i: int| 0 <= i < p@.len() ==> p@[i] < 0x80,
                cur.spec_bytes() == start.subrange(k as int, start.len() as int),
            decreases p@.len() - k,
        {
            assert(cur.spec_bytes()[0] == start.subrange(0, p@.len() as int)[k as int]);
            cur = drop_first_ascii(cur);
            assert(cur.spec_bytes() == start.subrange(k + 1, start.len() as int));
            k = k + 1;
        }
    }
}

fn trim_trailing_slashes<'a>(s: &'a str) -> (r: &'a str)
    ensures
        r.spec_bytes() == trim_trailing(s.spec_bytes(), SLASH),
{
    let mut cur = s;
    loop
        invariant
            trim_trailing(cur.spec_bytes(), SLASH) == trim_trailing(s.spec_bytes(), SLASH),
        decreases cur.spec_bytes().len(),
    {
        let b = cur.as_bytes();
        let n = b.len();
        if n == 0 || b[n - 1] != SLASH {
            return cur;
        }
        proof {
            vstd::utf8::encode_utf8_valid_utf8(cur@);
            vstd::utf8::is_char_boundary_iff_not_is_continuation_byte(cur.spec_bytes(), n - 1);
        }
        let (head, _) = cur.split_at(n - 1);
        assert(head.spec_bytes() == cur.spec_bytes().drop_last());
        cur = head;
    }
}

/// The host part of a base URL, as the benchmark client addresses it.
pub fn url_host_of<'a>(base_url: &'a str) -> (r: &'a str)
    ensures
        r.spec_bytes() == url_host(base_url.spec_bytes()),
{
    let https: Vec<u8> = vec![104u8, 116u8, 116u8, 112u8, 115u8, 58u8, 47u8, 47u8];
    let http: Vec<u8> = vec![104u8, 116u8, 116u8, 112u8, 58u8, 47u8, 47u8];
    assert(https@ == https_scheme());
    assert(http@ == http_scheme());
    let without_https = strip_prefix_all(base_url, &https);
    let without_scheme = strip_prefix_all(without_https, &http);
    trim_trailing_slashes(without_scheme)
}

} // verus!
