//! Reading an IPv4 address out of text, as the join form and the public-IP
//! lookup must: four decimal octets joined by dots, no leading zeros, each at
//! most 255. Anything else is rejected.

use vstd::prelude::*;
use crate::net::IpV4;

verus! {

/// The field separator.
pub const DOT: u8 = 46;

/// ASCII decimal digit.
pub open spec fn spec_is_digit(b: u8) -> bool {
    48 <= b <= 57
}

/// The number a run of digits denotes.
pub open spec fn spec_octet_val(s: Seq<u8>) -> int
    decreases s.len(),
{
    if s.len() == 0 {
        0
    } else {
        spec_octet_val(s.drop_last()) * 10 + (s.last() - 48)
    }
}

/// A well-formed octet: one to three digits, no leading zero (except "0"
/// itself), denoting at most 255.
pub open spec fn spec_is_octet_text(s: Seq<u8>) -> bool {
    &&& 1 <= s.len() <= 3
    &&& forall|i: int| 0 <= i < s.len() ==> spec_is_digit(#[trigger] s[i])
    &&& s.len() > 1 ==> s[0] != 48
    &&& spec_octet_val(s) <= 255
}

/// How many dots the text holds.
pub open spec fn spec_dot_count(s: Seq<u8>) -> int
    decreases s.len(),
{
    if s.len() == 0 {
        0
    } else {
        (if s[0] == DOT {
            1int
        } else {
            0int
        }) + spec_dot_count(s.drop_first())
    }
}

/// The fields between the dots, in order; text without dots is one field.
pub open spec fn spec_split_dots(s: Seq<u8>) -> Seq<Seq<u8>>
    decreases s.len(),
{
    if s.len() == 0 {
        seq![Seq::<u8>::empty()]
    } else if s[0] == DOT {
        seq![Seq::<u8>::empty()] + spec_split_dots(s.drop_first())
    } else {
        let rest = spec_split_dots(s.drop_first());
        rest.update(0, seq![s[0]] + rest[0])
    }
}

/// What the text denotes: an address exactly when it splits on dots into
/// four well-formed octets.
pub open spec fn spec_parse_ipv4(s: Seq<u8>) -> Option<IpV4> {
    let fields = spec_split_dots(s);
    if fields.len() == 4 && spec_is_octet_text(fields[0]) && spec_is_octet_text(fields[1])
        && spec_is_octet_text(fields[2]) && spec_is_octet_text(fields[3]) {
        Some(
            IpV4 {
                a: spec_octet_val(fields[0]) as u8,
                b: spec_octet_val(fields[1]) as u8,
                c: spec_octet_val(fields[2]) as u8,
                d: spec_octet_val(fields[3]) as u8,
            },
        )
    } else {
        None
    }
}

proof fn lemma_split_nonempty(s: Seq<u8>)
    ensures
        spec_split_dots(s).len() >= 1,
    decreases s.len(),
{
    if s.len() > 0 {
        lemma_split_nonempty(s.drop_first());
    }
}

proof fn lemma_split_len(s: Seq<u8>)
    ensures
        spec_split_dots(s).len() == spec_dot_count(s) + 1,
    decreases s.len(),
{
    if s.len() > 0 {
        lemma_split_len(s.drop_first());
        lemma_split_nonempty(s.drop_first());
    }
}

proof fn lemma_dot_count_push(s: Seq<u8>, x: u8)
    ensures
        spec_dot_count(s.push(x)) == spec_dot_count(s) + (if x == DOT {
            1int
        } else {
            0int
        }),
    decreases s.len(),
{
    if s.len() == 0 {
        assert(s.push(x).drop_first() =~= s);
    } else {
        assert(s.push(x).first() == s.first());
        assert(s.push(x).drop_first() =~= s.drop_first().push(x));
        lemma_dot_count_push(s.drop_first(), x);
    }
}

proof fn lemma_split_no_dot(s: Seq<u8>)
    requires
        forall|j: int| 0 <= j < s.len() ==> #[trigger] s[j] != DOT,
    ensures
        spec_split_dots(s) =~= seq![s],
    decreases s.len(),
{
    if s.len() == 0 {
        assert(s =~= Seq::<u8>::empty());
    } else {
        lemma_split_no_dot(s.drop_first());
        lemma_split_nonempty(s.drop_first());
        let rest = spec_split_dots(s.drop_first());
        assert(rest[0] == s.drop_first());
        assert(seq![s[0]] + s.drop_first() =~= s);
        assert(rest.update(0, seq![s[0]] + rest[0]) =~= seq![s]);
    }
}

proof fn lemma_split_first_dot(s: Seq<u8>, d: int)
    requires
        0 <= d < s.len(),
        s[d] == DOT,
        forall|j: int| 0 <= j < d ==> #[trigger] s[j] != DOT,
    ensures
        spec_split_dots(s) =~= seq![s.take(d)] + spec_split_dots(s.skip(d + 1)),
    decreases d,
{
    if d == 0 {
        assert(s.take(0) =~= Seq::<u8>::empty());
        assert(s.skip(1) =~= s.drop_first());
    } else {
        let tail = s.drop_first();
        assert(tail[d - 1] == DOT);
        assert(forall|j: int| 0 <= j < d - 1 ==> #[trigger] tail[j] != DOT);
        lemma_split_first_dot(tail, d - 1);
        lemma_split_nonempty(tail.skip(d));
        let rest = spec_split_dots(tail);
        assert(rest =~= seq![tail.take(d - 1)] + spec_split_dots(tail.skip(d)));
        assert(rest[0] == tail.take(d - 1));
        assert(seq![s[0]] + tail.take(d - 1) =~= s.take(d));
        assert(tail.skip(d) =~= s.skip(d + 1));
        assert(rest.update(0, seq![s[0]] + rest[0]) =~= seq![s.take(d)] + spec_split_dots(
            s.skip(d + 1),
        ));
    }
}

/// With the dots sitting exactly at the three listed positions, the text
/// splits into the four ranges around them.
#[verifier::rlimit(60)]
proof fn lemma_three_dots_split(s: Seq<u8>, dots: Seq<usize>)
    requires
        dots.len() == 3,
        forall|k: int| 0 <= k < 3 ==> #[trigger] dots[k] < s.len() && s[dots[k] as int] == DOT,
        dots[0] < dots[1] < dots[2],
        forall|j: int|
            0 <= j < s.len() && #[trigger] s[j] == DOT ==> exists|k: int|
                0 <= k < 3 && dots[k] == j,
    ensures
        spec_split_dots(s) =~= seq![
            s.subrange(0, dots[0] as int),
            s.subrange(dots[0] + 1, dots[1] as int),
            s.subrange(dots[1] + 1, dots[2] as int),
            s.subrange(dots[2] + 1, s.len() as int),
        ],
{
    let d1 = dots[0] as int;
    let d2 = dots[1] as int;
    let d3 = dots[2] as int;
    assert forall|j: int| 0 <= j < d1 implies #[trigger] s[j] != DOT by {
        if s[j] == DOT {
            let k = choose|k: int| 0 <= k < 3 && dots[k] == j;
            assert(dots[0] <= dots[k]);
        }
    }
    lemma_split_first_dot(s, d1);
    let rest1 = s.skip(d1 + 1);
    assert forall|j: int| 0 <= j < d2 - d1 - 1 implies #[trigger] rest1[j] != DOT by {
        if rest1[j] == DOT {
            assert(s[d1 + 1 + j] == DOT);
            let k = choose|k: int| 0 <= k < 3 && dots[k] == d1 + 1 + j;
            if k == 0 {
                assert(dots[0] == d1);
            } else {
                assert(dots[1] <= dots[k]);
            }
        }
    }
    assert(rest1[d2 - d1 - 1] == DOT);
    lemma_split_first_dot(rest1, d2 - d1 - 1);
    let rest2 = rest1.skip(d2 - d1);
    assert(rest2 =~= s.skip(d2 + 1));
    assert forall|j: int| 0 <= j < d3 - d2 - 1 implies #[trigger] rest2[j] != DOT by {
        if rest2[j] == DOT {
            assert(s[d2 + 1 + j] == DOT);
            let k = choose|k: int| 0 <= k < 3 && dots[k] == d2 + 1 + j;
            if k <= 1 {
                assert(dots[k] <= dots[1]);
            } else {
                assert(dots[2] == dots[k]);
            }
        }
    }
    assert(rest2[d3 - d2 - 1] == DOT);
    lemma_split_first_dot(rest2, d3 - d2 - 1);
    let rest3 = rest2.skip(d3 - d2);
    assert(rest3 =~= s.skip(d3 + 1));
    assert forall|j: int| 0 <= j < rest3.len() implies #[trigger] rest3[j] != DOT by {
        if rest3[j] == DOT {
            assert(s[d3 + 1 + j] == DOT);
            let k = choose|k: int| 0 <= k < 3 && dots[k] == d3 + 1 + j;
            assert(dots[k] <= dots[2]);
        }
    }
    lemma_split_no_dot(rest3);
    assert(rest1.take(d2 - d1 - 1) =~= s.subrange(d1 + 1, d2));
    assert(rest2.take(d3 - d2 - 1) =~= s.subrange(d2 + 1, d3));
    assert(rest3 =~= s.subrange(d3 + 1, s.len() as int));
    assert(s.take(d1) =~= s.subrange(0, d1));
}

/// Reads one octet out of `s[lo..hi]`: its value if that range is a
/// well-formed octet, nothing otherwise.
fn parse_octet(s: &[u8], lo: usize, hi: usize) -> (r: Option<u8>)
    requires
        lo <= hi <= s@.len(),
    ensures
        match r {
            Some(v) => spec_is_octet_text(s@.subrange(lo as int, hi as int)) && v
                == spec_octet_val(s@.subrange(lo as int, hi as int)),
            None => !spec_is_octet_text(s@.subrange(lo as int, hi as int)),
        },
{
    let ghost sub = s@.subrange(lo as int, hi as int);
    let len = hi - lo;
    if len == 0 || len > 3 {
        return None;
    }
    if len > 1 && s[lo] == 48 {
        return None;
    }
    let mut v: u32 = 0;
    let mut k: usize = 0;
    while k < len
        invariant
            k <= len,
            1 <= len <= 3,
            len == hi - lo,
            lo <= hi <= s@.len(),
            sub == s@.subrange(lo as int, hi as int),
            sub.len() == len,
            v == spec_octet_val(sub.take(k as int)),
            v <= (if k == 0 {
                0u32
            } else if k == 1 {
                9u32
            } else if k == 2 {
                99u32
            } else {
                999u32
            }),
            forall|i: int| 0 <= i < k ==> spec_is_digit(#[trigger] sub[i]),
        decreases len - k,
    {
        let b = s[lo + k];
        proof {
            assert(sub[k as int] == s@[lo + k]);
        }
        if b < 48 || b > 57 {
            proof {
                assert(!spec_is_digit(sub[k as int]));
            }
            return None;
        }
        proof {
            assert(sub.take(k + 1).drop_last() =~= sub.take(k as int));
            assert(sub.take(k + 1).last() == sub[k as int]);
            assert((b - 48) as u32 <= 9);
            if k == 0 {
                assert(v == 0);
            } else if k == 1 {
                assert(v <= 9);
                assert(v * 10 + ((b - 48) as u32) <= 99);
            } else {
                assert(k == 2);
                assert(v <= 99);
                assert(v * 10 + ((b - 48) as u32) <= 999);
            }
        }
        v = v * 10 + ((b - 48) as u32);
        k = k + 1;
    }
    proof {
        assert(sub.take(len as int) =~= sub);
    }
    if v > 255 {
        return None;
    }
    Some(v as u8)
}

/// Reads an IPv4 address out of a text's bytes: four decimal octets joined
/// by dots, nothing more and nothing less.
#[verifier::rlimit(60)]
pub fn parse_ipv4(s: &[u8]) -> (r: Option<IpV4>)
    ensures
        r == spec_parse_ipv4(s@),
{
    let n = s.len();
    let mut dots: Vec<usize> = Vec::new();
    let mut i: usize = 0;
    while i < n
        invariant
            i <= n,
            n == s@.len(),
            dots@.len() == spec_dot_count(s@.take(i as int)),
            forall|k: int|
                0 <= k < dots@.len() ==> #[trigger] dots@[k] < i && s@[dots@[k] as int] == DOT,
            forall|k1: int, k2: int|
                0 <= k1 < k2 < dots@.len() ==> #[trigger] dots@[k1] < #[trigger] dots@[k2],
            forall|j: int|
                0 <= j < i && #[trigger] s@[j] == DOT ==> exists|k: int|
                    0 <= k < dots@.len() && dots@[k] == j,
        decreases n - i,
    {
        proof {
            assert(s@.take(i + 1) =~= s@.take(i as int).push(s@[i as int]));
            lemma_dot_count_push(s@.take(i as int), s@[i as int]);
        }
        let ghost pre = dots@;
        if s[i] == DOT {
            dots.push(i);
        }
        proof {
            assert forall|j: int| 0 <= j < i + 1 && #[trigger] s@[j] == DOT implies exists|k: int|
                0 <= k < dots@.len() && dots@[k] == j by {
                if j < i {
                    let k = choose|k: int| 0 <= k < pre.len() && pre[k] == j;
                    assert(dots@[k] == j);
                } else {
                    assert(dots@[dots@.len() - 1] == j);
                }
            }
        }
        i = i + 1;
    }
    proof {
        assert(s@.take(n as int) =~= s@);
        lemma_split_len(s@);
    }
    if dots.len() != 3 {
        return None;
    }
    let d1 = dots[0];
    let d2 = dots[1];
    let d3 = dots[2];
    proof {
        lemma_three_dots_split(s@, dots@);
    }
    let a = match parse_octet(s, 0, d1) {
        Some(v) => v,
        None => {
            return None;
        },
    };
    let b = match parse_octet(s, d1 + 1, d2) {
        Some(v) => v,
        None => {
            return None;
        },
    };
    let c = match parse_octet(s, d2 + 1, d3) {
        Some(v) => v,
        None => {
            return None;
        },
    };
    let d = match parse_octet(s, d3 + 1, n) {
        Some(v) => v,
        None => {
            return None;
        },
    };
    Some(IpV4 { a, b, c, d })
}

} // verus!
