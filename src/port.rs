use vstd::prelude::*;

use crate::text::{after, before, chars_of, find_char, lemma_first_index_bounds};

verus! {

/// The endpoint that a `PORT` command names for the data channel.
#[derive(Clone, Copy, Debug, PartialEq, Eq, Structural)]
pub struct DataAddress {
    pub h1: u8,
    pub h2: u8,
    pub h3: u8,
    pub h4: u8,
    pub port: u16,
}

/// What follows the `k`-th comma of `s` (all of `s` for `k == 0`), if `s` holds that many.
pub open spec fn rest_after(s: Seq<char>, k: nat) -> Option<Seq<char>>
    decreases k,
{
    if k == 0 {
        Some(s)
    } else {
        match rest_after(s, (k - 1) as nat) {
            Some(r) => after(r, ','),
            None => None,
        }
    }
}

/// The `k`-th comma-separated field of `s`, counting from zero.
pub open spec fn field(s: Seq<char>, k: nat) -> Seq<char> {
    before(rest_after(s, k)->0, ',')
}

/// Whether `s` splits on commas into exactly six fields.
pub open spec fn has_six_fields(s: Seq<char>) -> bool {
    rest_after(s, 5) is Some && after(rest_after(s, 5)->0, ',') is None
}

pub open spec fn is_digit(c: char) -> bool {
    '0' <= c && c <= '9'
}

/// The number that a run of decimal digits writes.
pub open spec fn decimal(s: Seq<char>) -> int
    decreases s.len(),
{
    if s.len() == 0 {
        0
    } else {
        decimal(s.drop_last()) * 10 + (s.last() as int - '0' as int)
    }
}

/// Whether `s` is a decimal number from 0 to 255 (leading zeros allowed).
pub open spec fn is_octet(s: Seq<char>) -> bool {
    s.len() > 0 && (forall|i: int| 0 <= i < s.len() ==> is_digit(#[trigger] s[i])) && decimal(s)
        <= 255
}

/// The endpoint named by the argument of `PORT`, `h1,h2,h3,h4,p1,p2`: six decimal numbers
/// from 0 to 255, the address `h1.h2.h3.h4` and the port `p1 * 256 + p2`.
pub open spec fn port_address(s: Seq<char>) -> Option<DataAddress> {
    if has_six_fields(s) && forall|k: nat| k < 6 ==> is_octet(#[trigger] field(s, k)) {
        Some(
            DataAddress {
                h1: decimal(field(s, 0)) as u8,
                h2: decimal(field(s, 1)) as u8,
                h3: decimal(field(s, 2)) as u8,
                h4: decimal(field(s, 3)) as u8,
                port: (decimal(field(s, 4)) * 256 + decimal(field(s, 5))) as u16,
            },
        )
    } else {
        None
    }
}

/// The value of the digits `v[from..to]`, if they are a decimal number from 0 to 255.
fn parse_octet(v: &Vec<char>, from: usize, to: usize) -> (r: Option<u8>)
    requires
        from <= to <= v.len(),
    ensures
        match r {
            Some(n) => is_octet(v@.subrange(from as int, to as int)) && n == decimal(
                v@.subrange(from as int, to as int),
            ),
            None => !is_octet(v@.subrange(from as int, to as int)),
        },
{
    let ghost s = v@.subrange(from as int, to as int);
    if from == to {
        return None;
    }
    let mut value: u32 = 0;
    let mut i: usize = from;
    while i < to
        invariant
            from <= i <= to <= v.len(),
            s == v@.subrange(from as int, to as int),
            forall|j: int| from <= j < i ==> is_digit(#[trigger] v@[j]),
            value == if decimal(s.take(i - from)) < 256 {
                decimal(s.take(i - from))
            } else {
                256
            },
            decimal(s.take(i - from)) >= 0,
        decreases to - i,
    {
        let c = v[i];
        if !('0' <= c && c <= '9') {
            assert(!is_digit(s[i - from]));
            return None;
        }
        let d = (c as u32) - ('0' as u32);
        assert(s.take(i - from + 1).drop_last() =~= s.take(i - from));
        assert(s.take(i - from + 1).last() == c);
        if value < 256 {
            value = value * 10 + d;
            if value > 256 {
                value = 256;
            }
        }
        i = i + 1;
    }
    assert(s.take(to - from) =~= s);
    if value > 255 {
        None
    } else {
        Some(value as u8)
    }
}

/// Reads the argument of `PORT`.
pub fn parse_port_argument(arg: &str) -> (r: Option<DataAddress>)
    ensures
        r == port_address(arg@),
{
    let v = chars_of(arg);
    let n = v.len();
    let mut values: Vec<u8> = Vec::new();
    let mut pos: usize = 0;
    let mut k: usize = 0;
    while k < 6
        invariant
            v@ == arg@,
            n == v.len(),
            k <= 6,
            pos <= n,
            values.len() == k,
            k < 6 ==> rest_after(arg@, k as nat) == Some(v@.skip(pos as int)),
            k == 6 ==> has_six_fields(arg@),
            forall|j: nat| j < k ==> is_octet(#[trigger] field(arg@, j)),
            forall|j: int| 0 <= j < k ==> #[trigger] values@[j] == decimal(field(arg@, j as nat)),
        decreases 6 - k,
    {
        let q = find_char(&v, ',', pos, n);
        let ghost rest = v@.skip(pos as int);
        proof {
            assert(v@.subrange(pos as int, n as int) =~= rest);
            lemma_first_index_bounds(rest, ',');
            assert(field(arg@, k as nat) =~= v@.subrange(pos as int, q as int));
        }
        match parse_octet(&v, pos, q) {
            Some(x) => values.push(x),
            None => {
                return None;
            },
        }
        if k < 5 {
            if q == n {
                proof {
                    assert(after(rest, ',') is None);
                    assert(rest_after(arg@, (k + 1) as nat) == after(rest, ','));
                    assert(!has_six_fields(arg@)) by {
                        lemma_rest_after_none(arg@, (k + 1) as nat, 5);
                    }
                }
                return None;
            }
            proof {
                assert(rest_after(arg@, (k + 1) as nat) == after(rest, ','));
                assert(rest.skip(q - pos + 1) =~= v@.skip(q + 1));
            }
            pos = q + 1;
        } else {
            if q < n {
                proof {
                    assert(after(rest, ',') is Some);
                }
                return None;
            }
        }
        k = k + 1;
    }
    assert(values@[4] as int * 256 + values@[5] as int <= 65535) by (nonlinear_arith)
        requires
            values@[4] <= 255,
            values@[5] <= 255,
    ;
    let port: u16 = (values[4] as u16) * 256 + (values[5] as u16);
    proof {
        assert(values@[0] == decimal(field(arg@, 0)));
        assert(values@[1] == decimal(field(arg@, 1)));
        assert(values@[2] == decimal(field(arg@, 2)));
        assert(values@[3] == decimal(field(arg@, 3)));
        assert(values@[4] == decimal(field(arg@, 4)));
        assert(values@[5] == decimal(field(arg@, 5)));
    }
    Some(DataAddress { h1: values[0], h2: values[1], h3: values[2], h4: values[3], port })
}

proof fn lemma_rest_after_none(s: Seq<char>, k: nat, m: nat)
    requires
        rest_after(s, k) is None,
        k <= m,
    ensures
        rest_after(s, m) is None,
    decreases m - k,
{
    if k < m {
        lemma_rest_after_none(s, k, (m - 1) as nat);
    }
}

} // verus!
