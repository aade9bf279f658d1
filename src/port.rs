//! The argument of `PORT`: where the client listens for an active-mode data connection.
use crate::text::{split, split_on};
use vstd::prelude::*;
use vstd::string::*;

verus! {

/// An IPv4 address and a port.
#[derive(Clone, Copy, Debug)]
pub struct DataEndpoint {
    pub host: (u8, u8, u8, u8),
    pub port: u16,
}

pub open spec fn is_digit_char(c: char) -> bool {
    '0' <= c <= '9'
}

pub open spec fn all_digits(s: Seq<char>) -> bool {
    forall|i: int| 0 <= i < s.len() ==> is_digit_char(#[trigger] s[i])
}

/// The number that a string of decimal digits spells.
pub open spec fn decimal(s: Seq<char>) -> int
    decreases s.len(),
{
    if s.len() == 0 {
        0
    } else {
        10 * decimal(s.drop_last()) + (s.last() as u32 - 48)
    }
}

/// An octet of an IPv4 address written in decimal: one to three digits, without a leading
/// zero, at most 255.
pub open spec fn host_octet(s: Seq<char>) -> bool {
    &&& 1 <= s.len() <= 3
    &&& all_digits(s)
    &&& s.len() > 1 ==> s[0] != '0'
    &&& decimal(s) <= 255
}

/// A byte of the port written in decimal: digits whose value is at most 255.
pub open spec fn port_octet(s: Seq<char>) -> bool {
    &&& s.len() >= 1
    &&& all_digits(s)
    &&& decimal(s) <= 255
}

/// The endpoint that a `PORT` argument `h1,h2,h3,h4,p1,p2` names: the host `h1.h2.h3.h4`
/// and the port `p1 * 256 + p2`. `None` when the argument does not have that form.
pub open spec fn port_argument(arg: Seq<char>) -> Option<DataEndpoint> {
    let f = split_on(arg, ',');
    if f.len() == 6 && host_octet(f[0]) && host_octet(f[1]) && host_octet(f[2]) && host_octet(f[3])
        && port_octet(f[4]) && port_octet(f[5]) {
        Some(
            DataEndpoint {
                host: (decimal(f[0]) as u8, decimal(f[1]) as u8, decimal(f[2]) as u8, decimal(f[3]) as u8),
                port: (256 * decimal(f[4]) + decimal(f[5])) as u16,
            },
        )
    } else {
        None
    }
}

proof fn lemma_decimal_grows(s: Seq<char>, i: int)
    requires
        all_digits(s),
        0 <= i <= s.len(),
    ensures
        0 <= decimal(s.subrange(0, i)) <= decimal(s),
    decreases s.len(),
{
    if s.len() > 0 {
        assert(all_digits(s.drop_last()));
        if i == s.len() {
            assert(s.subrange(0, i) =~= s);
            lemma_decimal_grows(s.drop_last(), i - 1);
        } else {
            assert(s.drop_last().subrange(0, i) =~= s.subrange(0, i));
            lemma_decimal_grows(s.drop_last(), i);
        }
        assert(is_digit_char(s[s.len() - 1]));
    }
}

/// The value of a field of the `PORT` argument: a host octet when `host`, else a byte of
/// the port.
fn octet(field: &str, host: bool) -> (r: Option<u8>)
    ensures
        r == (if (if host { host_octet(field@) } else { port_octet(field@) }) {
            Some(decimal(field@) as u8)
        } else {
            None
        }),
        r matches Some(v) ==> v == decimal(field@),
{
    let n = field.unicode_len();
    if n == 0 || (host && n > 3) {
        return None;
    }
    let mut value: u16 = 0;
    let mut i: usize = 0;
    while i < n
        invariant
            n == field@.len(),
            i <= n,
            all_digits(field@.subrange(0, i as int)),
            value == decimal(field@.subrange(0, i as int)),
            value <= 255,
        decreases n - i,
    {
        let c = field.get_char(i);
        proof {
            assert(field@.subrange(0, i + 1).drop_last() =~= field@.subrange(0, i as int));
        }
        if c < '0' || c > '9' {
            return None;
        }
        value = value * 10 + (c as u32 - 48) as u16;
        if value > 255 {
            proof {
                if all_digits(field@) {
                    lemma_decimal_grows(field@, i + 1);
                }
            }
            return None;
        }
        i = i + 1;
        assert(all_digits(field@.subrange(0, i as int)));
    }
    proof {
        assert(field@.subrange(0, n as int) =~= field@);
    }
    if host && n > 1 && field.get_char(0) == '0' {
        return None;
    }
    Some(value as u8)
}

/// Reads the argument of `PORT`.
pub fn parse_port(arg: &str) -> (r: Option<DataEndpoint>)
    ensures
        r == port_argument(arg@),
{
    let fields = split(arg, ',');
    let ghost f = split_on(arg@, ',');
    assert(fields@.map_values(|p: &str| p@) == f);
    if fields.len() != 6 {
        return None;
    }
    assert(forall|k: int| 0 <= k < 6 ==> #[trigger] fields@[k]@ == f[k]) by {
        assert forall|k: int| 0 <= k < 6 implies #[trigger] fields@[k]@ == f[k] by {
            assert(fields@.map_values(|p: &str| p@)[k] == fields@[k]@);
        }
    }
    let h1 = octet(fields[0], true);
    let h2 = octet(fields[1], true);
    let h3 = octet(fields[2], true);
    let h4 = octet(fields[3], true);
    let p1 = octet(fields[4], false);
    let p2 = octet(fields[5], false);
    match (h1, h2, h3, h4, p1, p2) {
        (Some(a), Some(b), Some(c), Some(d), Some(hi), Some(lo)) => {
            assert(fields@[4]@ == f[4] && fields@[5]@ == f[5]);
            assert(hi == decimal(f[4]) && lo == decimal(f[5]));
            let port = hi as u16 * 256 + lo as u16;
            assert(port == 256 * decimal(f[4]) + decimal(f[5]));
            Some(DataEndpoint { host: (a, b, c, d), port })
        },
        _ => None,
    }
}

} // verus!
