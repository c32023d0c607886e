//! IPv4 addresses and socket addresses as the protocol engine sees them:
//! plain octets and a port, with verified rendering to and parsing from
//! the dotted-quad text that travels in envelopes and responses.

use vstd::prelude::*;
use crate::strings::{
    all_digits, dec_str, dec_val, is_digit, lemma_dec_str_digits, push_dec_u32,
};

verus! {

/// An IPv4 address, one field per octet of `a.b.c.d`.
#[derive(Debug, Clone, Copy, PartialEq, Eq, Hash, Structural)]
pub struct Ipv4Addr {
    pub a: u8,
    pub b: u8,
    pub c: u8,
    pub d: u8,
}

/// An IPv4 socket address: host and port.
#[derive(Debug, Clone, Copy, PartialEq, Eq, Hash, Structural)]
pub struct SocketAddrV4 {
    pub ip: Ipv4Addr,
    pub port: u16,
}

/// The dotted-quad rendering of an address.
pub open spec fn ipv4_str(ip: Ipv4Addr) -> Seq<char> {
    dec_str(ip.a as nat) + seq!['.'] + dec_str(ip.b as nat) + seq!['.'] + dec_str(ip.c as nat)
        + seq!['.'] + dec_str(ip.d as nat)
}

/// The `host:port` rendering of a socket address.
pub open spec fn socket_str(addr: SocketAddrV4) -> Seq<char> {
    ipv4_str(addr.ip) + seq![':'] + dec_str(addr.port as nat)
}

/// A valid textual octet: digits only, no leading zero, value at most 255.
pub open spec fn is_octet_str(s: Seq<char>) -> bool {
    1 <= s.len() && all_digits(s) && (s.len() == 1 || s[0] != '0') && dec_val(s) <= 255
}

/// What parsing one octet's text yields.
pub open spec fn octet_spec(g: Seq<char>) -> Option<u8> {
    if is_octet_str(g) {
        Some(dec_val(g) as u8)
    } else {
        None
    }
}

/// Whether `s` is a dotted quad whose dots stand at `i < j < k`.
pub open spec fn ipv4_shape(s: Seq<char>, i: int, j: int, k: int) -> bool {
    &&& 0 <= i < j < k < s.len()
    &&& s[i] == '.'
    &&& s[j] == '.'
    &&& s[k] == '.'
    &&& is_octet_str(s.subrange(0, i))
    &&& is_octet_str(s.subrange(i + 1, j))
    &&& is_octet_str(s.subrange(j + 1, k))
    &&& is_octet_str(s.subrange(k + 1, s.len() as int))
}

/// The address read off a dotted quad with dots at `i < j < k`.
pub open spec fn shape_value(s: Seq<char>, i: int, j: int, k: int) -> Ipv4Addr {
    Ipv4Addr {
        a: dec_val(s.subrange(0, i)) as u8,
        b: dec_val(s.subrange(i + 1, j)) as u8,
        c: dec_val(s.subrange(j + 1, k)) as u8,
        d: dec_val(s.subrange(k + 1, s.len() as int)) as u8,
    }
}

/// What parsing `s` as an IPv4 address yields: the octets of the unique
/// dotted-quad reading of `s`, if one exists.
pub open spec fn parse_ipv4_spec(s: Seq<char>) -> Option<Ipv4Addr> {
    if exists|i: int, j: int, k: int| ipv4_shape(s, i, j, k) {
        let (i, j, k) = choose|i: int, j: int, k: int| ipv4_shape(s, i, j, k);
        Some(shape_value(s, i, j, k))
    } else {
        None
    }
}

/// In a dotted quad with dots at `i < j < k`, there are no other dots.
proof fn lemma_dot_positions(s: Seq<char>, i: int, j: int, k: int, p: int)
    requires
        ipv4_shape(s, i, j, k),
        0 <= p < s.len(),
        s[p] == '.',
    ensures
        p == i || p == j || p == k,
{
    if p < i {
        assert(s.subrange(0, i)[p] == s[p]);
        assert(is_digit(s[p]));
    } else if i < p && p < j {
        assert(s.subrange(i + 1, j)[p - i - 1] == s[p]);
        assert(is_digit(s[p]));
    } else if j < p && p < k {
        assert(s.subrange(j + 1, k)[p - j - 1] == s[p]);
        assert(is_digit(s[p]));
    } else if k < p {
        assert(s.subrange(k + 1, s.len() as int)[p - k - 1] == s[p]);
        assert(is_digit(s[p]));
    }
}

/// A sequence of characters has at most one dotted-quad reading.
proof fn lemma_shape_unique(s: Seq<char>, i: int, j: int, k: int, i2: int, j2: int, k2: int)
    requires
        ipv4_shape(s, i, j, k),
        ipv4_shape(s, i2, j2, k2),
    ensures
        i == i2 && j == j2 && k == k2,
{
    lemma_dot_positions(s, i, j, k, i2);
    lemma_dot_positions(s, i, j, k, j2);
    lemma_dot_positions(s, i, j, k, k2);
    lemma_dot_positions(s, i2, j2, k2, i);
    lemma_dot_positions(s, i2, j2, k2, j);
    lemma_dot_positions(s, i2, j2, k2, k);
}

/// Parses the character range `[from, to)` of `s` as one octet.
fn parse_octet(s: &str, from: usize, to: usize) -> (r: Option<u8>)
    requires
        from <= to <= s@.len(),
    ensures
        r == octet_spec(s@.subrange(from as int, to as int)),
{
    let ghost g = s@.subrange(from as int, to as int);
    if from == to {
        return None;
    }
    let first = s.get_char(from);
    if to - from > 1 && first == '0' {
        assert(g[0] == '0');
        return None;
    }
    let mut acc: u32 = 0;
    let mut i: usize = from;
    while i < to
        invariant
            from <= i <= to <= s@.len(),
            g == s@.subrange(from as int, to as int),
            acc <= 255,
            acc == dec_val(g.subrange(0, i - from)),
            forall|t: int| 0 <= t < i - from ==> is_digit(g[t]),
        decreases to - i,
    {
        let c = s.get_char(i);
        assert(g[i - from] == s@[i as int]);
        let d = c as u32;
        if d < 48 || d > 57 {
            assert(!is_digit(g[i - from]));
            return None;
        }
        let next = acc * 10 + (d - 48);
        proof {
            assert(g.subrange(0, i + 1 - from).drop_last() =~= g.subrange(0, i - from));
            assert(g.subrange(0, i + 1 - from).last() == g[i - from]);
        }
        if next > 255 {
            proof {
                crate::strings::lemma_dec_val_extend(g, i + 1 - from);
            }
            return None;
        }
        acc = next;
        i += 1;
    }
    proof {
        assert(g.subrange(0, to - from) =~= g);
        assert(g[0] == s@[from as int]);
    }
    Some(acc as u8)
}

/// Parses `s` as a dotted-quad IPv4 address.
pub fn parse_ipv4(s: &str) -> (r: Option<Ipv4Addr>)
    ensures
        r == parse_ipv4_spec(s@),
{
    let len = s.unicode_len();
    let mut dots: Vec<usize> = Vec::new();
    let mut i: usize = 0;
    while i < len
        invariant
            i <= len == s@.len(),
            dots@.len() <= 3,
            forall|t: int| 0 <= t < dots@.len() ==> dots@[t] < i && s@[dots@[t] as int] == '.',
            forall|t1: int, t2: int|
                0 <= t1 < t2 < dots@.len() ==> dots@[t1] < dots@[t2],
            forall|p: int|
                0 <= p < i && s@[p] == '.' ==> exists|t: int|
                    0 <= t < dots@.len() && dots@[t] == p,
        decreases len - i,
    {
        if s.get_char(i) == '.' {
            if dots.len() == 3 {
                // a fourth dot: no dotted-quad reading can exist
                proof {
                    if exists|a: int, b: int, c: int| ipv4_shape(s@, a, b, c) {
                        let (a, b, c) = choose|a: int, b: int, c: int| ipv4_shape(s@, a, b, c);
                        lemma_dot_positions(s@, a, b, c, dots@[0] as int);
                        lemma_dot_positions(s@, a, b, c, dots@[1] as int);
                        lemma_dot_positions(s@, a, b, c, dots@[2] as int);
                        lemma_dot_positions(s@, a, b, c, i as int);
                    }
                }
                return None;
            }
            let ghost old_dots = dots@;
            dots.push(i);
            proof {
                assert forall|p: int| 0 <= p < i + 1 && s@[p] == '.' implies exists|t: int|
                    0 <= t < dots@.len() && dots@[t] == p by {
                    if p == i {
                        assert(dots@[dots@.len() - 1] == i as usize);
                    } else {
                        let t = choose|t: int| 0 <= t < old_dots.len() && old_dots[t] == p;
                        assert(dots@[t] == p);
                    }
                };
            }
        } else {
            proof {
                assert forall|p: int| 0 <= p < i + 1 && s@[p] == '.' implies exists|t: int|
                    0 <= t < dots@.len() && dots@[t] == p by {
                    assert(p != i);
                    let t = choose|t: int| 0 <= t < dots@.len() && dots@[t] == p;
                    assert(dots@[t] == p);
                };
            }
        }
        i += 1;
    }
    if dots.len() < 3 {
        proof {
            if exists|a: int, b: int, c: int| ipv4_shape(s@, a, b, c) {
                let (a, b, c) = choose|a: int, b: int, c: int| ipv4_shape(s@, a, b, c);
                assert(s@[a] == '.');
                assert(s@[b] == '.');
                assert(s@[c] == '.');
                let u0 = choose|u: int| 0 <= u < dots@.len() && dots@[u] == a;
                let u1 = choose|u: int| 0 <= u < dots@.len() && dots@[u] == b;
                let u2 = choose|u: int| 0 <= u < dots@.len() && dots@[u] == c;
                assert(u0 != u1 && u1 != u2 && u0 != u2);
                assert(false);
            }
        }
        return None;
    }
    let d1 = dots[0];
    let d2 = dots[1];
    let d3 = dots[2];
    let oa = parse_octet(s, 0, d1);
    let ob = parse_octet(s, d1 + 1, d2);
    let oc = parse_octet(s, d2 + 1, d3);
    let od = parse_octet(s, d3 + 1, len);
    proof {
        // any dotted-quad reading must place its dots exactly at d1 < d2 < d3
        if exists|a: int, b: int, c: int| ipv4_shape(s@, a, b, c) {
            let (a, b, c) = choose|a: int, b: int, c: int| ipv4_shape(s@, a, b, c);
            lemma_dot_positions(s@, a, b, c, d1 as int);
            lemma_dot_positions(s@, a, b, c, d2 as int);
            lemma_dot_positions(s@, a, b, c, d3 as int);
            assert(a == d1 && b == d2 && c == d3);
        }
    }
    match (oa, ob, oc, od) {
        (Some(a), Some(b), Some(c), Some(d)) => {
            let r = Ipv4Addr { a, b, c, d };
            proof {
                assert(ipv4_shape(s@, d1 as int, d2 as int, d3 as int));
                assert(parse_ipv4_spec(s@) == Some(shape_value(s@, d1 as int, d2 as int, d3 as int)));
            }
            Some(r)
        },
        _ => {
            proof {
                if exists|a: int, b: int, c: int| ipv4_shape(s@, a, b, c) {
                    assert(ipv4_shape(s@, d1 as int, d2 as int, d3 as int));
                    assert(false);
                }
            }
            None
        },
    }
}

/// Appends the dotted-quad rendering of `ip` to `s`.
pub fn push_ipv4(s: &mut String, ip: &Ipv4Addr)
    ensures
        final(s)@ == old(s)@ + ipv4_str(*ip),
{
    proof {
        reveal_strlit(".");
    }
    push_dec_u32(s, ip.a as u32);
    s.append(".");
    push_dec_u32(s, ip.b as u32);
    s.append(".");
    push_dec_u32(s, ip.c as u32);
    s.append(".");
    push_dec_u32(s, ip.d as u32);
    assert(final(s)@ =~= old(s)@ + ipv4_str(*ip));
}

impl Ipv4Addr {
    /// Builds an address from its four octets.
    pub fn new(a: u8, b: u8, c: u8, d: u8) -> (r: Ipv4Addr)
        ensures
            r == (Ipv4Addr { a, b, c, d }),
    {
        Ipv4Addr { a, b, c, d }
    }

    /// The dotted-quad text of the address.
    pub fn to_text(&self) -> (r: String)
        ensures
            r@ == ipv4_str(*self),
    {
        let mut s = String::new();
        push_ipv4(&mut s, self);
        s
    }
}

impl SocketAddrV4 {
    /// Builds a socket address from host and port.
    pub fn new(ip: Ipv4Addr, port: u16) -> (r: SocketAddrV4)
        ensures
            r == (SocketAddrV4 { ip, port }),
    {
        SocketAddrV4 { ip, port }
    }

    /// The address the traffic is sent to.
    pub fn ip(&self) -> (r: Ipv4Addr)
        ensures
            r == self.ip,
    {
        self.ip
    }

    /// The port the traffic is sent to.
    pub fn port(&self) -> (r: u16)
        ensures
            r == self.port,
    {
        self.port
    }

    /// The `host:port` text of the socket address.
    pub fn to_text(&self) -> (r: String)
        ensures
            r@ == socket_str(*self),
    {
        proof {
            reveal_strlit(":");
        }
        let mut s = String::new();
        push_ipv4(&mut s, &self.ip);
        s.append(":");
        push_dec_u32(&mut s, self.port as u32);
        assert(s@ =~= socket_str(*self));
        s
    }
}

/// Rendering an address and parsing the text back yields the same
/// address: the other leg of the wire round trip.
pub proof fn lemma_ipv4_round_trip(ip: Ipv4Addr)
    ensures
        parse_ipv4_spec(ipv4_str(ip)) == Some(ip),
{
    let s = ipv4_str(ip);
    lemma_dec_str_digits(ip.a as nat);
    lemma_dec_str_digits(ip.b as nat);
    lemma_dec_str_digits(ip.c as nat);
    lemma_dec_str_digits(ip.d as nat);
    let la = dec_str(ip.a as nat).len() as int;
    let lb = dec_str(ip.b as nat).len() as int;
    let lc = dec_str(ip.c as nat).len() as int;
    let i = la;
    let j = la + 1 + lb;
    let k = la + 1 + lb + 1 + lc;
    assert(s.subrange(0, i) =~= dec_str(ip.a as nat));
    assert(s.subrange(i + 1, j) =~= dec_str(ip.b as nat));
    assert(s.subrange(j + 1, k) =~= dec_str(ip.c as nat));
    assert(s.subrange(k + 1, s.len() as int) =~= dec_str(ip.d as nat));
    assert(ipv4_shape(s, i, j, k));
    let (i2, j2, k2) = choose|i2: int, j2: int, k2: int| ipv4_shape(s, i2, j2, k2);
    lemma_shape_unique(s, i2, j2, k2, i, j, k);
    assert(parse_ipv4_spec(s) == Some(shape_value(s, i, j, k)));
}

} // verus!
