//! Link and network addresses: how they are rebuilt from the bytes of a
//! header field, and how they are written.

use crate::text::{dec, digit_char, hex, push_dec, push_hex};
use vstd::prelude::*;

verus! {

/// A 48-bit link address, first octet on the wire first.
#[derive(Clone, Copy, Debug, PartialEq, Eq)]
pub struct MacAddr {
    pub bytes: [u8; 6],
}

/// An IPv4 address, first octet on the wire first.
#[derive(Clone, Copy, Debug, PartialEq, Eq)]
pub struct Ipv4Addr {
    pub octets: [u8; 4],
}

/// An IPv6 address, first octet on the wire first.
#[derive(Clone, Copy, Debug, PartialEq, Eq)]
pub struct Ipv6Addr {
    pub octets: [u8; 16],
}

/// An address of either family.
#[derive(Clone, Copy, Debug, PartialEq, Eq)]
pub enum IpAddr {
    V4(Ipv4Addr),
    V6(Ipv6Addr),
}

/// A field did not hold as many bytes as the address needs.
#[derive(Clone, Copy, Debug, PartialEq, Eq)]
pub struct AddrError {
    pub expected: usize,
    pub found: usize,
}

/// Rebuilds a link address from the bytes of a header field. The field holds
/// the address last octet first; it must hold exactly six bytes.
pub fn bv_to_mac(bv: &[u8]) -> (r: Result<MacAddr, AddrError>)
    ensures
        bv@.len() == 6 ==> r is Ok && r->Ok_0.bytes@ == bv@.reverse(),
        bv@.len() != 6 ==> r == Err::<MacAddr, AddrError>(
            AddrError { expected: 6, found: bv@.len() as usize },
        ),
{
    if bv.len() != 6 {
        return Err(AddrError { expected: 6, found: bv.len() });
    }
    let bytes: [u8; 6] = [bv[5], bv[4], bv[3], bv[2], bv[1], bv[0]];
    proof {
        assert(bytes@ =~= bv@.reverse());
    }
    Ok(MacAddr { bytes })
}

/// Rebuilds an IPv4 address from the bytes of a header field. The field
/// holds the address last octet first; it must hold exactly four bytes.
pub fn bv_to_ipv4(bv: &[u8]) -> (r: Result<Ipv4Addr, AddrError>)
    ensures
        bv@.len() == 4 ==> r is Ok && r->Ok_0.octets@ == bv@.reverse(),
        bv@.len() != 4 ==> r == Err::<Ipv4Addr, AddrError>(
            AddrError { expected: 4, found: bv@.len() as usize },
        ),
{
    if bv.len() != 4 {
        return Err(AddrError { expected: 4, found: bv.len() });
    }
    let octets: [u8; 4] = [bv[3], bv[2], bv[1], bv[0]];
    proof {
        assert(octets@ =~= bv@.reverse());
    }
    Ok(Ipv4Addr { octets })
}

/// Rebuilds an IPv6 address from the bytes of a header field. The field
/// holds the address last octet first; it must hold exactly sixteen bytes.
pub fn bv_to_ipv6(bv: &[u8]) -> (r: Result<Ipv6Addr, AddrError>)
    ensures
        bv@.len() == 16 ==> r is Ok && r->Ok_0.octets@ == bv@.reverse(),
        bv@.len() != 16 ==> r == Err::<Ipv6Addr, AddrError>(
            AddrError { expected: 16, found: bv@.len() as usize },
        ),
{
    if bv.len() != 16 {
        return Err(AddrError { expected: 16, found: bv.len() });
    }
    let octets: [u8; 16] = [
        bv[15],
        bv[14],
        bv[13],
        bv[12],
        bv[11],
        bv[10],
        bv[9],
        bv[8],
        bv[7],
        bv[6],
        bv[5],
        bv[4],
        bv[3],
        bv[2],
        bv[1],
        bv[0],
    ];
    proof {
        assert(octets@ =~= bv@.reverse());
    }
    Ok(Ipv6Addr { octets })
}

/// A byte as exactly two upper-case hexadecimal digits.
pub open spec fn upper_hex2(n: u8) -> Seq<char> {
    seq![digit_char((n / 16) as nat, true), digit_char((n % 16) as nat, true)]
}

/// The text of a link address: six pairs of upper-case hexadecimal digits
/// with colons between them.
pub open spec fn mac_text(bytes: Seq<u8>) -> Seq<char>
    recommends
        bytes.len() == 6,
{
    upper_hex2(bytes[0]) + ":"@ + upper_hex2(bytes[1]) + ":"@ + upper_hex2(bytes[2]) + ":"@
        + upper_hex2(bytes[3]) + ":"@ + upper_hex2(bytes[4]) + ":"@ + upper_hex2(bytes[5])
}

/// The text of an IPv4 address: its four octets in decimal with dots
/// between them.
pub open spec fn ipv4_text(octets: Seq<u8>) -> Seq<char>
    recommends
        octets.len() == 4,
{
    dec(octets[0] as nat) + "."@ + dec(octets[1] as nat) + "."@ + dec(octets[2] as nat) + "."@
        + dec(octets[3] as nat)
}

/// The `i`-th of the eight 16-bit segments of an IPv6 address.
pub open spec fn segment(octets: Seq<u8>, i: int) -> nat {
    (octets[2 * i] as nat) * 256 + octets[2 * i + 1] as nat
}

/// How many segments in a row, from segment `i` on, are zero.
pub open spec fn zero_run(octets: Seq<u8>, i: int) -> nat
    decreases 8 - i,
{
    if i < 0 || i >= 8 || segment(octets, i) != 0 {
        0
    } else {
        1 + zero_run(octets, i + 1)
    }
}

/// Where the longest run of zero segments that starts at `i` or later
/// starts; the earliest of them where several are as long. Eight where no
/// segment from `i` on is zero.
pub open spec fn longest_zero_run(octets: Seq<u8>, i: int) -> int
    decreases 8 - i,
{
    if i < 0 || i >= 8 {
        8
    } else {
        let rest = longest_zero_run(octets, i + 1);
        if zero_run(octets, i) > 0 && zero_run(octets, i) >= zero_run(octets, rest) {
            i
        } else {
            rest
        }
    }
}

/// The segments from `from` up to, not including, `to`, each in hexadecimal
/// without leading zeros, with colons between them.
pub open spec fn segments_text(octets: Seq<u8>, from: int, to: int) -> Seq<char>
    decreases to - from,
{
    if from >= to {
        Seq::empty()
    } else if from + 1 == to {
        hex(segment(octets, from), false)
    } else {
        segments_text(octets, from, to - 1) + ":"@ + hex(segment(octets, to - 1), false)
    }
}

/// Whether the address is an IPv4 address mapped into IPv6: ten zero
/// octets, two octets of all ones, then the four octets of the IPv4 address.
pub open spec fn is_ipv4_mapped(octets: Seq<u8>) -> bool {
    &&& forall|i: int| 0 <= i < 10 ==> octets[i] == 0
    &&& octets[10] == 255
    &&& octets[11] == 255
}

/// The text of an IPv6 address. A mapped IPv4 address is written as
/// `::ffff:` and the IPv4 address. Otherwise the eight segments are written
/// in hexadecimal with colons between them, and the longest run of two or
/// more zero segments, the first of them where several are as long, is
/// written as `::`.
pub open spec fn ipv6_text(octets: Seq<u8>) -> Seq<char>
    recommends
        octets.len() == 16,
{
    if is_ipv4_mapped(octets) {
        "::ffff:"@ + ipv4_text(octets.subrange(12, 16))
    } else {
        let start = longest_zero_run(octets, 0);
        let len = zero_run(octets, start);
        if len > 1 {
            segments_text(octets, 0, start) + "::"@ + segments_text(octets, start + len, 8)
        } else {
            segments_text(octets, 0, 8)
        }
    }
}

/// The text of an address of either family.
pub open spec fn ip_text(addr: IpAddr) -> Seq<char> {
    match addr {
        IpAddr::V4(a) => ipv4_text(a.octets@),
        IpAddr::V6(a) => ipv6_text(a.octets@),
    }
}

/// What `macaddr` writes for a link address: this calls the `Display` impl of
/// `macaddr::MacAddr6`, which in its plain form writes the six octets as
/// two upper-case hexadecimal digits each, with colons between them.
#[verifier::external_body]
fn mac_display(bytes: [u8; 6]) -> (r: String)
    ensures
        r@ == mac_text(bytes@),
{
    macaddr::MacAddr6::from(bytes).to_string()
}

fn push_ipv4(out: &mut String, octets: &[u8])
    requires
        octets@.len() == 4,
    ensures
        final(out)@ == old(out)@ + ipv4_text(octets@),
{
    push_dec(out, octets[0] as u64);
    out.push('.');
    push_dec(out, octets[1] as u64);
    out.push('.');
    push_dec(out, octets[2] as u64);
    out.push('.');
    push_dec(out, octets[3] as u64);
    proof {
        reveal_strlit(".");
        assert(final(out)@ =~= old(out)@ + ipv4_text(octets@));
    }
}

fn segment_of(a: &Ipv6Addr, i: usize) -> (r: u16)
    requires
        i < 8,
    ensures
        r == segment(a.octets@, i as int),
{
    (a.octets[2 * i] as u16) * 256 + a.octets[2 * i + 1] as u16
}

fn push_segments(out: &mut String, a: &Ipv6Addr, from: usize, to: usize)
    requires
        from <= to <= 8,
    ensures
        final(out)@ == old(out)@ + segments_text(a.octets@, from as int, to as int),
{
    let mut i: usize = from;
    while i < to
        invariant
            from <= i <= to <= 8,
            out@ == old(out)@ + segments_text(a.octets@, from as int, i as int),
        decreases to - i,
    {
        if i > from {
            out.push(':');
        }
        push_hex(out, segment_of(a, i) as u64, false);
        proof {
            reveal_strlit(":");
            assert(out@ =~= old(out)@ + segments_text(a.octets@, from as int, i + 1));
        }
        i += 1;
    }
}

fn ipv4_mapped(a: &Ipv6Addr) -> (r: bool)
    ensures
        r == is_ipv4_mapped(a.octets@),
{
    let mut i: usize = 0;
    while i < 10
        invariant
            i <= 10,
            forall|j: int| 0 <= j < i ==> a.octets@[j] == 0,
        decreases 10 - i,
    {
        if a.octets[i] != 0 {
            return false;
        }
        i += 1;
    }
    a.octets[10] == 255 && a.octets[11] == 255
}

impl MacAddr {
    /// The text of the address.
    pub fn to_string(&self) -> (r: String)
        ensures
            r@ == mac_text(self.bytes@),
    {
        mac_display(self.bytes)
    }
}

impl Ipv4Addr {
    /// The text of the address.
    pub fn to_string(&self) -> (r: String)
        ensures
            r@ == ipv4_text(self.octets@),
    {
        let mut out = String::new();
        push_ipv4(&mut out, self.octets.as_slice());
        out
    }
}

impl Ipv6Addr {
    /// The text of the address.
    pub fn to_string(&self) -> (r: String)
        ensures
            r@ == ipv6_text(self.octets@),
    {
        if ipv4_mapped(self) {
            let mut out = String::from_str("::ffff:");
            let tail: [u8; 4] = [
                self.octets[12],
                self.octets[13],
                self.octets[14],
                self.octets[15],
            ];
            proof {
                assert(tail@ =~= self.octets@.subrange(12, 16));
            }
            push_ipv4(&mut out, tail.as_slice());
            return out;
        }
        let mut run: usize = 0;
        let mut best: usize = 8;
        let mut best_len: usize = 0;
        let mut i: usize = 8;
        while i > 0
            invariant
                i <= 8,
                run == zero_run(self.octets@, i as int),
                best == longest_zero_run(self.octets@, i as int),
                best_len == zero_run(self.octets@, best as int),
                i <= best <= 8,
                run <= 8 - i,
                best_len <= 8 - best,
            decreases i,
        {
            i -= 1;
            if segment_of(self, i) == 0 {
                run += 1;
            } else {
                run = 0;
            }
            if run > 0 && run >= best_len {
                best = i;
                best_len = run;
            }
        }
        let mut out = String::new();
        if best_len > 1 {
            push_segments(&mut out, self, 0, best);
            out.push(':');
            out.push(':');
            push_segments(&mut out, self, best + best_len, 8);
            proof {
                reveal_strlit("::");
                assert(out@ =~= ipv6_text(self.octets@));
            }
        } else {
            push_segments(&mut out, self, 0, 8);
        }
        out
    }
}

impl IpAddr {
    /// The text of the address.
    pub fn to_string(&self) -> (r: String)
        ensures
            r@ == ip_text(*self),
    {
        match self {
            IpAddr::V4(a) => a.to_string(),
            IpAddr::V6(a) => a.to_string(),
        }
    }
}

} // verus!
