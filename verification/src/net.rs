//! IP addresses and the address classes that decide which Oracle targets
//! may be contacted.
use vstd::prelude::*;

verus! {

/// An IP address as the URL parser or the resolver reports it: four octets
/// or eight 16-bit segments.
#[derive(Clone, Copy, Debug, PartialEq, Eq)]
pub enum IpAddress {
    V4([u8; 4]),
    V6([u16; 8]),
}

/// The IPv4 address classes below are stated over the four octets
/// `b0.b1.b2.b3`.
/// 10.0.0.0/8, 172.16.0.0/12 and 192.168.0.0/16.
pub open spec fn v4_is_private(b0: int, b1: int) -> bool {
    ||| b0 == 10
    ||| b0 == 172 && 16 <= b1 <= 31
    ||| b0 == 192 && b1 == 168
}

/// 127.0.0.0/8.
pub open spec fn v4_is_loopback(b0: int) -> bool {
    b0 == 127
}

/// 169.254.0.0/16.
pub open spec fn v4_is_link_local(b0: int, b1: int) -> bool {
    b0 == 169 && b1 == 254
}

/// 192.0.2.0/24, 198.51.100.0/24 and 203.0.113.0/24.
pub open spec fn v4_is_documentation(b0: int, b1: int, b2: int) -> bool {
    ||| b0 == 192 && b1 == 0 && b2 == 2
    ||| b0 == 198 && b1 == 51 && b2 == 100
    ||| b0 == 203 && b1 == 0 && b2 == 113
}

/// 224.0.0.0/4.
pub open spec fn v4_is_multicast(b0: int) -> bool {
    224 <= b0 <= 239
}

/// Reserved space: 0.0.0.0/8 ("this network", with the unspecified
/// address), 100.64.0.0/10 (shared address space), 192.0.0.0/24 (protocol
/// assignments), 198.18.0.0/15 (benchmarking) and 240.0.0.0/4 (reserved,
/// with the broadcast address).
pub open spec fn v4_is_reserved(b0: int, b1: int, b2: int) -> bool {
    ||| b0 == 0
    ||| b0 == 100 && 64 <= b1 <= 127
    ||| b0 == 192 && b1 == 0 && b2 == 0
    ||| b0 == 198 && (b1 == 18 || b1 == 19)
    ||| 240 <= b0
}

/// An IPv4 address outside every private, loopback, link-local,
/// documentation, multicast and reserved range.
pub open spec fn v4_is_public(b0: int, b1: int, b2: int, b3: int) -> bool {
    &&& !v4_is_private(b0, b1)
    &&& !v4_is_loopback(b0)
    &&& !v4_is_link_local(b0, b1)
    &&& !v4_is_documentation(b0, b1, b2)
    &&& !v4_is_multicast(b0)
    &&& !v4_is_reserved(b0, b1, b2)
}

/// `::1`.
pub open spec fn v6_is_loopback(s: [u16; 8]) -> bool {
    s[0] == 0 && s[1] == 0 && s[2] == 0 && s[3] == 0 && s[4] == 0 && s[5] == 0 && s[6] == 0
        && s[7] == 1
}

/// `::`.
pub open spec fn v6_is_unspecified(s: [u16; 8]) -> bool {
    s[0] == 0 && s[1] == 0 && s[2] == 0 && s[3] == 0 && s[4] == 0 && s[5] == 0 && s[6] == 0
        && s[7] == 0
}

/// ff00::/8.
pub open spec fn v6_is_multicast(s: [u16; 8]) -> bool {
    0xff00 <= s[0]
}

/// fe80::/10.
pub open spec fn v6_is_unicast_link_local(s: [u16; 8]) -> bool {
    0xfe80 <= s[0] <= 0xfebf
}

/// fc00::/7.
pub open spec fn v6_is_unique_local(s: [u16; 8]) -> bool {
    0xfc00 <= s[0] <= 0xfdff
}

/// 2001:db8::/32.
pub open spec fn v6_is_documentation(s: [u16; 8]) -> bool {
    s[0] == 0x2001 && s[1] == 0x0db8
}

/// `::ffff:a.b.c.d`, an IPv4 address in IPv6 form.
pub open spec fn v6_is_ipv4_mapped(s: [u16; 8]) -> bool {
    s[0] == 0 && s[1] == 0 && s[2] == 0 && s[3] == 0 && s[4] == 0 && s[5] == 0xffff
}

/// A loopback address: 127.0.0.0/8, `::1`, or an IPv4-mapped address of
/// 127.0.0.0/8.
pub open spec fn spec_is_loopback(address: IpAddress) -> bool {
    match address {
        IpAddress::V4(a) => v4_is_loopback(a[0] as int),
        IpAddress::V6(s) => if v6_is_ipv4_mapped(s) {
            v4_is_loopback(s[6] as int / 256)
        } else {
            v6_is_loopback(s)
        },
    }
}

/// A public address: an IPv4 address, or the IPv4 address that an
/// IPv4-mapped IPv6 address stands for, outside every reserved IPv4 range;
/// any other IPv6 address outside the loopback, unspecified, multicast,
/// link-local, unique-local and documentation ranges.
pub open spec fn spec_is_public_ip(address: IpAddress) -> bool {
    match address {
        IpAddress::V4(a) => v4_is_public(a[0] as int, a[1] as int, a[2] as int, a[3] as int),
        IpAddress::V6(s) => if v6_is_ipv4_mapped(s) {
            v4_is_public(s[6] as int / 256, s[6] as int % 256, s[7] as int / 256, s[7] as int % 256)
        } else {
            &&& !v6_is_loopback(s)
            &&& !v6_is_unspecified(s)
            &&& !v6_is_multicast(s)
            &&& !v6_is_unicast_link_local(s)
            &&& !v6_is_unique_local(s)
            &&& !v6_is_documentation(s)
        },
    }
}

/// Whether the IPv4 address `b0.b1.b2.b3` is public.
fn v4_octets_public(b0: u8, b1: u8, b2: u8, b3: u8) -> (res: bool)
    ensures
        res == v4_is_public(b0 as int, b1 as int, b2 as int, b3 as int),
{
    let private = b0 == 10 || (b0 == 172 && 16 <= b1 && b1 <= 31) || (b0 == 192 && b1 == 168);
    let loopback = b0 == 127;
    let link_local = b0 == 169 && b1 == 254;
    let documentation = (b0 == 192 && b1 == 0 && b2 == 2) || (b0 == 198 && b1 == 51 && b2
        == 100) || (b0 == 203 && b1 == 0 && b2 == 113);
    let multicast = 224 <= b0 && b0 <= 239;
    let reserved = b0 == 0 || (b0 == 100 && 64 <= b1 && b1 <= 127) || (b0 == 192 && b1 == 0
        && b2 == 0) || (b0 == 198 && (b1 == 18 || b1 == 19)) || 240 <= b0;
    !private && !loopback && !link_local && !documentation && !multicast && !reserved
}

/// Whether an IPv6 address is the IPv4-mapped form `::ffff:a.b.c.d`.
fn is_ipv4_mapped(s: &[u16; 8]) -> (res: bool)
    ensures
        res == v6_is_ipv4_mapped(*s),
{
    s[0] == 0 && s[1] == 0 && s[2] == 0 && s[3] == 0 && s[4] == 0 && s[5] == 0xffff
}

/// Whether the address is a loopback address.
pub fn is_loopback(address: &IpAddress) -> (res: bool)
    ensures
        res == spec_is_loopback(*address),
{
    match address {
        IpAddress::V4(a) => a[0] == 127,
        IpAddress::V6(s) => if is_ipv4_mapped(s) {
            s[6] / 256 == 127
        } else {
            s[0] == 0 && s[1] == 0 && s[2] == 0 && s[3] == 0 && s[4] == 0 && s[5] == 0 && s[6]
                == 0 && s[7] == 1
        },
    }
}

/// Whether the address lies outside every reserved range listed in
/// `spec_is_public_ip`.
pub fn is_public_ip(address: &IpAddress) -> (res: bool)
    ensures
        res == spec_is_public_ip(*address),
{
    match address {
        IpAddress::V4(a) => v4_octets_public(a[0], a[1], a[2], a[3]),
        IpAddress::V6(s) => {
            if is_ipv4_mapped(s) {
                return v4_octets_public(
                    (s[6] / 256) as u8,
                    (s[6] % 256) as u8,
                    (s[7] / 256) as u8,
                    (s[7] % 256) as u8,
                );
            }
            let rest_zero = s[1] == 0 && s[2] == 0 && s[3] == 0 && s[4] == 0 && s[5] == 0 && s[6]
                == 0;
            let loopback = s[0] == 0 && rest_zero && s[7] == 1;
            let unspecified = s[0] == 0 && rest_zero && s[7] == 0;
            let multicast = 0xff00 <= s[0];
            let link_local = 0xfe80 <= s[0] && s[0] <= 0xfebf;
            let unique_local = 0xfc00 <= s[0] && s[0] <= 0xfdff;
            let documentation = s[0] == 0x2001 && s[1] == 0x0db8;
            !loopback && !unspecified && !multicast && !link_local && !unique_local
                && !documentation
        },
    }
}

/// The public IPv4 addresses are exactly those outside 0.0.0.0/8,
/// 10.0.0.0/8, 100.64.0.0/10, 127.0.0.0/8, 169.254.0.0/16, 172.16.0.0/12,
/// 192.0.0.0/24, 192.0.2.0/24, 192.168.0.0/16, 198.18.0.0/15,
/// 198.51.100.0/24, 203.0.113.0/24 and 224.0.0.0/3 (multicast and
/// reserved).
pub proof fn lemma_ipv4_public_exactly(a: [u8; 4])
    ensures
        spec_is_public_ip(IpAddress::V4(a)) <==> {
            &&& a[0] != 0
            &&& a[0] != 10
            &&& !(a[0] == 100 && 64 <= a[1] && a[1] < 128)
            &&& a[0] != 127
            &&& !(a[0] == 169 && a[1] == 254)
            &&& !(a[0] == 172 && 16 <= a[1] && a[1] < 32)
            &&& !(a[0] == 192 && a[1] == 0 && a[2] == 0)
            &&& !(a[0] == 192 && a[1] == 0 && a[2] == 2)
            &&& !(a[0] == 192 && a[1] == 168)
            &&& !(a[0] == 198 && 18 <= a[1] && a[1] < 20)
            &&& !(a[0] == 198 && a[1] == 51 && a[2] == 100)
            &&& !(a[0] == 203 && a[1] == 0 && a[2] == 113)
            &&& a[0] < 224
        },
{
}

/// The public IPv6 addresses that do not stand for an IPv4 address are
/// exactly those outside `::`, `::1`, fc00::/7, fe80::/10, ff00::/8 and
/// 2001:db8::/32.
pub proof fn lemma_ipv6_public_exactly(s: [u16; 8])
    requires
        !(s[0] == 0 && s[1] == 0 && s[2] == 0 && s[3] == 0 && s[4] == 0 && s[5] == 0xffff),
    ensures
        spec_is_public_ip(IpAddress::V6(s)) <==> {
            &&& !(s[0] == 0 && s[1] == 0 && s[2] == 0 && s[3] == 0 && s[4] == 0 && s[5] == 0
                && s[6] == 0 && s[7] < 2)
            &&& !(0xfc00 <= s[0] && s[0] < 0xfe00)
            &&& !(0xfe80 <= s[0] && s[0] < 0xfec0)
            &&& s[0] < 0xff00
            &&& !(s[0] == 0x2001 && s[1] == 0x0db8)
        },
{
}

/// An IPv4-mapped IPv6 address `::ffff:a.b.c.d` is judged as a.b.c.d.
pub proof fn lemma_ipv4_mapped_as_ipv4(s: [u16; 8], a: [u8; 4])
    requires
        s[0] == 0 && s[1] == 0 && s[2] == 0 && s[3] == 0 && s[4] == 0 && s[5] == 0xffff,
        s[6] == a[0] * 256 + a[1],
        s[7] == a[2] * 256 + a[3],
    ensures
        spec_is_public_ip(IpAddress::V6(s)) == spec_is_public_ip(IpAddress::V4(a)),
        spec_is_loopback(IpAddress::V6(s)) == spec_is_loopback(IpAddress::V4(a)),
{
    assert(s[6] as int / 256 == a[0] && s[6] as int % 256 == a[1]) by (nonlinear_arith)
        requires
            s[6] == a[0] * 256 + a[1],
            0 <= a[1] < 256,
    ;
    assert(s[7] as int / 256 == a[2] && s[7] as int % 256 == a[3]) by (nonlinear_arith)
        requires
            s[7] == a[2] * 256 + a[3],
            0 <= a[3] < 256,
    ;
}

/// Every address of 127.0.0.0/8, and `::1`, is a loopback address.
pub proof fn lemma_loopback_addresses(a: [u8; 4], s: [u16; 8])
    ensures
        a[0] == 127 ==> spec_is_loopback(IpAddress::V4(a)),
        s[0] == 0 && s[1] == 0 && s[2] == 0 && s[3] == 0 && s[4] == 0 && s[5] == 0 && s[6] == 0
            && s[7] == 1 ==> spec_is_loopback(IpAddress::V6(s)),
{
}

} // verus!
