//! Peer addresses and the subnet rule that ties a token to a network.

use vstd::prelude::*;

verus! {

/// An IP address, octets in network order.
#[derive(Debug, Clone, Copy, PartialEq, Eq)]
pub enum IpAddr {
    V4([u8; 4]),
    V6([u8; 16]),
}

/// Two addresses share a subnet when they are of one family and agree on the
/// leading 24 bits (IPv4) or 48 bits (IPv6).
pub open spec fn in_common_subnet(lhs: IpAddr, rhs: IpAddr) -> bool {
    match (lhs, rhs) {
        (IpAddr::V4(l), IpAddr::V4(r)) => l@.take(3) == r@.take(3),
        (IpAddr::V6(l), IpAddr::V6(r)) => l@.take(6) == r@.take(6),
        _ => false,
    }
}

/// Whether the two addresses are of one family and lie in one /24 (IPv4) or
/// one /48 (IPv6).
pub fn common_subnet(lhs: IpAddr, rhs: IpAddr) -> (same: bool)
    ensures
        same == in_common_subnet(lhs, rhs),
{
    match (lhs, rhs) {
        (IpAddr::V4(l), IpAddr::V4(r)) => same_prefix(&l, &r, 3),
        (IpAddr::V6(l), IpAddr::V6(r)) => same_prefix(&l, &r, 6),
        _ => false,
    }
}

/// Whether two byte strings agree on their first `n` bytes.
fn same_prefix(lhs: &[u8], rhs: &[u8], n: usize) -> (same: bool)
    requires
        n <= lhs@.len(),
        n <= rhs@.len(),
    ensures
        same == (lhs@.take(n as int) == rhs@.take(n as int)),
{
    let mut i: usize = 0;
    while i < n
        invariant
            i <= n,
            n <= lhs@.len(),
            n <= rhs@.len(),
            forall|j: int| 0 <= j < i ==> lhs@[j] == rhs@[j],
        decreases n - i,
    {
        if lhs[i] != rhs[i] {
            proof {
                assert(lhs@.take(n as int)[i as int] != rhs@.take(n as int)[i as int]);
            }
            return false;
        }
        i += 1;
    }
    proof {
        assert(lhs@.take(n as int) =~= rhs@.take(n as int));
    }
    true
}

/// Sharing a subnet is an equivalence: every address shares one with itself,
/// the order of the two does not matter, and it carries over a common third.
pub proof fn common_subnet_is_an_equivalence(a: IpAddr, b: IpAddr, c: IpAddr)
    ensures
        in_common_subnet(a, a),
        in_common_subnet(a, b) == in_common_subnet(b, a),
        in_common_subnet(a, b) && in_common_subnet(b, c) ==> in_common_subnet(a, c),
{
}

/// A subnet is what its leading octets are: two IPv4 addresses lie in one
/// exactly where each of their first three octets agrees, two IPv6 addresses
/// exactly where each of their first six does, and two of different families
/// never.
pub proof fn a_subnet_is_its_leading_octets(lhs: IpAddr, rhs: IpAddr)
    ensures
        match (lhs, rhs) {
            (IpAddr::V4(l), IpAddr::V4(r)) => in_common_subnet(lhs, rhs) <==> forall|i: int|
                0 <= i < 3 ==> #[trigger] l@[i] == r@[i],
            (IpAddr::V6(l), IpAddr::V6(r)) => in_common_subnet(lhs, rhs) <==> forall|i: int|
                0 <= i < 6 ==> #[trigger] l@[i] == r@[i],
            _ => !in_common_subnet(lhs, rhs),
        },
{
    match (lhs, rhs) {
        (IpAddr::V4(l), IpAddr::V4(r)) => lemma_equal_prefixes(l@, r@, 3),
        (IpAddr::V6(l), IpAddr::V6(r)) => lemma_equal_prefixes(l@, r@, 6),
        _ => {},
    }
}

/// Prefixes are equal where they are so at each place.
proof fn lemma_equal_prefixes(l: Seq<u8>, r: Seq<u8>, n: int)
    requires
        0 <= n <= l.len(),
        n <= r.len(),
    ensures
        l.take(n) == r.take(n) <==> forall|i: int| 0 <= i < n ==> #[trigger] l[i] == r[i],
{
    if l.take(n) == r.take(n) {
        assert forall|i: int| 0 <= i < n implies #[trigger] l[i] == r[i] by {
            assert(l.take(n)[i] == r.take(n)[i]);
        }
    }
    if forall|i: int| 0 <= i < n ==> #[trigger] l[i] == r[i] {
        assert(l.take(n) =~= r.take(n));
    }
}

/// Of what `common_subnet` answers: a difference in any one of the first three
/// octets of two IPv4 addresses, or of the first six of two IPv6 addresses, is
/// told, and a difference in any later one is not.
pub proof fn common_subnet_looks_at_each_leading_octet(lhs: IpAddr, rhs: IpAddr, same: bool)
    requires
        call_ensures(common_subnet, (lhs, rhs), same),
    ensures
        match (lhs, rhs) {
            (IpAddr::V4(l), IpAddr::V4(r)) => {
                same <==> l@[0] == r@[0] && l@[1] == r@[1] && l@[2] == r@[2]
            },
            (IpAddr::V6(l), IpAddr::V6(r)) => {
                same <==> l@[0] == r@[0] && l@[1] == r@[1] && l@[2] == r@[2] && l@[3] == r@[3]
                    && l@[4] == r@[4] && l@[5] == r@[5]
            },
            _ => !same,
        },
{
    a_subnet_is_its_leading_octets(lhs, rhs);
}

} // verus!
