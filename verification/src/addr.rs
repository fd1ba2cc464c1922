//! Addresses as the sequence of protocol components they are made of.

use vstd::prelude::*;

verus! {

/// One protocol component of a multi-address. Components the logic does not
/// read are kept as their textual form (such as `/tcp/8080`).
#[derive(Clone, Debug)]
pub enum AddrPart {
    Ip4(u8, u8, u8, u8),
    Ip6(u128),
    P2p(String),
    Other(String),
}

/// An IP address.
#[derive(Clone, Copy, Debug, PartialEq, Eq, Structural)]
pub enum IpValue {
    V4(u8, u8, u8, u8),
    V6(u128),
}

/// Abstract form of an [`AddrPart`].
pub enum AddrPartView {
    Ip4(u8, u8, u8, u8),
    Ip6(u128),
    P2p(Seq<char>),
    Other(Seq<char>),
}

impl View for AddrPart {
    type V = AddrPartView;

    open spec fn view(&self) -> AddrPartView {
        match self {
            AddrPart::Ip4(a, b, c, d) => AddrPartView::Ip4(*a, *b, *c, *d),
            AddrPart::Ip6(x) => AddrPartView::Ip6(*x),
            AddrPart::P2p(p) => AddrPartView::P2p(p@),
            AddrPart::Other(t) => AddrPartView::Other(t@),
        }
    }
}

/// The abstract components of an address.
pub open spec fn parts_view(v: Seq<AddrPart>) -> Seq<AddrPartView> {
    v.map_values(|p: AddrPart| p@)
}

/// The IP address a component carries, if any.
pub open spec fn part_ip(p: AddrPartView) -> Option<IpValue> {
    match p {
        AddrPartView::Ip4(a, b, c, d) => Some(IpValue::V4(a, b, c, d)),
        AddrPartView::Ip6(x) => Some(IpValue::V6(x)),
        _ => None,
    }
}

/// The first IP address among the components, if any.
pub open spec fn first_ip(parts: Seq<AddrPartView>) -> Option<IpValue>
    decreases parts.len(),
{
    if parts.len() == 0 {
        None
    } else if part_ip(parts[0]) is Some {
        part_ip(parts[0])
    } else {
        first_ip(parts.drop_first())
    }
}

/// Returns the first IPv4 or IPv6 address found among the components.
pub fn extract_ip(parts: &Vec<AddrPart>) -> (r: Option<IpValue>)
    ensures
        r == first_ip(parts_view(parts@)),
{
    let mut i: usize = 0;
    assert(parts_view(parts@).skip(0) =~= parts_view(parts@));
    while i < parts.len()
        invariant
            i <= parts@.len(),
            first_ip(parts_view(parts@)) == first_ip(parts_view(parts@).skip(i as int)),
        decreases parts@.len() - i,
    {
        let ghost rest = parts_view(parts@).skip(i as int);
        assert(rest[0] == parts@[i as int]@);
        assert(rest.drop_first() =~= parts_view(parts@).skip(i + 1));
        match &parts[i] {
            AddrPart::Ip4(a, b, c, d) => {
                return Some(IpValue::V4(*a, *b, *c, *d));
            },
            AddrPart::Ip6(x) => {
                return Some(IpValue::V6(*x));
            },
            _ => {},
        }
        i += 1;
    }
    None
}

/// Whether an IP address is the given IPv4 address.
pub open spec fn ip_is_v4(ip: IpValue, bind: (u8, u8, u8, u8)) -> bool {
    ip == IpValue::V4(bind.0, bind.1, bind.2, bind.3)
}

/// Whether `ip` equals the IPv4 address `bind`.
pub fn ip_equals_v4(ip: IpValue, bind: (u8, u8, u8, u8)) -> (r: bool)
    ensures
        r == ip_is_v4(ip, bind),
{
    match ip {
        IpValue::V4(a, b, c, d) => a == bind.0 && b == bind.1 && c == bind.2 && d == bind.3,
        IpValue::V6(_) => false,
    }
}

/// The index of the first peer-id component, if any.
pub open spec fn first_p2p(parts: Seq<AddrPartView>) -> Option<int> {
    if exists|i: int| 0 <= i < parts.len() && parts[i] is P2p {
        Some(choose|i: int| 0 <= i < parts.len() && parts[i] is P2p
            && forall|j: int| 0 <= j < i ==> !(parts[j] is P2p))
    } else {
        None
    }
}

/// Splits an address at its first peer-id component: the peer id and the
/// components before it, or `None` when the address names no peer.
pub fn split_peer_id(addr: Vec<AddrPart>) -> (r: Option<(String, Vec<AddrPart>)>)
    ensures
        match r {
            None => forall|i: int| 0 <= i < addr@.len() ==> !(addr@[i]@ is P2p),
            Some((id, base)) => exists|i: int|
                0 <= i < addr@.len()
                && addr@[i]@ == AddrPartView::P2p(id@)
                && (forall|j: int| 0 <= j < i ==> !(addr@[j]@ is P2p))
                && parts_view(base@) == parts_view(addr@.subrange(0, i)),
        },
{
    let mut base: Vec<AddrPart> = Vec::new();
    let mut i: usize = 0;
    while i < addr.len()
        invariant
            i <= addr@.len(),
            forall|j: int| 0 <= j < i ==> !(addr@[j]@ is P2p),
            parts_view(base@) == parts_view(addr@.subrange(0, i as int)),
        decreases addr@.len() - i,
    {
        let ghost old_base = base@;
        match &addr[i] {
            AddrPart::P2p(id) => {
                return Some((id.clone(), base));
            },
            AddrPart::Ip4(a, b, c, d) => {
                base.push(AddrPart::Ip4(*a, *b, *c, *d));
            },
            AddrPart::Ip6(x) => {
                base.push(AddrPart::Ip6(*x));
            },
            AddrPart::Other(t) => {
                base.push(AddrPart::Other(t.clone()));
            },
        }
        proof {
            assert(base@ =~= old_base.push(base@.last()));
            assert(base@.last()@ == addr@[i as int]@);
            assert(parts_view(old_base).len() == i);
            assert forall|k: int| 0 <= k < i + 1 implies parts_view(base@)[k]
                == parts_view(addr@.subrange(0, i + 1))[k]
            by {
                if k < i {
                    assert(parts_view(old_base)[k] == parts_view(addr@.subrange(0, i as int))[k]);
                    assert(base@[k] == old_base[k]);
                }
            }
            assert(parts_view(base@) =~= parts_view(addr@.subrange(0, i + 1)));
        }
        i += 1;
    }
    None
}

} // verus!
