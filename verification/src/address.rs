//! Classification of the peer socket address into a logical address
//! family, unwrapping IPv4 clients that a dual-stack listener reports as
//! IPv4-mapped IPv6 addresses.

use vstd::prelude::*;

verus! {

/// The peer socket address as the connection layer reports it.
#[derive(Clone, Copy, Debug)]
pub enum PeerAddr {
    /// An IPv4 peer: four address octets and the peer port.
    V4 { octets: [u8; 4], port: u16 },
    /// An IPv6 peer: eight 16-bit segments and the peer port.
    V6 { segments: [u16; 8], port: u16 },
}

/// The logical family of a peer address; derived, never stored.
#[derive(Clone, Copy, PartialEq, Eq, Structural, Debug)]
pub enum AddressFamily {
    IPv4,
    IPv6,
    Unknown,
}

/// The request scheme as the server layer reports it.
#[derive(Clone, Copy, PartialEq, Eq, Structural, Debug)]
pub enum Scheme {
    Http,
    Https,
}

/// An IPv6 address of the `::ffff:a.b.c.d` form: the first five segments
/// are zero and the sixth is `0xffff`; such an address carries an IPv4
/// client behind a dual-stack listener.
pub open spec fn is_ipv4_mapped(segments: Seq<u16>) -> bool {
    &&& segments.len() == 8
    &&& segments[0] == 0
    &&& segments[1] == 0
    &&& segments[2] == 0
    &&& segments[3] == 0
    &&& segments[4] == 0
    &&& segments[5] == 0xffff
}

/// The family `classify` assigns to a peer address.
pub open spec fn spec_classify(peer: Option<PeerAddr>) -> AddressFamily {
    match peer {
        Some(PeerAddr::V4 { .. }) => AddressFamily::IPv4,
        Some(PeerAddr::V6 { segments, .. }) => if is_ipv4_mapped(segments@) {
            AddressFamily::IPv4
        } else {
            AddressFamily::IPv6
        },
        _ => AddressFamily::Unknown,
    }
}

/// Maps a peer socket address to its logical family: an absent address is
/// Unknown, an IPv4 address is IPv4, an IPv4-mapped IPv6 address is IPv4,
/// and any other IPv6 address is IPv6.
pub fn classify(peer: &Option<PeerAddr>) -> (family: AddressFamily)
    ensures
        family == spec_classify(*peer),
{
    match peer {
        Some(PeerAddr::V4 { .. }) => AddressFamily::IPv4,
        Some(PeerAddr::V6 { segments, .. }) => {
            if segments[0] == 0 && segments[1] == 0 && segments[2] == 0 && segments[3] == 0
                && segments[4] == 0 && segments[5] == 0xffff {
                AddressFamily::IPv4
            } else {
                AddressFamily::IPv6
            }
        },
        _ => AddressFamily::Unknown,
    }
}

/// Law: every peer whose IPv6 representation is IPv4-mapped classifies
/// as IPv4.
pub proof fn lemma_ipv4_mapped_classifies_as_ipv4(a: PeerAddr)
    requires
        a matches PeerAddr::V6 { segments, .. } && is_ipv4_mapped(segments@),
    ensures
        spec_classify(Some(a)) == AddressFamily::IPv4,
{
}

} // verus!
