//! The peers that a client starts from: which of the addresses given are
//! addresses at all, and whether they keep the client on a local network.

use crate::client::ClientError;
use crate::text::owned;
use std::str::FromStr;
use vstd::prelude::*;

verus! {

/// One part of a peer's address, as far as the client looks at it.
#[derive(Clone, Copy, Debug)]
pub enum Component {
    /// An IPv4 address, with its four octets.
    Ip4([u8; 4]),
    /// Any other part: a port, a transport, a peer id.
    Other,
}

#[verifier::external_type_specification]
#[verifier::external_body]
pub struct ExMultiaddr(libp2p::multiaddr::Multiaddr);

/// The parts that a multiaddress holds, in order, each IPv4 part with its
/// octets.
pub uninterp spec fn address_parts(address: libp2p::multiaddr::Multiaddr) -> Seq<Component>;

/// The parts of the multiaddress that `text` spells; `None` where it spells
/// none.
pub uninterp spec fn peer_components(text: Seq<char>) -> Option<Seq<Component>>;

/// `Multiaddr::from_str` of the `multiaddr` crate, as `libp2p` hands it on:
/// the address that the text spells, or nothing where it spells none. What
/// comes depends on the text alone.
#[verifier::external_body]
fn parse_address(text: &str) -> (r: Option<libp2p::multiaddr::Multiaddr>)
    ensures
        peer_components(text@) == match r {
            Some(address) => Some(address_parts(address)),
            None => None,
        },
{
    libp2p::multiaddr::Multiaddr::from_str(text).ok()
}

/// `Multiaddr::iter`: the parts of the address in order, each IPv4 part
/// handed on with its octets and every other part as `Other`.
#[verifier::external_body]
fn parts_of(address: &libp2p::multiaddr::Multiaddr) -> (parts: Vec<Component>)
    ensures
        parts@ == address_parts(*address),
{
    address.iter().map(
        |part|
            match part {
                libp2p::multiaddr::Protocol::Ip4(ip) => Component::Ip4(ip.octets()),
                _ => Component::Other,
            },
    ).collect()
}

/// Whether the IPv4 address is in one of the ranges set aside for private
/// networks: 10.0.0.0/8, 172.16.0.0/12, 192.168.0.0/16.
pub open spec fn is_private(octets: Seq<u8>) -> bool {
    ||| octets[0] == 10
    ||| (octets[0] == 172 && 16 <= octets[1] <= 31)
    ||| (octets[0] == 192 && octets[1] == 168)
}

/// Whether the IPv4 address is in the loopback range 127.0.0.0/8.
pub open spec fn is_loopback(octets: Seq<u8>) -> bool {
    octets[0] == 127
}

/// Whether the part is an IPv4 address that is neither private nor loopback.
pub open spec fn is_global(part: Component) -> bool {
    part matches Component::Ip4(octets) && !is_private(octets@) && !is_loopback(octets@)
}

/// Whether some part of the address is global.
pub open spec fn has_global(parts: Seq<Component>) -> bool {
    exists|i: int| 0 <= i < parts.len() && is_global(#[trigger] parts[i])
}

/// Whether the IPv4 address is private.
pub fn ip4_is_private(octets: &[u8; 4]) -> (b: bool)
    ensures
        b == is_private(octets@),
{
    octets[0] == 10 || (octets[0] == 172 && octets[1] >= 16 && octets[1] <= 31) || (octets[0]
        == 192 && octets[1] == 168)
}

/// Whether the IPv4 address is a loopback address.
pub fn ip4_is_loopback(octets: &[u8; 4]) -> (b: bool)
    ensures
        b == is_loopback(octets@),
{
    octets[0] == 127
}

/// Whether some part of the address is a global IPv4 address.
pub fn address_is_global(parts: &Vec<Component>) -> (b: bool)
    ensures
        b == has_global(parts@),
{
    let mut i: usize = 0;
    while i < parts.len()
        invariant
            i <= parts@.len(),
            forall|j: int| 0 <= j < i ==> !is_global(#[trigger] parts@[j]),
        decreases parts@.len() - i,
    {
        match parts[i] {
            Component::Ip4(octets) => {
                if !ip4_is_private(&octets) && !ip4_is_loopback(&octets) {
                    assert(is_global(parts@[i as int]));
                    return true;
                }
            },
            Component::Other => {},
        }
        i = i + 1;
    }
    false
}

/// The texts among `texts` that spell a multiaddress, in order.
pub open spec fn valid_peers(texts: Seq<Seq<char>>) -> Seq<Seq<char>>
    decreases texts.len(),
{
    if texts.len() == 0 {
        Seq::empty()
    } else if peer_components(texts.last()) is Some {
        valid_peers(texts.drop_last()).push(texts.last())
    } else {
        valid_peers(texts.drop_last())
    }
}

/// Whether none of the texts that spell a multiaddress spells one with a
/// global part.
pub open spec fn all_local(texts: Seq<Seq<char>>) -> bool {
    forall|i: int|
        0 <= i < texts.len() ==> (#[trigger] peer_components(texts[i]) matches Some(parts)
            ==> !has_global(parts))
}

/// The texts of a list of strings.
pub open spec fn texts_of(peers: Seq<String>) -> Seq<Seq<char>> {
    Seq::new(peers.len(), |i: int| peers[i]@)
}

/// How a client starts out.
#[derive(Debug)]
pub struct PeerPlan {
    /// Whether the client stays on a local network: no peer has a global
    /// address.
    pub local: bool,
    /// The peers to start from: those of the given texts that are addresses,
    /// in the order given.
    pub peers: Vec<String>,
}

/// The reason given when no text is an address.
pub open spec fn no_peers_reason() -> Seq<char> {
    "No valid peer addresses provided"@
}

/// Sorts out the peers that a client is given. Texts that spell no
/// multiaddress are dropped. If none is left, the client cannot start:
/// `InitializationFailed`. Otherwise the plan holds the addresses that are
/// left, and is local unless one of them has an IPv4 part that is neither
/// private nor loopback.
pub fn plan_peers(peers: &Vec<String>) -> (r: Result<PeerPlan, ClientError>)
    ensures
        match r {
            Ok(plan) => {
                &&& valid_peers(texts_of(peers@)).len() > 0
                &&& texts_of(plan.peers@) == valid_peers(texts_of(peers@))
                &&& plan.local == all_local(texts_of(peers@))
            },
            Err(ClientError::InitializationFailed { reason }) => valid_peers(
                texts_of(peers@),
            ).len() == 0 && reason@ == no_peers_reason(),
            Err(_) => false,
        },
{
    let ghost texts = texts_of(peers@);
    let mut kept: Vec<String> = Vec::new();
    let mut local = true;
    let mut i: usize = 0;
    assert(texts.take(0) =~= Seq::<Seq<char>>::empty());
    while i < peers.len()
        invariant
            i <= peers@.len(),
            texts == texts_of(peers@),
            texts_of(kept@) == valid_peers(texts.take(i as int)),
            local == all_local(texts.take(i as int)),
        decreases peers@.len() - i,
    {
        let ghost before = texts.take(i as int);
        let ghost after = texts.take(i + 1);
        proof {
            assert(after.drop_last() =~= before);
            assert(after.last() == peers@[i as int]@);
        }
        match parse_address(peers[i].as_str()) {
            Some(address) => {
                let parts = parts_of(&address);
                let global = address_is_global(&parts);
                kept.push(peers[i].clone());
                proof {
                    assert(texts_of(kept@) =~= valid_peers(before).push(after.last()));
                    if all_local(after) {
                        assert forall|j: int| 0 <= j < before.len() implies (
                        #[trigger] peer_components(before[j]) matches Some(p) ==> !has_global(
                            p,
                        )) by {
                            assert(before[j] == after[j]);
                        }
                        assert(peer_components(after[i as int]) is Some);
                    }
                    if all_local(before) && !global {
                        assert forall|j: int| 0 <= j < after.len() implies (
                        #[trigger] peer_components(after[j]) matches Some(p) ==> !has_global(
                            p,
                        )) by {
                            if j < i {
                                assert(after[j] == before[j]);
                            }
                        }
                    }
                }
                if global {
                    local = false;
                }
            },
            None => {
                proof {
                    if all_local(after) {
                        assert forall|j: int| 0 <= j < before.len() implies (
                        #[trigger] peer_components(before[j]) matches Some(p) ==> !has_global(
                            p,
                        )) by {
                            assert(before[j] == after[j]);
                        }
                    }
                    if all_local(before) {
                        assert forall|j: int| 0 <= j < after.len() implies (
                        #[trigger] peer_components(after[j]) matches Some(p) ==> !has_global(
                            p,
                        )) by {
                            if j < i {
                                assert(after[j] == before[j]);
                            }
                        }
                    }
                }
            },
        }
        i = i + 1;
    }
    assert(texts.take(peers@.len() as int) =~= texts);
    if kept.len() == 0 {
        return Err(
            ClientError::InitializationFailed {
                reason: owned("No valid peer addresses provided"),
            },
        );
    }
    Ok(PeerPlan { local, peers: kept })
}

} // verus!
