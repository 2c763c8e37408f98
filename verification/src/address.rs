//! Network addresses, and the rule that turns the address at which a worker is known
//! into the address on which it listens.

use multiaddr::{Multiaddr, Protocol};
use vstd::prelude::*;

verus! {

/// `multiaddr::Multiaddr`, a sequence of protocol components.
#[verifier::external_type_specification]
#[verifier::external_body]
pub struct ExMultiaddr(multiaddr::Multiaddr);

/// The components of an address, in order: what `Multiaddr::iter` yields, each component
/// as the bytes that `Protocol::write_bytes` writes for it.
pub uninterp spec fn components(address: Multiaddr) -> Seq<Seq<u8>>;

/// The component `/ip4/a.b.c.d` in bytes: the code of the protocol, then the four octets.
pub open spec fn ip4_component(octets: Seq<u8>) -> Seq<u8> {
    seq![4u8] + octets
}

/// The octets of `INADDR_ANY`, the address that stands for every interface of the host.
pub open spec fn inaddr_any() -> Seq<u8> {
    seq![0u8, 0u8, 0u8, 0u8]
}

/// The address with its first component replaced by `/ip4/0.0.0.0`.
pub open spec fn on_all_interfaces(address: Seq<Seq<u8>>) -> Seq<Seq<u8>>
    recommends
        address.len() > 0,
{
    address.update(0, ip4_component(inaddr_any()))
}

/// Calls `Multiaddr::replace` with a closure that always yields `Protocol::Ip4(octets)`.
/// What is claimed of it: there is a result exactly when `at` is the position of a
/// component, and the result has the same components but for the one at that position,
/// which is the given one.
#[verifier::external_body]
fn replace_with_ip4(address: &Multiaddr, at: usize, octets: [u8; 4]) -> (replaced: Option<Multiaddr>)
    ensures
        replaced is Some <==> at < components(*address).len(),
        replaced matches Some(new) ==> components(new) == components(*address).update(
            at as int,
            ip4_component(octets@),
        ),
{
    let by = Some(Protocol::Ip4(octets.into()));
    address.replace(at, |_protocol| by)
}

/// The address on which a worker listens, given the address at which it is known: the
/// host part gives way to `0.0.0.0`, so that the worker accepts connections on every
/// interface. There is none for an address without components.
pub fn listen_address(address: &Multiaddr) -> (listen: Option<Multiaddr>)
    ensures
        listen is Some <==> components(*address).len() > 0,
        listen matches Some(new) ==> components(new) == on_all_interfaces(components(*address)),
        listen matches Some(new) ==> components(new) == components(*address).update(
            0,
            seq![4u8, 0u8, 0u8, 0u8, 0u8],
        ),
{
    let any: [u8; 4] = [0, 0, 0, 0];
    assert(any@ =~= inaddr_any());
    assert(ip4_component(any@) =~= seq![4u8, 0u8, 0u8, 0u8, 0u8]);
    replace_with_ip4(address, 0, any)
}

/// A listening address begins with `/ip4/0.0.0.0` and keeps every component after the first
/// one, the port among them.
pub proof fn law_listening_keeps_the_rest(address: Seq<Seq<u8>>)
    requires
        address.len() > 0,
    ensures
        on_all_interfaces(address).len() == address.len(),
        on_all_interfaces(address).first() == ip4_component(inaddr_any()),
        on_all_interfaces(address).first() == seq![4u8, 0u8, 0u8, 0u8, 0u8],
        on_all_interfaces(address).drop_first() == address.drop_first(),
{
    assert(on_all_interfaces(address).drop_first() =~= address.drop_first());
    assert(ip4_component(inaddr_any()) =~= seq![4u8, 0u8, 0u8, 0u8, 0u8]);
}

/// A listening address is its own listening address.
pub proof fn law_listening_is_idempotent(address: Seq<Seq<u8>>)
    requires
        address.len() > 0,
    ensures
        on_all_interfaces(on_all_interfaces(address)) == on_all_interfaces(address),
{
    assert(on_all_interfaces(on_all_interfaces(address)) =~= on_all_interfaces(address));
}

/// Whoever asks where to listen is given the known address with `/ip4/0.0.0.0` for its first
/// component, and nothing exactly if it has no component.
pub proof fn law_listens_on_all_interfaces(address: Multiaddr, listen: Option<Multiaddr>)
    requires
        call_ensures(listen_address, (&address,), listen),
    ensures
        listen is None <==> components(address).len() == 0,
        listen matches Some(new) ==> {
            &&& components(new).len() == components(address).len()
            &&& components(new)[0] == seq![4u8, 0u8, 0u8, 0u8, 0u8]
            &&& forall|j: int|
                0 < j < components(address).len() ==> #[trigger] components(new)[j] == components(
                    address,
                )[j]
        },
{
    if components(address).len() > 0 {
        law_listening_keeps_the_rest(components(address));
    }
}

} // verus!
