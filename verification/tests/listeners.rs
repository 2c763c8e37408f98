use multiaddr::Multiaddr;
use narwhal_worker::address::listen_address;
use narwhal_worker::receiver::{
    wait_for_shutdown, Change, Fault, Receiver, ReceiverEvent, ReconfigureNotification, Wait,
};

const SHUTDOWN: ReceiverEvent =
    ReceiverEvent::Reconfigured(Change::Observed(ReconfigureNotification::Shutdown));
const NEW_EPOCH: ReceiverEvent =
    ReceiverEvent::Reconfigured(Change::Observed(ReconfigureNotification::NewEpoch));
const UPDATE: ReceiverEvent =
    ReceiverEvent::Reconfigured(Change::Observed(ReconfigureNotification::UpdateCommittee));
const DROPPED: ReceiverEvent = ReceiverEvent::Reconfigured(Change::Dropped);

fn after(events: &[ReceiverEvent]) -> Receiver {
    events.iter().fold(Receiver::Binding, |state, event| state.step(*event))
}

fn listen(text: &str) -> String {
    let address: Multiaddr = text.parse().unwrap();
    listen_address(&address).unwrap().to_string()
}

#[test]
fn the_host_gives_way_to_all_interfaces() {
    assert_eq!(listen("/ip4/127.0.0.1/tcp/8000/http"), "/ip4/0.0.0.0/tcp/8000/http");
    assert_eq!(listen("/dns/example.com/tcp/443/https"), "/ip4/0.0.0.0/tcp/443/https");
    assert_eq!(listen("/ip6/::1/udp/9"), "/ip4/0.0.0.0/udp/9");
    assert_eq!(listen("/memory/7"), "/ip4/0.0.0.0");
}

#[test]
fn listening_addresses_in_bytes() {
    let address: Multiaddr = "/ip4/1.2.3.4/tcp/258".parse().unwrap();
    assert_eq!(listen_address(&address).unwrap().to_vec(), vec![4, 0, 0, 0, 0, 6, 1, 2]);
}

#[test]
fn a_listening_address_is_its_own() {
    assert_eq!(listen("/ip4/0.0.0.0/tcp/8000"), "/ip4/0.0.0.0/tcp/8000");
}

#[test]
fn an_empty_address_has_no_listening_address() {
    assert!(listen_address(&Multiaddr::empty()).is_none());
}

#[test]
fn only_a_shutdown_ends_the_wait() {
    let after = |message| wait_for_shutdown(Change::Observed(message));
    assert_eq!(after(ReconfigureNotification::Shutdown), Wait::Shutdown);
    assert_eq!(after(ReconfigureNotification::NewEpoch), Wait::Again);
    assert_eq!(after(ReconfigureNotification::UpdateCommittee), Wait::Again);
    assert_eq!(wait_for_shutdown(Change::Dropped), Wait::CommitteeChannelDropped);
}

#[test]
fn a_listener_serves_until_it_is_told() {
    let bound = ReceiverEvent::Bound(true);
    assert_eq!(after(&[]), Receiver::Binding);
    assert_eq!(after(&[bound]), Receiver::Serving);
    assert_eq!(after(&[bound, NEW_EPOCH, UPDATE, NEW_EPOCH]), Receiver::Serving);
    assert_eq!(after(&[bound, NEW_EPOCH, SHUTDOWN]), Receiver::Ended);
    assert_eq!(after(&[bound, ReceiverEvent::ServerStopped]), Receiver::Ended);
}

#[test]
fn a_listener_panics() {
    assert_eq!(after(&[ReceiverEvent::Bound(false)]), Receiver::Failed(Fault::BindFailed));
    assert_eq!(
        after(&[ReceiverEvent::Bound(true), DROPPED]),
        Receiver::Failed(Fault::CommitteeChannelDropped)
    );
}

#[test]
fn the_end_is_final() {
    let bound = ReceiverEvent::Bound(true);
    assert_eq!(after(&[bound, SHUTDOWN, DROPPED, bound, NEW_EPOCH]), Receiver::Ended);
    assert_eq!(
        after(&[bound, DROPPED, SHUTDOWN]),
        Receiver::Failed(Fault::CommitteeChannelDropped)
    );
}

#[test]
fn binding_comes_first() {
    assert_eq!(after(&[SHUTDOWN, DROPPED]), Receiver::Binding);
    assert_eq!(after(&[SHUTDOWN, ReceiverEvent::Bound(true)]), Receiver::Serving);
}
