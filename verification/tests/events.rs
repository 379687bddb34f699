use aleph_network::event::{Event, NetworkEventStream, Polled, Step, SubstrateEvent, SyncEvent};
use aleph_network::naming::{Protocol, ProtocolNaming};
use aleph_network::reserved::{ReservedSetChange, ReservedSetUpdate};
use libp2p_identity::PeerId;
use multiaddr::Multiaddr;

fn peer(tag: u8) -> PeerId {
    PeerId::from_bytes(&[0x00, 0x04, tag, 0x0a, 0x0b, 0x0c]).expect("an inline identifier")
}

fn stream() -> NetworkEventStream {
    NetworkEventStream::new(ProtocolNaming::new("chain_".to_string()))
}

fn both_names(change: ReservedSetChange) -> ReservedSetUpdate {
    ReservedSetUpdate {
        change,
        authentication_name: "chain_/auth/0".to_string(),
        block_sync_name: "chain_/sync/0".to_string(),
    }
}

#[test]
fn messages_keep_resolved_entries_in_order() {
    let b1 = vec![1u8, 2, 3];
    let b2 = vec![4u8, 5];
    let b3 = vec![6u8];
    let step = stream().step(Polled::Network(SubstrateEvent::NotificationsReceived {
        remote: peer(1),
        messages: vec![
            ("chain_/auth/0".to_string(), b1.clone()),
            ("unknown/proto".to_string(), b2),
            ("chain_/sync/0".to_string(), b3.clone()),
        ],
    }));
    assert_eq!(
        step,
        Step::Yield(Event::Messages(
            peer(1),
            vec![(Protocol::Authentication, b1), (Protocol::BlockSync, b3)]
        ))
    );
}

#[test]
fn messages_under_the_legacy_name_are_authentication_messages() {
    let resolved = stream().resolve_messages(vec![
        ("/aleph/1".to_string(), vec![9u8]),
        ("chain_/auth/0".to_string(), vec![8u8]),
        ("/aleph/1".to_string(), vec![]),
    ]);
    assert_eq!(
        resolved,
        vec![
            (Protocol::Authentication, vec![9u8]),
            (Protocol::Authentication, vec![8u8]),
            (Protocol::Authentication, vec![]),
        ]
    );
}

#[test]
fn a_batch_of_unknown_names_yields_an_empty_list() {
    let step = stream().step(Polled::Network(SubstrateEvent::NotificationsReceived {
        remote: peer(2),
        messages: vec![
            ("unknown/proto".to_string(), vec![1u8]),
            ("other_/auth/0".to_string(), vec![2u8]),
        ],
    }));
    assert_eq!(step, Step::Yield(Event::Messages(peer(2), vec![])));
}

#[test]
fn an_empty_batch_yields_an_empty_list() {
    let step = stream().on_network_event(SubstrateEvent::NotificationsReceived {
        remote: peer(2),
        messages: vec![],
    });
    assert_eq!(step, Step::Yield(Event::Messages(peer(2), vec![])));
}

#[test]
fn opened_substream_of_a_known_protocol_is_yielded() {
    let step = stream().step(Polled::Network(SubstrateEvent::NotificationStreamOpened {
        remote: peer(3),
        protocol: "chain_/sync/0".to_string(),
    }));
    assert_eq!(
        step,
        Step::Yield(Event::StreamOpened(peer(3), Protocol::BlockSync))
    );
    let step = stream().step(Polled::Network(SubstrateEvent::NotificationStreamOpened {
        remote: peer(3),
        protocol: "/aleph/1".to_string(),
    }));
    assert_eq!(
        step,
        Step::Yield(Event::StreamOpened(peer(3), Protocol::Authentication))
    );
}

#[test]
fn closed_substream_of_a_known_protocol_is_yielded() {
    let step = stream().step(Polled::Network(SubstrateEvent::NotificationStreamClosed {
        remote: peer(4),
        protocol: "chain_/auth/0".to_string(),
    }));
    assert_eq!(
        step,
        Step::Yield(Event::StreamClosed(peer(4), Protocol::Authentication))
    );
}

#[test]
fn substreams_of_unknown_protocols_are_skipped() {
    let step = stream().step(Polled::Network(SubstrateEvent::NotificationStreamOpened {
        remote: peer(5),
        protocol: "/ipfs/ping/1.0.0".to_string(),
    }));
    assert_eq!(step, Step::Skip);
    let step = stream().step(Polled::Network(SubstrateEvent::NotificationStreamClosed {
        remote: peer(5),
        protocol: "/auth/0".to_string(),
    }));
    assert_eq!(step, Step::Skip);
}

#[test]
fn other_transport_events_are_skipped() {
    assert_eq!(stream().step(Polled::Network(SubstrateEvent::Dht)), Step::Skip);
    assert_eq!(stream().on_network_event(SubstrateEvent::Dht), Step::Skip);
}

#[test]
fn a_connected_peer_is_reserved_at_its_p2p_address() {
    let remote = peer(6);
    let address: Multiaddr = format!("/p2p/{remote}").parse().expect("a valid address");
    let step = stream().step(Polled::Sync(SyncEvent::PeerConnected(remote)));
    assert_eq!(
        step,
        Step::Reserve(both_names(ReservedSetChange::Add(address)))
    );
}

#[test]
fn the_address_of_a_connected_peer_is_its_single_p2p_component() {
    let remote = peer(7);
    match stream().on_sync_event(SyncEvent::PeerConnected(remote)) {
        Step::Reserve(update) => match update.change {
            ReservedSetChange::Add(address) => {
                let components: Vec<_> = address.iter().collect();
                assert_eq!(components, vec![multiaddr::Protocol::P2p(remote)]);
                let mut bytes = vec![0xa5u8, 0x03, 0x06];
                bytes.extend_from_slice(&remote.to_bytes());
                assert_eq!(address.to_vec(), bytes);
            }
            other => panic!("expected an addition, got {other:?}"),
        },
        other => panic!("expected an update, got {other:?}"),
    }
}

#[test]
fn addresses_of_different_peers_differ() {
    let first = stream().on_sync_event(SyncEvent::PeerConnected(peer(1)));
    let second = stream().on_sync_event(SyncEvent::PeerConnected(peer(2)));
    assert_ne!(first, second);
}

#[test]
fn a_disconnected_peer_is_released() {
    let remote = peer(8);
    let step = stream().step(Polled::Sync(SyncEvent::PeerDisconnected(remote)));
    assert_eq!(
        step,
        Step::Reserve(both_names(ReservedSetChange::Remove(remote)))
    );
}

#[test]
fn connectivity_yields_no_logical_event() {
    for event in [
        SyncEvent::PeerConnected(peer(9)),
        SyncEvent::PeerDisconnected(peer(9)),
    ] {
        assert!(matches!(
            stream().step(Polled::Sync(event)),
            Step::Reserve(_)
        ));
    }
}

#[test]
fn the_stream_ends_when_both_sources_have_ended() {
    assert_eq!(stream().step(Polled::Exhausted), Step::Finished);
}

#[test]
fn the_stream_goes_on_while_a_source_yields() {
    let polls = vec![
        Polled::Network(SubstrateEvent::Dht),
        Polled::Network(SubstrateEvent::NotificationStreamOpened {
            remote: peer(1),
            protocol: "chain_/auth/0".to_string(),
        }),
        Polled::Network(SubstrateEvent::NotificationStreamClosed {
            remote: peer(1),
            protocol: "nothing".to_string(),
        }),
        Polled::Network(SubstrateEvent::NotificationsReceived {
            remote: peer(1),
            messages: vec![],
        }),
        Polled::Sync(SyncEvent::PeerConnected(peer(1))),
        Polled::Sync(SyncEvent::PeerDisconnected(peer(1))),
    ];
    let stream = stream();
    for polled in polls {
        assert_ne!(stream.step(polled), Step::Finished);
    }
}

#[test]
fn a_stream_resolves_with_the_naming_it_was_given() {
    let stream = NetworkEventStream::new(ProtocolNaming::new("other_".to_string()));
    assert_eq!(
        stream.naming().protocol_name(&Protocol::BlockSync),
        "other_/sync/0".to_string()
    );
    let step = stream.step(Polled::Network(SubstrateEvent::NotificationStreamOpened {
        remote: peer(1),
        protocol: "chain_/auth/0".to_string(),
    }));
    assert_eq!(step, Step::Skip);
    let step = stream.step(Polled::Network(SubstrateEvent::NotificationStreamOpened {
        remote: peer(1),
        protocol: "other_/auth/0".to_string(),
    }));
    assert_eq!(
        step,
        Step::Yield(Event::StreamOpened(peer(1), Protocol::Authentication))
    );
}
