use http_proxy::config::Upstream;
use http_proxy::dispatch::{dispatch, Dispatch};
use http_proxy::message::Inbound;
use http_proxy::tunnel::{
    RelayOutcome, Tunnel, TunnelAction, TunnelEvent, TunnelFailure, TunnelState,
};
use http_proxy::uri::Destination;
use tokio::io::{AsyncReadExt, AsyncWriteExt};

fn tunnel_to(authority: &str) -> Tunnel {
    Tunnel::new(Destination::new(authority).unwrap())
}

fn dial(authority: &str) -> Option<TunnelAction> {
    Some(TunnelAction::Dial(Destination::new(authority).unwrap()))
}

fn all_events() -> Vec<TunnelEvent> {
    vec![
        TunnelEvent::ResponseSent,
        TunnelEvent::Upgraded,
        TunnelEvent::UpgradeFailed,
        TunnelEvent::Connected,
        TunnelEvent::ConnectFailed,
        TunnelEvent::RelayFinished { from_client: 1, from_server: 2 },
        TunnelEvent::RelayFailed,
    ]
}

fn relaying(authority: &str) -> Tunnel {
    let mut tunnel = tunnel_to(authority);
    tunnel.step(TunnelEvent::ResponseSent);
    tunnel.step(TunnelEvent::Upgraded);
    tunnel.step(TunnelEvent::Connected);
    assert_eq!(tunnel.state(), TunnelState::Relaying);
    tunnel
}

#[test]
fn new_tunnel_is_received() {
    let tunnel = tunnel_to("10.0.0.5:443");
    assert_eq!(tunnel.state(), TunnelState::Received);
    assert_eq!(tunnel.authority(), "10.0.0.5:443");
    assert!(!tunnel.is_over());
}

#[test]
fn tunnel_runs_from_request_to_close() {
    let mut tunnel = tunnel_to("10.0.0.5:443");
    assert_eq!(tunnel.step(TunnelEvent::ResponseSent), Some(TunnelAction::AwaitUpgrade));
    assert_eq!(tunnel.state(), TunnelState::Upgrading);
    match tunnel.step(TunnelEvent::Upgraded) {
        Some(TunnelAction::Dial(destination)) => assert_eq!(destination.as_str(), "10.0.0.5:443"),
        other => panic!("not a dial: {:?}", other),
    }
    assert_eq!(tunnel.state(), TunnelState::Connecting);
    assert_eq!(tunnel.step(TunnelEvent::Connected), Some(TunnelAction::Relay));
    assert_eq!(tunnel.state(), TunnelState::Relaying);
    assert!(!tunnel.is_over());
    let totals = RelayOutcome::Finished { from_client: 517, from_server: 4096 };
    assert_eq!(
        tunnel.step(TunnelEvent::RelayFinished { from_client: 517, from_server: 4096 }),
        Some(TunnelAction::Report(totals))
    );
    assert_eq!(tunnel.state(), TunnelState::Closed(totals));
    assert!(tunnel.is_over());
    assert_eq!(tunnel.authority(), "10.0.0.5:443");
}

#[test]
fn failed_upgrade_gives_the_tunnel_up() {
    let mut tunnel = tunnel_to("10.0.0.5:443");
    tunnel.step(TunnelEvent::ResponseSent);
    assert_eq!(
        tunnel.step(TunnelEvent::UpgradeFailed),
        Some(TunnelAction::Abandon(TunnelFailure::Upgrade))
    );
    assert_eq!(tunnel.state(), TunnelState::Failed(TunnelFailure::Upgrade));
    assert!(tunnel.is_over());
}

#[test]
fn failed_dial_gives_the_tunnel_up() {
    let mut tunnel = tunnel_to("10.0.0.5:443");
    tunnel.step(TunnelEvent::ResponseSent);
    tunnel.step(TunnelEvent::Upgraded);
    assert_eq!(
        tunnel.step(TunnelEvent::ConnectFailed),
        Some(TunnelAction::Abandon(TunnelFailure::Connect))
    );
    assert_eq!(tunnel.state(), TunnelState::Failed(TunnelFailure::Connect));
    assert!(tunnel.is_over());
}

#[test]
fn broken_relay_closes_the_tunnel() {
    let mut tunnel = relaying("10.0.0.5:443");
    assert_eq!(
        tunnel.step(TunnelEvent::RelayFailed),
        Some(TunnelAction::Report(RelayOutcome::Errored))
    );
    assert_eq!(tunnel.state(), TunnelState::Closed(RelayOutcome::Errored));
    assert!(tunnel.is_over());
}

#[test]
fn empty_relay_reports_zero_bytes() {
    let mut tunnel = relaying("10.0.0.5:443");
    tunnel.step(TunnelEvent::RelayFinished { from_client: 0, from_server: 0 });
    assert_eq!(
        tunnel.state(),
        TunnelState::Closed(RelayOutcome::Finished { from_client: 0, from_server: 0 })
    );
}

#[test]
fn totals_are_reported_as_counted() {
    let mut tunnel = relaying("10.0.0.5:443");
    tunnel.step(TunnelEvent::RelayFinished { from_client: u64::MAX, from_server: 1 });
    assert_eq!(
        tunnel.state(),
        TunnelState::Closed(RelayOutcome::Finished { from_client: u64::MAX, from_server: 1 })
    );
}

#[test]
fn tunnel_that_is_over_takes_no_event() {
    let mut closed = relaying("a:1");
    closed.step(TunnelEvent::RelayFailed);
    let mut failed = tunnel_to("a:1");
    failed.step(TunnelEvent::ResponseSent);
    failed.step(TunnelEvent::UpgradeFailed);
    for event in all_events() {
        assert_eq!(closed.step(event), None);
        assert_eq!(closed.state(), TunnelState::Closed(RelayOutcome::Errored));
        assert_eq!(closed.authority(), "a:1");
        assert_eq!(failed.step(event), None);
        assert_eq!(failed.state(), TunnelState::Failed(TunnelFailure::Upgrade));
        assert_eq!(failed.authority(), "a:1");
    }
}

#[test]
fn event_out_of_place_changes_nothing() {
    let mut tunnel = tunnel_to("a:1");
    for event in all_events() {
        if event != TunnelEvent::ResponseSent {
            assert_eq!(tunnel.step(event), None);
            assert_eq!(tunnel.state(), TunnelState::Received);
        }
    }
    tunnel.step(TunnelEvent::ResponseSent);
    for event in [
        TunnelEvent::ResponseSent,
        TunnelEvent::Connected,
        TunnelEvent::ConnectFailed,
        TunnelEvent::RelayFinished { from_client: 1, from_server: 2 },
        TunnelEvent::RelayFailed,
    ] {
        assert_eq!(tunnel.step(event), None);
        assert_eq!(tunnel.state(), TunnelState::Upgrading);
    }
    tunnel.step(TunnelEvent::Upgraded);
    for event in [
        TunnelEvent::ResponseSent,
        TunnelEvent::Upgraded,
        TunnelEvent::UpgradeFailed,
        TunnelEvent::RelayFinished { from_client: 1, from_server: 2 },
        TunnelEvent::RelayFailed,
    ] {
        assert_eq!(tunnel.step(event), None);
        assert_eq!(tunnel.state(), TunnelState::Connecting);
    }
    tunnel.step(TunnelEvent::Connected);
    for event in [
        TunnelEvent::ResponseSent,
        TunnelEvent::Upgraded,
        TunnelEvent::UpgradeFailed,
        TunnelEvent::Connected,
        TunnelEvent::ConnectFailed,
    ] {
        assert_eq!(tunnel.step(event), None);
        assert_eq!(tunnel.state(), TunnelState::Relaying);
    }
}

/// A tunnel that has taken the first `steps` events of an untroubled run.
fn after(steps: usize) -> Tunnel {
    let run = [TunnelEvent::ResponseSent, TunnelEvent::Upgraded, TunnelEvent::Connected];
    let mut tunnel = tunnel_to("a:1");
    for event in run.into_iter().take(steps) {
        assert!(tunnel.step(event).is_some());
    }
    tunnel
}

#[test]
fn failure_comes_only_from_upgrading_or_connecting() {
    for steps in 0..=3 {
        for event in all_events() {
            let start = after(steps).state();
            let mut tunnel = after(steps);
            tunnel.step(event);
            if let TunnelState::Failed(_) = tunnel.state() {
                assert!(matches!(start, TunnelState::Upgrading | TunnelState::Connecting));
            }
        }
    }
}

/// A client asks for a tunnel, gets its 200, and exchanges bytes with the
/// destination over two in-memory streams that stand for the sockets. The
/// copying is tokio's; the tunnel reports what it counted.
#[test]
fn connect_scenario_reports_both_totals() {
    let request_bytes: usize = 1500;
    let response_bytes: usize = 70_000;

    let inbound = Inbound { method: "CONNECT".to_string(), target: "10.0.0.5:443".to_string(), payload: () };
    let (reply, mut tunnel) = match dispatch(inbound, &Upstream::default()) {
        Ok(Dispatch::Tunnel { reply, tunnel, .. }) => (reply, tunnel),
        other => panic!("not a tunnel: {:?}", other),
    };
    assert_eq!(reply.status, 200);
    assert!(reply.body.is_empty());

    assert_eq!(tunnel.step(TunnelEvent::ResponseSent), Some(TunnelAction::AwaitUpgrade));
    assert_eq!(tunnel.step(TunnelEvent::Upgraded), dial("10.0.0.5:443"));
    assert_eq!(tunnel.step(TunnelEvent::Connected), Some(TunnelAction::Relay));

    let runtime = tokio::runtime::Builder::new_current_thread().build().unwrap();
    let (from_client, from_server) = runtime.block_on(async move {
        let (mut client, mut proxy_front) = tokio::io::duplex(1024);
        let (mut proxy_back, mut destination) = tokio::io::duplex(1024);

        let client_side = tokio::spawn(async move {
            client.write_all(&vec![7u8; request_bytes]).await.unwrap();
            client.shutdown().await.unwrap();
            let mut received = Vec::new();
            client.read_to_end(&mut received).await.unwrap();
            received
        });
        let destination_side = tokio::spawn(async move {
            let mut received = Vec::new();
            destination.read_to_end(&mut received).await.unwrap();
            destination.write_all(&vec![9u8; response_bytes]).await.unwrap();
            destination.shutdown().await.unwrap();
            received
        });

        let totals = tokio::io::copy_bidirectional(&mut proxy_front, &mut proxy_back).await.unwrap();
        assert_eq!(destination_side.await.unwrap(), vec![7u8; request_bytes]);
        assert_eq!(client_side.await.unwrap(), vec![9u8; response_bytes]);
        totals
    });

    let action = tunnel.step(TunnelEvent::RelayFinished { from_client, from_server });
    let expected =
        RelayOutcome::Finished { from_client: request_bytes as u64, from_server: response_bytes as u64 };
    assert_eq!(action, Some(TunnelAction::Report(expected)));
    assert_eq!(tunnel.state(), TunnelState::Closed(expected));
}
