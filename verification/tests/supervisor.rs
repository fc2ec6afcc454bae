use tunnel_lifecycle::active::{
    render_port_uri, ActiveTunnelManager, EndpointPoll, KillStep, PortUriPoll, RelayRequest,
    TunnelPort,
};
use tunnel_lifecycle::dev_tunnels::{confirm_start, DevTunnels, StartOutcome};
use tunnel_lifecycle::errors::{AnyError, HttpError, WrappedError};
use tunnel_lifecycle::launcher::{LaunchPlan, Settings};
use tunnel_lifecycle::protocol::{Request, RequestOptions};
use tunnel_lifecycle::supervisor::{
    Command, Endpoint, Signal, Supervisor, Turn, BASE_DELAY, MAX_DELAY,
};
use tunnel_lifecycle::tokens::{
    AccessTokenProvider, LookupAccessTokenProvider, StaticAccessTokenProvider, TokenStep,
};
use tunnel_lifecycle::tunnel::{AccessToken, ExistingTunnel, RemoteTunnel, TunnelLocator};

const SECOND: u128 = 1_000_000_000;

fn settings() -> Settings {
    Settings {
        protocol_version: 1,
        control_port: 31545,
        interactive: false,
    }
}

fn endpoint() -> Endpoint {
    Endpoint {
        port_uri_format: Some("https://t1-{port}.relay.example".to_string()),
    }
}

fn locator() -> TunnelLocator {
    TunnelLocator {
        cluster: "C1".to_string(),
        id: "T1".to_string(),
    }
}

fn fixed(token: &str) -> AccessTokenProvider {
    AccessTokenProvider::Static(StaticAccessTokenProvider::new(token.to_string()))
}

fn looked_up(seed: Option<&str>) -> AccessTokenProvider {
    AccessTokenProvider::Lookup(LookupAccessTokenProvider::new(
        locator(),
        seed.map(|s| s.to_string()),
    ))
}

fn with_token(token: &str) -> RemoteTunnel {
    let mut t = RemoteTunnel::draft(Vec::new());
    t.access_tokens = vec![AccessToken {
        scope: "host".to_string(),
        token: token.to_string(),
    }];
    t
}

fn quiet(command: Command) -> Turn {
    Turn {
        publish: None,
        command,
    }
}

fn failure(context: &str, cause: &str) -> WrappedError {
    WrappedError {
        context: context.to_string(),
        cause: cause.to_string(),
    }
}

#[test]
fn the_delays_of_the_loop_are_five_seconds_and_two_minutes() {
    assert_eq!(BASE_DELAY, 5 * SECOND);
    assert_eq!(MAX_DELAY, 120 * SECOND);
}

#[test]
fn the_loop_connects_publishes_and_runs() {
    let (s, turn) = Supervisor::start(fixed("tok"));
    assert_eq!(
        turn,
        quiet(Command::Connect {
            token: "tok".to_string()
        })
    );
    let (s, turn) = s.advance(Signal::Connected(Ok(endpoint())));
    assert_eq!(
        turn,
        Turn {
            publish: Some(Ok(endpoint())),
            command: Command::Run
        }
    );
    assert!(!s.stopped());
}

#[test]
fn a_failed_connection_is_published_and_retried_after_a_growing_delay() {
    let (mut s, _) = Supervisor::start(fixed("tok"));
    for attempt in 1..=30u128 {
        let (next, turn) = s.advance(Signal::Connected(Err("refused".to_string())));
        assert_eq!(
            turn,
            Turn {
                publish: Some(Err(failure("error connecting to tunnel", "refused"))),
                command: Command::Sleep {
                    nanos: std::cmp::min(120 * SECOND, 5 * SECOND * attempt)
                }
            }
        );
        let (next, turn) = next.advance(Signal::Slept);
        assert_eq!(
            turn,
            quiet(Command::Connect {
                token: "tok".to_string()
            })
        );
        s = next;
    }
}

#[test]
fn a_connection_that_was_made_resets_the_delay() {
    let (s, _) = Supervisor::start(fixed("tok"));
    let (s, _) = s.advance(Signal::Connected(Err("a".to_string())));
    let (s, _) = s.advance(Signal::Slept);
    let (s, turn) = s.advance(Signal::Connected(Err("b".to_string())));
    assert_eq!(turn.command, Command::Sleep { nanos: 10 * SECOND });
    let (s, _) = s.advance(Signal::Slept);
    let (s, _) = s.advance(Signal::Connected(Ok(endpoint())));
    let (_, turn) = s.advance(Signal::Exited(Err("dropped".to_string())));
    assert_eq!(
        turn,
        Turn {
            publish: Some(Err(failure("error from tunnel connection", "dropped"))),
            command: Command::Sleep { nanos: 5 * SECOND }
        }
    );
}

#[test]
fn a_connection_that_ends_by_itself_is_not_published_but_waited_after() {
    let (s, _) = Supervisor::start(fixed("tok"));
    let (s, _) = s.advance(Signal::Connected(Ok(endpoint())));
    let (s, turn) = s.advance(Signal::Exited(Ok(())));
    assert_eq!(turn, quiet(Command::Sleep { nanos: 5 * SECOND }));
    let (_, turn) = s.advance(Signal::Slept);
    assert_eq!(
        turn,
        quiet(Command::Connect {
            token: "tok".to_string()
        })
    );
}

#[test]
fn the_loop_closes_the_connection_when_asked_and_then_stops() {
    let (s, _) = Supervisor::start(fixed("tok"));
    let (s, _) = s.advance(Signal::Connected(Ok(endpoint())));
    let (s, turn) = s.advance(Signal::CloseRequested);
    assert_eq!(turn, quiet(Command::Close));
    assert!(!s.stopped());
    let (s, turn) = s.advance(Signal::Closed);
    assert_eq!(turn, quiet(Command::Stop));
    assert!(s.stopped());
    let (s, turn) = s.advance(Signal::Slept);
    assert_eq!(turn, quiet(Command::Stop));
    assert!(s.stopped());
}

#[test]
fn a_signal_that_answers_nothing_is_ignored() {
    let (s, _) = Supervisor::start(fixed("tok"));
    let (s, turn) = s.advance(Signal::CloseRequested);
    assert_eq!(turn, quiet(Command::Ignore));
    let (s, turn) = s.advance(Signal::Slept);
    assert_eq!(turn, quiet(Command::Ignore));
    let (_, turn) = s.advance(Signal::Connected(Ok(endpoint())));
    assert_eq!(turn.command, Command::Run);
}

#[test]
fn the_first_token_is_used_once_and_later_ones_are_looked_up() {
    let (s, turn) = Supervisor::start(looked_up(Some("seed")));
    assert_eq!(
        turn,
        quiet(Command::Connect {
            token: "seed".to_string()
        })
    );
    let (s, _) = s.advance(Signal::Connected(Err("refused".to_string())));
    let (s, turn) = s.advance(Signal::Slept);
    assert_eq!(
        turn,
        quiet(Command::Lookup(Request::GetTunnel {
            locator: locator(),
            options: RequestOptions::token()
        }))
    );
    let (_, turn) = s.advance(Signal::Looked(Ok(with_token("fresh"))));
    assert_eq!(
        turn,
        quiet(Command::Connect {
            token: "fresh".to_string()
        })
    );
}

#[test]
fn a_failed_lookup_is_published_and_retried() {
    let (s, turn) = Supervisor::start(looked_up(None));
    assert!(matches!(turn.command, Command::Lookup(_)));
    let (s, turn) = s.advance(Signal::Looked(Err(HttpError {
        status: Some(500),
        body: "down".to_string(),
    })));
    assert_eq!(
        turn,
        Turn {
            publish: Some(Err(failure(
                "failed to lookup tunnel for host token",
                "down"
            ))),
            command: Command::Sleep { nanos: 5 * SECOND }
        }
    );
    let (s, _) = s.advance(Signal::Slept);
    let (_, turn) = s.advance(Signal::Looked(Ok(RemoteTunnel::draft(Vec::new()))));
    assert_eq!(
        turn,
        Turn {
            publish: Some(Err(failure(
                "failed to lookup tunnel for host token",
                "the tunnel holds no host token"
            ))),
            command: Command::Sleep { nanos: 10 * SECOND }
        }
    );
}

#[test]
fn the_providers_hand_out_their_tokens() {
    let fixed = StaticAccessTokenProvider::new("tok".to_string());
    assert_eq!(fixed.refresh_token(), Ok("tok".to_string()));
    assert_eq!(fixed.refresh_token(), Ok("tok".to_string()));
    let mut lookup = LookupAccessTokenProvider::new(locator(), Some("seed".to_string()));
    assert_eq!(
        lookup.refresh_token(),
        TokenStep::Ready(Ok("seed".to_string()))
    );
    assert_eq!(
        lookup.refresh_token(),
        TokenStep::Lookup(Request::GetTunnel {
            locator: locator(),
            options: RequestOptions::token()
        })
    );
    assert_eq!(
        LookupAccessTokenProvider::token_from_lookup(Ok(with_token("t"))),
        Ok("t".to_string())
    );
}

#[test]
fn the_endpoint_is_waited_for_until_something_is_published() {
    let (mut manager, _, _) = ActiveTunnelManager::new(fixed("tok"));
    assert_eq!(manager.get_endpoint(), EndpointPoll::Wait);
    manager.published(Err(failure("error connecting to tunnel", "refused")));
    assert_eq!(
        manager.get_endpoint(),
        EndpointPoll::Ready(Err(AnyError::WrappedError(failure(
            "error connecting to tunnel",
            "refused"
        ))))
    );
    manager.published(Ok(endpoint()));
    assert_eq!(manager.get_endpoint(), EndpointPoll::Ready(Ok(endpoint())));
    manager.abandoned();
    assert_eq!(manager.get_endpoint(), EndpointPoll::Ready(Ok(endpoint())));
}

#[test]
fn a_loop_that_goes_without_publishing_cancels_the_wait() {
    let (mut manager, _, _) = ActiveTunnelManager::new(fixed("tok"));
    manager.abandoned();
    assert_eq!(
        manager.get_endpoint(),
        EndpointPoll::Ready(Err(AnyError::DevTunnelError(
            "tunnel creation cancelled".to_string()
        )))
    );
}

#[test]
fn a_graceful_shutdown_unregisters_and_cancels_every_later_wait() {
    let tunnels = DevTunnels::new(settings());
    let hosting = tunnels.host_launcher_tunnel(LaunchPlan {
        locator: locator(),
        name: "dev".to_string(),
        id: "T1".to_string(),
        host_token: "tok".to_string(),
    });
    let mut tunnel = hosting.tunnel;
    assert_eq!(tunnel.name, "dev");
    assert_eq!(tunnel.id, "T1");
    assert_eq!(
        hosting.first_turn,
        quiet(Command::Connect {
            token: "tok".to_string()
        })
    );
    let (supervisor, turn) = hosting
        .supervisor
        .advance(Signal::Connected(Ok(endpoint())));
    tunnel.published(turn.publish.unwrap());
    assert_eq!(turn.command, Command::Run);
    assert_eq!(
        tunnel.get_port_uri(8080),
        PortUriPoll::Ready(Ok("https://t1-8080.relay.example".to_string()))
    );

    // The owner closes the tunnel while the connection runs.
    assert_eq!(
        tunnel.close(),
        vec![
            KillStep::DropCloseSender,
            KillStep::Unregister,
            KillStep::Drain
        ]
    );
    let (supervisor, turn) = supervisor.advance(Signal::CloseRequested);
    assert_eq!(turn.command, Command::Close);
    let (supervisor, turn) = supervisor.advance(Signal::Closed);
    assert_eq!(turn.command, Command::Stop);
    assert!(supervisor.stopped());
    tunnel.drained();
    assert_eq!(
        tunnel.get_port_uri(8080),
        PortUriPoll::Ready(Err(AnyError::DevTunnelError(
            "tunnel creation cancelled".to_string()
        )))
    );

    // A second close finds the signal given and changes nothing.
    assert_eq!(tunnel.close(), vec![KillStep::Unregister, KillStep::Drain]);
    tunnel.drained();
    tunnel.published(Ok(endpoint()));
    assert_eq!(
        tunnel.get_port_uri(1),
        PortUriPoll::Ready(Err(AnyError::DevTunnelError(
            "tunnel creation cancelled".to_string()
        )))
    );
}

#[test]
fn a_shutdown_gives_the_close_signal_once() {
    let (mut manager, _, _) = ActiveTunnelManager::new(fixed("tok"));
    manager.published(Ok(endpoint()));
    assert_eq!(
        manager.kill(),
        vec![
            KillStep::DropCloseSender,
            KillStep::Unregister,
            KillStep::Drain
        ]
    );
    // Until the loop is gone its last word stands.
    assert_eq!(manager.get_endpoint(), EndpointPoll::Ready(Ok(endpoint())));
    assert_eq!(manager.kill(), vec![KillStep::Unregister, KillStep::Drain]);
    manager.drained();
    assert_eq!(
        manager.get_endpoint(),
        EndpointPoll::Ready(Err(AnyError::DevTunnelError(
            "tunnel creation cancelled".to_string()
        )))
    );
    assert_eq!(
        RelayRequest::Unregister.failed("relay gone".to_string()),
        failure("error unregistering relay", "relay gone")
    );
}

#[test]
fn an_existing_tunnel_is_hosted_with_the_token_that_was_given() {
    let tunnels = DevTunnels::new(settings());
    let (hosting, place) = tunnels.start_existing_tunnel(ExistingTunnel {
        tunnel_name: "shared".to_string(),
        host_token: "given".to_string(),
        tunnel_id: "T9".to_string(),
        cluster: "C9".to_string(),
    });
    assert_eq!(
        place,
        TunnelLocator {
            cluster: "C9".to_string(),
            id: "T9".to_string()
        }
    );
    assert_eq!(hosting.tunnel.name, "shared");
    assert_eq!(hosting.tunnel.id, "T9");
    assert_eq!(hosting.tunnel.get_port_uri(80), PortUriPoll::Wait);
    assert_eq!(
        hosting.first_turn,
        quiet(Command::Connect {
            token: "given".to_string()
        })
    );
    let (s, _) = hosting
        .supervisor
        .advance(Signal::Connected(Err("x".to_string())));
    let (_, turn) = s.advance(Signal::Slept);
    assert_eq!(
        turn,
        quiet(Command::Connect {
            token: "given".to_string()
        })
    );
}

#[test]
fn ports_are_forwarded_with_the_protocol_left_to_the_relay() {
    let (manager, _, _) = ActiveTunnelManager::new(fixed("tok"));
    let auto = |port_number| TunnelPort {
        port_number,
        protocol: Some("auto".to_string()),
    };
    assert_eq!(manager.add_port_tcp(8080), RelayRequest::AddPort(auto(8080)));
    assert_eq!(
        manager.add_port_direct(9090),
        RelayRequest::AddPortRaw(auto(9090))
    );
    assert_eq!(manager.remove_port(8080), RelayRequest::RemovePort(8080));
    assert_eq!(
        manager.add_port_tcp(1).failed("full".to_string()),
        failure("error adding port to relay", "full")
    );
    assert_eq!(
        manager.remove_port(1).failed("unknown".to_string()),
        failure("error remove port from relay", "unknown")
    );
}

#[test]
fn the_address_of_a_port_is_the_pattern_with_the_number() {
    assert_eq!(
        render_port_uri("https://x-{port}.example/{port}", 443),
        "https://x-443.example/443"
    );
    assert_eq!(render_port_uri("no token", 1), "no token");
    assert_eq!(render_port_uri("{port}", 65535), "65535");
    assert_eq!(render_port_uri("{port}", 0), "0");
}

#[test]
fn an_endpoint_without_a_pattern_has_no_address_for_a_port() {
    let tunnels = DevTunnels::new(settings());
    let (hosting, _) = tunnels.start_existing_tunnel(ExistingTunnel {
        tunnel_name: "n".to_string(),
        host_token: "t".to_string(),
        tunnel_id: "i".to_string(),
        cluster: "c".to_string(),
    });
    let mut tunnel = hosting.tunnel;
    tunnel.published(Ok(Endpoint {
        port_uri_format: None,
    }));
    assert_eq!(
        tunnel.get_port_uri(80),
        PortUriPoll::Ready(Err(AnyError::DevTunnelError(
            "expected to have port format".to_string()
        )))
    );
}

#[test]
fn a_tunnel_whose_first_attempt_fails_is_shut_down_and_not_handed_out() {
    let tunnels = DevTunnels::new(settings());
    let (hosting, _) = tunnels.start_existing_tunnel(ExistingTunnel {
        tunnel_name: "n".to_string(),
        host_token: "t".to_string(),
        tunnel_id: "i".to_string(),
        cluster: "c".to_string(),
    });
    let refused = AnyError::WrappedError(failure("error connecting to tunnel", "refused"));
    match confirm_start(
        hosting.tunnel,
        Err(AnyError::WrappedError(failure(
            "error connecting to tunnel",
            "refused",
        ))),
    ) {
        StartOutcome::Failed {
            mut tunnel,
            error,
            shutdown,
        } => {
            assert_eq!(error, refused);
            assert_eq!(
                shutdown,
                vec![
                    KillStep::DropCloseSender,
                    KillStep::Unregister,
                    KillStep::Drain
                ]
            );
            assert_eq!(tunnel.close(), vec![KillStep::Unregister, KillStep::Drain]);
        }
        StartOutcome::Serving(_) => panic!("a failed start must not serve"),
    }
}

#[test]
fn a_tunnel_whose_first_attempt_succeeds_is_handed_out() {
    let tunnels = DevTunnels::new(settings());
    let (hosting, _) = tunnels.start_existing_tunnel(ExistingTunnel {
        tunnel_name: "n".to_string(),
        host_token: "t".to_string(),
        tunnel_id: "i".to_string(),
        cluster: "c".to_string(),
    });
    match confirm_start(hosting.tunnel, Ok(endpoint())) {
        StartOutcome::Serving(mut tunnel) => {
            assert_eq!(tunnel.name, "n");
            assert_eq!(
                tunnel.close(),
                vec![
                    KillStep::DropCloseSender,
                    KillStep::Unregister,
                    KillStep::Drain
                ]
            );
        }
        StartOutcome::Failed { .. } => panic!("a good start must serve"),
    }
}
