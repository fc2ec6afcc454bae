use tunnel_lifecycle::create::{collect_idle, CreateTunnel};
use tunnel_lifecycle::errors::{AnyError, HttpError, WrappedError};
use tunnel_lifecycle::protocol::{Ask, Reply, Request, RequestOptions, Step};
use tunnel_lifecycle::tunnel::{PersistedTunnel, RemoteTunnel, TunnelLocator};

const QUOTA: &str = "You've exceeded the 10 machine limit for the port fowarding service. Please remove other machines before trying to add this machine.";

fn strings(items: &[&str]) -> Vec<String> {
    items.iter().map(|s| s.to_string()).collect()
}

fn tunnel(cluster: &str, id: &str, tags: &[&str], connections: Option<u32>) -> RemoteTunnel {
    RemoteTunnel {
        cluster_id: Some(cluster.to_string()),
        tunnel_id: Some(id.to_string()),
        tags: strings(tags),
        ports: Vec::new(),
        endpoints: Vec::new(),
        host_connection_count: connections,
        access_tokens: Vec::new(),
    }
}

fn status(code: u16) -> HttpError {
    HttpError {
        status: Some(code),
        body: format!("status {}", code),
    }
}

fn create_request(name: &str, options: RequestOptions) -> Ask {
    Ask::Call(Request::CreateTunnel {
        tunnel: RemoteTunnel::draft(strings(&[name, "pv=1", "vscode-server-launcher"])),
        options,
    })
}

fn list_request() -> Ask {
    Ask::Call(Request::ListTunnels {
        tags: strings(&["vscode-server-launcher"]),
    })
}

fn next(step: Step<CreateTunnel, (PersistedTunnel, RemoteTunnel)>) -> (CreateTunnel, Ask) {
    match step {
        Step::Next(m, ask) => (m, ask),
        Step::Done(r) => panic!("the creation ended early: {:?}", r),
    }
}

fn done(
    step: Step<CreateTunnel, (PersistedTunnel, RemoteTunnel)>,
) -> Result<(PersistedTunnel, RemoteTunnel), AnyError> {
    match step {
        Step::Done(r) => r,
        Step::Next(_, ask) => panic!("the creation goes on: {:?}", ask),
    }
}

#[test]
fn a_creation_asks_for_the_tunnel_with_its_three_tags() {
    let (_, ask) = next(CreateTunnel::start("dev".to_string(), RequestOptions::host(), 1));
    assert_eq!(ask, create_request("dev", RequestOptions::host()));
}

#[test]
fn a_created_tunnel_is_persisted_before_it_is_handed_back() {
    let (m, _) = next(CreateTunnel::start("dev".to_string(), RequestOptions::none(), 1));
    let made = tunnel("C1", "T1", &["dev"], None);
    let (m, ask) = next(m.advance(Reply::Tunnel(Ok(made.clone()))));
    let expected = PersistedTunnel {
        name: "dev".to_string(),
        id: "T1".to_string(),
        cluster: "C1".to_string(),
    };
    assert_eq!(ask, Ask::Call(Request::SavePersisted(Some(expected.clone()))));
    let (persisted, returned) = done(m.advance(Reply::Saved(Ok(())))).unwrap();
    assert_eq!(persisted, expected);
    assert_eq!(returned, made);
}

#[test]
fn the_quota_is_met_by_recycling_one_idle_tunnel() {
    let (m, first) = next(CreateTunnel::start("dev".to_string(), RequestOptions::none(), 1));
    assert_eq!(first, create_request("dev", RequestOptions::none()));
    let (m, ask) = next(m.advance(Reply::Tunnel(Err(status(429)))));
    assert_eq!(ask, list_request());
    let idle = tunnel("C9", "OLD", &["old", "vscode-server-launcher"], Some(0));
    let (m, ask) = next(m.advance(Reply::Tunnels(Ok(vec![idle]))));
    assert_eq!(ask, Ask::Pick { count: 1 });
    let (m, ask) = next(m.advance(Reply::Picked(0)));
    assert_eq!(
        ask,
        Ask::Call(Request::DeleteTunnel {
            locator: TunnelLocator {
                cluster: "C9".to_string(),
                id: "OLD".to_string()
            }
        })
    );
    let (m, ask) = next(m.advance(Reply::Deleted(Ok(()))));
    assert_eq!(ask, create_request("dev", RequestOptions::none()));
    let (m, ask) = next(m.advance(Reply::Tunnel(Ok(tunnel("C1", "T1", &["dev"], None)))));
    assert_eq!(
        ask,
        Ask::Call(Request::SavePersisted(Some(PersistedTunnel {
            name: "dev".to_string(),
            id: "T1".to_string(),
            cluster: "C1".to_string(),
        })))
    );
    let (persisted, _) = done(m.advance(Reply::Saved(Ok(())))).unwrap();
    assert_eq!(persisted.id, "T1");
    assert_eq!(persisted.cluster, "C1");
    assert_eq!(persisted.name, "dev");
}

#[test]
fn only_idle_tunnels_are_candidates_for_recycling() {
    let list = vec![
        tunnel("C1", "busy", &[], Some(2)),
        tunnel("C2", "idle", &[], Some(0)),
        tunnel("C3", "silent", &[], None),
        tunnel("C4", "one", &[], Some(1)),
    ];
    assert_eq!(
        collect_idle(&list),
        vec![
            Some(TunnelLocator {
                cluster: "C2".to_string(),
                id: "idle".to_string()
            }),
            Some(TunnelLocator {
                cluster: "C3".to_string(),
                id: "silent".to_string()
            }),
        ]
    );
    let (m, _) = next(CreateTunnel::start("dev".to_string(), RequestOptions::none(), 1));
    let (m, _) = next(m.advance(Reply::Tunnel(Err(status(429)))));
    let (m, ask) = next(m.advance(Reply::Tunnels(Ok(list))));
    assert_eq!(ask, Ask::Pick { count: 2 });
    let (_, ask) = next(m.advance(Reply::Picked(1)));
    assert_eq!(
        ask,
        Ask::Call(Request::DeleteTunnel {
            locator: TunnelLocator {
                cluster: "C3".to_string(),
                id: "silent".to_string()
            }
        })
    );
}

#[test]
fn the_quota_with_nothing_to_recycle_is_a_failure() {
    let (m, _) = next(CreateTunnel::start("dev".to_string(), RequestOptions::none(), 1));
    let (m, _) = next(m.advance(Reply::Tunnel(Err(status(429)))));
    let busy = tunnel("C1", "busy", &[], Some(1));
    assert_eq!(
        done(m.advance(Reply::Tunnels(Ok(vec![busy])))),
        Err(AnyError::TunnelCreationFailed {
            name: "dev".to_string(),
            cause: QUOTA.to_string()
        })
    );
}

#[test]
fn the_quota_is_met_by_recycling_at_most_once() {
    let (m, _) = next(CreateTunnel::start("dev".to_string(), RequestOptions::none(), 1));
    let (m, _) = next(m.advance(Reply::Tunnel(Err(status(429)))));
    let (m, _) = next(m.advance(Reply::Tunnels(Ok(vec![tunnel("C", "I", &[], None)]))));
    let (m, _) = next(m.advance(Reply::Picked(0)));
    let (m, _) = next(m.advance(Reply::Deleted(Ok(()))));
    assert_eq!(
        done(m.advance(Reply::Tunnel(Err(status(429))))),
        Err(AnyError::TunnelCreationFailed {
            name: "dev".to_string(),
            cause: QUOTA.to_string()
        })
    );
}

#[test]
fn another_failure_of_the_service_ends_the_creation() {
    let (m, _) = next(CreateTunnel::start("dev".to_string(), RequestOptions::none(), 1));
    assert_eq!(
        done(m.advance(Reply::Tunnel(Err(HttpError {
            status: Some(500),
            body: "boom".to_string()
        })))),
        Err(AnyError::TunnelCreationFailed {
            name: "dev".to_string(),
            cause: "boom".to_string()
        })
    );
}

#[test]
fn a_failed_listing_ends_the_creation() {
    let (m, _) = next(CreateTunnel::start("dev".to_string(), RequestOptions::none(), 1));
    let (m, _) = next(m.advance(Reply::Tunnel(Err(status(429)))));
    assert_eq!(
        done(m.advance(Reply::Tunnels(Err(HttpError {
            status: None,
            body: "offline".to_string()
        })))),
        Err(AnyError::WrappedError(WrappedError {
            context: "error listing current tunnels".to_string(),
            cause: "offline".to_string()
        }))
    );
}

#[test]
fn a_failed_deletion_ends_the_creation() {
    let (m, _) = next(CreateTunnel::start("dev".to_string(), RequestOptions::none(), 1));
    let (m, _) = next(m.advance(Reply::Tunnel(Err(status(429)))));
    let (m, _) = next(m.advance(Reply::Tunnels(Ok(vec![tunnel("C", "I", &[], None)]))));
    let (m, _) = next(m.advance(Reply::Picked(0)));
    assert_eq!(
        done(m.advance(Reply::Deleted(Err(HttpError {
            status: Some(403),
            body: "denied".to_string()
        })))),
        Err(AnyError::WrappedError(WrappedError {
            context: "failed to execute `tunnel delete`".to_string(),
            cause: "denied".to_string()
        }))
    );
}

#[test]
fn a_failed_save_ends_the_creation() {
    let (m, _) = next(CreateTunnel::start("dev".to_string(), RequestOptions::none(), 1));
    let (m, _) = next(m.advance(Reply::Tunnel(Ok(tunnel("C1", "T1", &[], None)))));
    let failure = WrappedError {
        context: "writing".to_string(),
        cause: "disk full".to_string(),
    };
    assert_eq!(
        done(m.advance(Reply::Saved(Err(WrappedError {
            context: "writing".to_string(),
            cause: "disk full".to_string(),
        })))),
        Err(AnyError::WrappedError(failure))
    );
}

#[test]
fn a_tunnel_without_an_identity_is_a_failed_creation() {
    let (m, _) = next(CreateTunnel::start("dev".to_string(), RequestOptions::none(), 1));
    let mut nameless = tunnel("C1", "T1", &[], None);
    nameless.tunnel_id = None;
    assert_eq!(
        done(m.advance(Reply::Tunnel(Ok(nameless)))),
        Err(AnyError::TunnelCreationFailed {
            name: "dev".to_string(),
            cause: "the service returned a tunnel without a cluster or an identifier".to_string()
        })
    );
}

#[test]
fn an_answer_that_was_not_asked_for_ends_the_creation() {
    let (m, _) = next(CreateTunnel::start("dev".to_string(), RequestOptions::none(), 1));
    assert_eq!(
        done(m.advance(Reply::Deleted(Ok(())))),
        Err(AnyError::DevTunnelError(
            "the reply does not answer the pending request".to_string()
        ))
    );
}

#[test]
fn a_choice_out_of_range_ends_the_creation() {
    let (m, _) = next(CreateTunnel::start("dev".to_string(), RequestOptions::none(), 1));
    let (m, _) = next(m.advance(Reply::Tunnel(Err(status(429)))));
    let (m, _) = next(m.advance(Reply::Tunnels(Ok(vec![tunnel("C", "I", &[], None)]))));
    assert_eq!(
        done(m.advance(Reply::Picked(1))),
        Err(AnyError::DevTunnelError(
            "the reply does not answer the pending request".to_string()
        ))
    );
}
