use tunnel_lifecycle::dev_tunnels::DevTunnels;
use tunnel_lifecycle::errors::{AnyError, HttpError, WrappedError};
use tunnel_lifecycle::launcher::{ports_to_delete, LaunchPlan, Settings, StartLauncher};
use tunnel_lifecycle::names::clean_hostname_for_tunnel;
use tunnel_lifecycle::protocol::{Ask, Reply, Request, RequestOptions, Step};
use tunnel_lifecycle::tunnel::{
    get_host_token_from_tunnel, AccessToken, PersistedTunnel, RemoteTunnel, TunnelLocator,
};

fn strings(items: &[&str]) -> Vec<String> {
    items.iter().map(|s| s.to_string()).collect()
}

fn settings() -> Settings {
    Settings {
        protocol_version: 2,
        control_port: 31545,
        interactive: false,
    }
}

fn token(scope: &str, token: &str) -> AccessToken {
    AccessToken {
        scope: scope.to_string(),
        token: token.to_string(),
    }
}

fn tunnel(cluster: &str, id: &str, tags: &[&str]) -> RemoteTunnel {
    RemoteTunnel {
        cluster_id: Some(cluster.to_string()),
        tunnel_id: Some(id.to_string()),
        tags: strings(tags),
        ports: Vec::new(),
        endpoints: Vec::new(),
        host_connection_count: None,
        access_tokens: vec![token("host", "tok")],
    }
}

fn persisted(name: &str, id: &str, cluster: &str) -> PersistedTunnel {
    PersistedTunnel {
        name: name.to_string(),
        id: id.to_string(),
        cluster: cluster.to_string(),
    }
}

fn locator(cluster: &str, id: &str) -> TunnelLocator {
    TunnelLocator {
        cluster: cluster.to_string(),
        id: id.to_string(),
    }
}

fn next(step: Step<StartLauncher, LaunchPlan>) -> (StartLauncher, Ask) {
    match step {
        Step::Next(m, ask) => (m, ask),
        Step::Done(r) => panic!("the launch ended early: {:?}", r),
    }
}

fn done(step: Step<StartLauncher, LaunchPlan>) -> Result<LaunchPlan, AnyError> {
    match step {
        Step::Done(r) => r,
        Step::Next(_, ask) => panic!("the launch goes on: {:?}", ask),
    }
}

fn wrapped(context: &str, cause: &str) -> AnyError {
    AnyError::WrappedError(WrappedError {
        context: context.to_string(),
        cause: cause.to_string(),
    })
}

fn get_request(cluster: &str, id: &str) -> Ask {
    Ask::Call(Request::GetTunnel {
        locator: locator(cluster, id),
        options: RequestOptions::host(),
    })
}

#[test]
fn the_first_run_creates_a_tunnel_named_after_the_host() {
    let tunnels = DevTunnels::new(settings());
    let (m, ask) = next(tunnels.start_new_launcher_tunnel(None, true));
    assert_eq!(ask, Ask::Call(Request::LoadPersisted));
    let (m, ask) = next(m.advance(Reply::Loaded(None)));
    assert_eq!(
        ask,
        Ask::Call(Request::ListTunnels {
            tags: strings(&["vscode-server-launcher"])
        })
    );
    let (m, ask) = next(m.advance(Reply::Tunnels(Ok(Vec::new()))));
    assert_eq!(ask, Ask::Hostname);
    let (m, ask) = next(m.advance(Reply::Hostname("Dev_Box 7".to_string())));
    assert_eq!(
        ask,
        Ask::Call(Request::CreateTunnel {
            tunnel: RemoteTunnel::draft(strings(&["dev-box-7", "pv=2", "vscode-server-launcher"])),
            options: RequestOptions::host()
        })
    );
    let (m, ask) = next(m.advance(Reply::Tunnel(Ok(tunnel("C1", "T1", &[])))));
    assert_eq!(
        ask,
        Ask::Call(Request::SavePersisted(Some(persisted("dev-box-7", "T1", "C1"))))
    );
    assert_eq!(
        done(m.advance(Reply::Saved(Ok(())))),
        Ok(LaunchPlan {
            locator: locator("C1", "T1"),
            name: "dev-box-7".to_string(),
            id: "T1".to_string(),
            host_token: "tok".to_string(),
        })
    );
}

#[test]
fn the_first_run_reads_the_host_name_of_this_machine() {
    let tunnels = DevTunnels::new(settings());
    let (m, _) = next(tunnels.start_new_launcher_tunnel(None, true));
    let (m, _) = next(m.step(Reply::Loaded(None)));
    let (_, ask) = next(m.step(Reply::Tunnels(Ok(Vec::new()))));
    match ask {
        Ask::Call(Request::CreateTunnel { tunnel, options }) => {
            assert_eq!(options, RequestOptions::host());
            assert_eq!(tunnel.tags.len(), 3);
            assert_eq!(tunnel.tags[1], "pv=2");
            assert_eq!(tunnel.tags[2], "vscode-server-launcher");
            let name = &tunnel.tags[0];
            assert!(name.len() >= 2);
            assert_eq!(*name, name.to_ascii_lowercase());
            assert_eq!(*name, clean_hostname_for_tunnel(name));
        }
        other => panic!("expected a creation, got {:?}", other),
    }
}

#[test]
fn a_free_preferred_name_is_used_on_the_first_run() {
    let tunnels = DevTunnels::new(settings());
    let (m, _) = next(tunnels.start_new_launcher_tunnel(Some("My-Box"), false));
    let (m, _) = next(m.advance(Reply::Loaded(None)));
    let (_, ask) = next(m.advance(Reply::Tunnels(Ok(Vec::new()))));
    assert_eq!(
        ask,
        Ask::Call(Request::CreateTunnel {
            tunnel: RemoteTunnel::draft(strings(&["my-box", "pv=2", "vscode-server-launcher"])),
            options: RequestOptions::host()
        })
    );
}

#[test]
fn a_persisted_tunnel_with_the_current_tag_is_hosted_as_it_is() {
    let tunnels = DevTunnels::new(settings());
    let (m, _) = next(tunnels.start_new_launcher_tunnel(Some("DEV"), false));
    let (m, ask) = next(m.advance(Reply::Loaded(Some(persisted("dev", "T1", "C1")))));
    assert_eq!(ask, get_request("C1", "T1"));
    let found = tunnel("C1", "T1", &["dev", "pv=2", "vscode-server-launcher"]);
    assert_eq!(
        done(m.advance(Reply::Tunnel(Ok(found)))),
        Ok(LaunchPlan {
            locator: locator("C1", "T1"),
            name: "dev".to_string(),
            id: "T1".to_string(),
            host_token: "tok".to_string(),
        })
    );
}

#[test]
fn a_persisted_tunnel_with_an_old_tag_has_its_tags_brought_up_to_date() {
    let tunnels = DevTunnels::new(settings());
    let (m, _) = next(tunnels.start_new_launcher_tunnel(None, false));
    let (m, _) = next(m.advance(Reply::Loaded(Some(persisted("dev", "T1", "C1")))));
    let mut found = tunnel("C1", "T1", &["dev", "pv=1", "vscode-server-launcher"]);
    found.ports = vec![80];
    let (m, ask) = next(m.advance(Reply::Tunnel(Ok(found))));
    let mut update = RemoteTunnel::draft(strings(&["dev", "vscode-server-launcher", "pv=2"]));
    update.cluster_id = Some("C1".to_string());
    update.tunnel_id = Some("T1".to_string());
    assert_eq!(
        ask,
        Ask::Call(Request::UpdateTunnel {
            tunnel: update,
            options: RequestOptions::host()
        })
    );
    let updated = tunnel("C1", "T1", &["dev", "vscode-server-launcher", "pv=2"]);
    assert_eq!(
        done(m.advance(Reply::Tunnel(Ok(updated)))).map(|p| p.name),
        Ok("dev".to_string())
    );
}

#[test]
fn a_failed_update_of_the_tags_is_handed_on() {
    let tunnels = DevTunnels::new(settings());
    let (m, _) = next(tunnels.start_new_launcher_tunnel(None, false));
    let (m, _) = next(m.advance(Reply::Loaded(Some(persisted("dev", "T1", "C1")))));
    let (m, _) = next(m.advance(Reply::Tunnel(Ok(tunnel("C1", "T1", &["dev"])))));
    assert_eq!(
        done(m.advance(Reply::Tunnel(Err(HttpError {
            status: Some(500),
            body: "no".to_string()
        })))),
        Err(wrapped("tunnel tag update failed", "no"))
    );
}

#[test]
fn stale_ports_and_endpoints_are_deleted_before_hosting() {
    let tunnels = DevTunnels::new(settings());
    let (m, _) = next(tunnels.start_new_launcher_tunnel(None, false));
    let (m, _) = next(m.advance(Reply::Loaded(Some(persisted("dev", "T1", "C1")))));
    let mut found = tunnel("C1", "T1", &["dev", "pv=2"]);
    found.ports = vec![8080, 31545, 3000];
    found.endpoints = strings(&["host-a", "host-b"]);
    let (m, ask) = next(m.advance(Reply::Tunnel(Ok(found))));
    assert_eq!(
        ask,
        Ask::Call(Request::DeleteTunnelPort {
            locator: locator("C1", "T1"),
            port: 8080
        })
    );
    let (m, ask) = next(m.advance(Reply::Deleted(Ok(()))));
    assert_eq!(
        ask,
        Ask::Call(Request::DeleteTunnelPort {
            locator: locator("C1", "T1"),
            port: 3000
        })
    );
    let (m, ask) = next(m.advance(Reply::Deleted(Ok(()))));
    assert_eq!(
        ask,
        Ask::Call(Request::DeleteTunnelEndpoints {
            locator: locator("C1", "T1"),
            host_id: "host-a".to_string()
        })
    );
    let (m, ask) = next(m.advance(Reply::Deleted(Ok(()))));
    assert_eq!(
        ask,
        Ask::Call(Request::DeleteTunnelEndpoints {
            locator: locator("C1", "T1"),
            host_id: "host-b".to_string()
        })
    );
    assert_eq!(
        done(m.advance(Reply::Deleted(Ok(())))).map(|p| p.host_token),
        Ok("tok".to_string())
    );
}

#[test]
fn the_control_port_is_never_deleted() {
    assert_eq!(ports_to_delete(&vec![31545], 31545), Vec::<u16>::new());
    assert_eq!(
        ports_to_delete(&vec![1, 31545, 2, 31545, 1], 31545),
        vec![1, 2, 1]
    );
    assert_eq!(ports_to_delete(&vec![1, 2], 3), vec![1, 2]);
}

#[test]
fn a_failed_deletion_of_a_port_or_an_endpoint_is_handed_on() {
    let tunnels = DevTunnels::new(settings());
    let failure = || HttpError {
        status: Some(500),
        body: "no".to_string(),
    };
    let (m, _) = next(tunnels.start_new_launcher_tunnel(None, false));
    let (m, _) = next(m.advance(Reply::Loaded(Some(persisted("dev", "T1", "C1")))));
    let mut found = tunnel("C1", "T1", &["pv=2"]);
    found.ports = vec![8080];
    found.endpoints = strings(&["host-a"]);
    let (m, _) = next(m.advance(Reply::Tunnel(Ok(found.clone()))));
    assert_eq!(
        done(m.advance(Reply::Deleted(Err(failure())))),
        Err(wrapped("failed to delete port", "no"))
    );

    let (m, _) = next(tunnels.start_new_launcher_tunnel(None, false));
    let (m, _) = next(m.advance(Reply::Loaded(Some(persisted("dev", "T1", "C1")))));
    let (m, _) = next(m.advance(Reply::Tunnel(Ok(found))));
    let (m, _) = next(m.advance(Reply::Deleted(Ok(()))));
    assert_eq!(
        done(m.advance(Reply::Deleted(Err(failure())))),
        Err(wrapped("failed to prune tunnel endpoint", "no"))
    );
}

#[test]
fn a_preferred_name_that_differs_renames_the_tunnel_first() {
    let tunnels = DevTunnels::new(settings());
    let (m, _) = next(tunnels.start_new_launcher_tunnel(Some("Other"), false));
    let (m, ask) = next(m.advance(Reply::Loaded(Some(persisted("dev", "T1", "C1")))));
    assert_eq!(
        ask,
        Ask::Call(Request::ListTunnels {
            tags: strings(&["vscode-server-launcher", "other"])
        })
    );
    let (m, ask) = next(m.advance(Reply::Tunnels(Ok(Vec::new()))));
    assert_eq!(
        ask,
        Ask::Call(Request::GetTunnel {
            locator: locator("C1", "T1"),
            options: RequestOptions::none()
        })
    );
    let found = tunnel("C1", "T1", &["dev", "pv=2", "vscode-server-launcher"]);
    let (m, ask) = next(m.advance(Reply::Tunnel(Ok(found.clone()))));
    let mut changed = found;
    changed.tags = strings(&["other", "vscode-server-launcher"]);
    assert_eq!(
        ask,
        Ask::Call(Request::UpdateTunnel {
            tunnel: changed.clone(),
            options: RequestOptions::none()
        })
    );
    let (m, ask) = next(m.advance(Reply::Tunnel(Ok(changed.clone()))));
    assert_eq!(
        ask,
        Ask::Call(Request::SavePersisted(Some(persisted("other", "T1", "C1"))))
    );
    let (m, ask) = next(m.advance(Reply::Saved(Ok(()))));
    assert_eq!(ask, get_request("C1", "T1"));
    // The rename left the version tag out: the start puts it back.
    let (m, ask) = next(m.advance(Reply::Tunnel(Ok(changed))));
    let mut update = RemoteTunnel::draft(strings(&["other", "vscode-server-launcher", "pv=2"]));
    update.cluster_id = Some("C1".to_string());
    update.tunnel_id = Some("T1".to_string());
    assert_eq!(
        ask,
        Ask::Call(Request::UpdateTunnel {
            tunnel: update,
            options: RequestOptions::host()
        })
    );
    let updated = tunnel("C1", "T1", &["other", "vscode-server-launcher", "pv=2"]);
    assert_eq!(
        done(m.advance(Reply::Tunnel(Ok(updated)))).map(|p| p.name),
        Ok("other".to_string())
    );
}

#[test]
fn a_preferred_name_that_differs_only_in_case_renames_nothing() {
    let tunnels = DevTunnels::new(settings());
    let (m, _) = next(tunnels.start_new_launcher_tunnel(Some("dev"), false));
    let (_, ask) = next(m.advance(Reply::Loaded(Some(persisted("DEV", "T1", "C1")))));
    assert_eq!(ask, get_request("C1", "T1"));
}

#[test]
fn a_persisted_tunnel_that_is_gone_is_created_again() {
    let tunnels = DevTunnels::new(settings());
    let (m, _) = next(tunnels.start_new_launcher_tunnel(None, false));
    let (m, _) = next(m.advance(Reply::Loaded(Some(persisted("dev", "T1", "C1")))));
    let (m, ask) = next(m.advance(Reply::Tunnel(Err(HttpError {
        status: Some(404),
        body: "gone".to_string(),
    }))));
    assert_eq!(
        ask,
        Ask::Call(Request::CreateTunnel {
            tunnel: RemoteTunnel::draft(strings(&["dev", "pv=2", "vscode-server-launcher"])),
            options: RequestOptions::host()
        })
    );
    let (m, _) = next(m.advance(Reply::Tunnel(Ok(tunnel("C2", "T2", &[])))));
    assert_eq!(
        done(m.advance(Reply::Saved(Ok(())))),
        Ok(LaunchPlan {
            locator: locator("C2", "T2"),
            name: "dev".to_string(),
            id: "T2".to_string(),
            host_token: "tok".to_string(),
        })
    );
}

#[test]
fn a_tunnel_without_a_host_token_cannot_be_hosted() {
    let tunnels = DevTunnels::new(settings());
    let (m, _) = next(tunnels.start_new_launcher_tunnel(None, false));
    let (m, _) = next(m.advance(Reply::Loaded(Some(persisted("dev", "T1", "C1")))));
    let mut found = tunnel("C1", "T1", &["pv=2"]);
    found.access_tokens = vec![token("connect", "other")];
    assert_eq!(
        done(m.advance(Reply::Tunnel(Ok(found)))),
        Err(AnyError::DevTunnelError(
            "the service returned a tunnel without a host token".to_string()
        ))
    );
}

#[test]
fn the_host_token_is_the_first_of_its_scope() {
    let mut t = tunnel("C", "T", &[]);
    t.access_tokens = vec![
        token("connect", "c"),
        token("host", "first"),
        token("host", "second"),
    ];
    assert_eq!(get_host_token_from_tunnel(&t), Some("first".to_string()));
    t.access_tokens = vec![token("Host", "x")];
    assert_eq!(get_host_token_from_tunnel(&t), None);
    t.access_tokens = Vec::new();
    assert_eq!(get_host_token_from_tunnel(&t), None);
}

#[test]
fn an_answer_that_was_not_asked_for_ends_the_launch() {
    let tunnels = DevTunnels::new(settings());
    let (m, _) = next(tunnels.start_new_launcher_tunnel(None, false));
    assert_eq!(
        done(m.advance(Reply::Saved(Ok(())))),
        Err(AnyError::DevTunnelError(
            "the reply does not answer the pending request".to_string()
        ))
    );
}
