//! The tunnel as this engine sees it: the identity kept on disk, the
//! service's record of a tunnel, and the tags that mark a tunnel as ours.

use vstd::prelude::*;
use vstd::string::*;

verus! {

/// Tag carried by every tunnel that this agent made.
pub const APPLICATION_TAG: &'static str = "vscode-server-launcher";

/// What every protocol-version tag begins with.
pub const PROTOCOL_VERSION_TAG_PREFIX: &'static str = "pv=";

/// Token scope under which the service hands out a host token.
pub const HOST_SCOPE: &'static str = "host";

/// Where a tunnel lives on the service.
#[derive(Debug, PartialEq, Eq)]
pub struct TunnelLocator {
    pub cluster: String,
    pub id: String,
}

/// The mathematical value of a `TunnelLocator`.
pub struct TunnelLocatorView {
    pub cluster: Seq<char>,
    pub id: Seq<char>,
}

impl View for TunnelLocator {
    type V = TunnelLocatorView;

    open spec fn view(&self) -> TunnelLocatorView {
        TunnelLocatorView { cluster: self.cluster@, id: self.id@ }
    }
}

impl DeepView for TunnelLocator {
    type V = TunnelLocatorView;

    open spec fn deep_view(&self) -> TunnelLocatorView {
        self@
    }
}

impl Clone for TunnelLocator {
    fn clone(&self) -> (r: Self)
        ensures
            r == *self,
    {
        TunnelLocator { cluster: self.cluster.clone(), id: self.id.clone() }
    }
}

/// The identity of the launcher's tunnel, as it is kept on disk.
#[derive(Debug, PartialEq, Eq)]
pub struct PersistedTunnel {
    pub name: String,
    pub id: String,
    pub cluster: String,
}

/// The mathematical value of a `PersistedTunnel`.
pub struct PersistedTunnelView {
    pub name: Seq<char>,
    pub id: Seq<char>,
    pub cluster: Seq<char>,
}

impl PersistedTunnelView {
    /// Where the tunnel with this identity lives.
    pub open spec fn locator(self) -> TunnelLocatorView {
        TunnelLocatorView { cluster: self.cluster, id: self.id }
    }
}

impl View for PersistedTunnel {
    type V = PersistedTunnelView;

    open spec fn view(&self) -> PersistedTunnelView {
        PersistedTunnelView { name: self.name@, id: self.id@, cluster: self.cluster@ }
    }
}

impl DeepView for PersistedTunnel {
    type V = PersistedTunnelView;

    open spec fn deep_view(&self) -> PersistedTunnelView {
        self@
    }
}

impl Clone for PersistedTunnel {
    fn clone(&self) -> (r: Self)
        ensures
            r == *self,
    {
        PersistedTunnel {
            name: self.name.clone(),
            id: self.id.clone(),
            cluster: self.cluster.clone(),
        }
    }
}

impl PersistedTunnel {
    /// Turns the identity into the place where its tunnel lives.
    pub fn into_locator(self) -> (r: TunnelLocator)
        ensures
            r@ == self@.locator(),
    {
        TunnelLocator { cluster: self.cluster, id: self.id }
    }

    /// The place where the tunnel with this identity lives.
    pub fn locator(&self) -> (r: TunnelLocator)
        ensures
            r@ == self@.locator(),
    {
        TunnelLocator { cluster: self.cluster.clone(), id: self.id.clone() }
    }
}

/// A tunnel that already exists and whose host token the caller holds.
#[derive(Debug, PartialEq, Eq)]
pub struct ExistingTunnel {
    /// Name under which the tunnel is shown.
    pub tunnel_name: String,
    /// Token that allows hosting the tunnel.
    pub host_token: String,
    /// Identifier of the tunnel.
    pub tunnel_id: String,
    /// Cluster that holds the tunnel.
    pub cluster: String,
}

impl Clone for ExistingTunnel {
    fn clone(&self) -> (r: Self)
        ensures
            r == *self,
    {
        ExistingTunnel {
            tunnel_name: self.tunnel_name.clone(),
            host_token: self.host_token.clone(),
            tunnel_id: self.tunnel_id.clone(),
            cluster: self.cluster.clone(),
        }
    }
}

/// One entry of a tunnel's access tokens: the token granted for a scope.
#[derive(Debug, PartialEq, Eq)]
pub struct AccessToken {
    pub scope: String,
    pub token: String,
}

impl View for AccessToken {
    type V = (Seq<char>, Seq<char>);

    open spec fn view(&self) -> (Seq<char>, Seq<char>) {
        (self.scope@, self.token@)
    }
}

impl DeepView for AccessToken {
    type V = (Seq<char>, Seq<char>);

    open spec fn deep_view(&self) -> (Seq<char>, Seq<char>) {
        self@
    }
}

impl Clone for AccessToken {
    fn clone(&self) -> (r: Self)
        ensures
            r == *self,
    {
        AccessToken { scope: self.scope.clone(), token: self.token.clone() }
    }
}

/// The service's record of a tunnel, as far as the engine reads it.
#[derive(Debug, PartialEq, Eq)]
pub struct RemoteTunnel {
    /// Cluster that holds the tunnel, once the service has placed it.
    pub cluster_id: Option<String>,
    /// Identifier of the tunnel, once the service has given one.
    pub tunnel_id: Option<String>,
    /// Tags, in the order in which the service keeps them.
    pub tags: Vec<String>,
    /// Numbers of the forwarded ports.
    pub ports: Vec<u16>,
    /// Host identifiers of the endpoints published for the tunnel.
    pub endpoints: Vec<String>,
    /// Number of hosts connected now, where the service tells.
    pub host_connection_count: Option<u32>,
    /// Tokens granted with the record, by scope.
    pub access_tokens: Vec<AccessToken>,
}

/// The mathematical value of a `RemoteTunnel`.
pub struct RemoteTunnelView {
    pub cluster_id: Option<Seq<char>>,
    pub tunnel_id: Option<Seq<char>>,
    pub tags: Seq<Seq<char>>,
    pub ports: Seq<u16>,
    pub endpoints: Seq<Seq<char>>,
    pub host_connection_count: Option<u32>,
    pub access_tokens: Seq<(Seq<char>, Seq<char>)>,
}

impl View for RemoteTunnel {
    type V = RemoteTunnelView;

    open spec fn view(&self) -> RemoteTunnelView {
        RemoteTunnelView {
            cluster_id: self.cluster_id.deep_view(),
            tunnel_id: self.tunnel_id.deep_view(),
            tags: self.tags.deep_view(),
            ports: self.ports@,
            endpoints: self.endpoints.deep_view(),
            host_connection_count: self.host_connection_count,
            access_tokens: self.access_tokens.deep_view(),
        }
    }
}

impl DeepView for RemoteTunnel {
    type V = RemoteTunnelView;

    open spec fn deep_view(&self) -> RemoteTunnelView {
        self@
    }
}

impl Clone for RemoteTunnel {
    fn clone(&self) -> (r: Self)
        ensures
            r@ == self@,
    {
        let tags = self.tags.clone();
        let endpoints = self.endpoints.clone();
        let access_tokens = self.access_tokens.clone();
        RemoteTunnel {
            cluster_id: self.cluster_id.clone(),
            tunnel_id: self.tunnel_id.clone(),
            tags,
            ports: self.ports.clone(),
            endpoints,
            host_connection_count: self.host_connection_count,
            access_tokens,
        }
    }
}

/// The token granted for the host scope: that of the first entry with that
/// scope, if there is one.
pub open spec fn host_token_of(tokens: Seq<(Seq<char>, Seq<char>)>) -> Option<Seq<char>>
    decreases tokens.len(),
{
    if tokens.len() == 0 {
        None
    } else if tokens[0].0 == HOST_SCOPE@ {
        Some(tokens[0].1)
    } else {
        host_token_of(tokens.drop_first())
    }
}

/// A record with these tags and nothing else: what is sent to have a tunnel
/// created.
pub open spec fn draft_with(tags: Seq<Seq<char>>) -> RemoteTunnelView {
    RemoteTunnelView {
        cluster_id: None,
        tunnel_id: None,
        tags,
        ports: Seq::empty(),
        endpoints: Seq::empty(),
        host_connection_count: None,
        access_tokens: Seq::empty(),
    }
}

impl RemoteTunnelView {
    /// Where the tunnel lives, if the record says so.
    pub open spec fn locator(self) -> Option<TunnelLocatorView> {
        match (self.cluster_id, self.tunnel_id) {
            (Some(cluster), Some(id)) => Some(TunnelLocatorView { cluster, id }),
            _ => None,
        }
    }

    /// Number of hosts connected to the tunnel; a record that does not tell
    /// counts as none.
    pub open spec fn connections(self) -> nat {
        match self.host_connection_count {
            Some(n) => n as nat,
            None => 0,
        }
    }

    /// No host is connected, so the tunnel may be recycled.
    pub open spec fn is_idle(self) -> bool {
        self.connections() == 0
    }

    /// A host is connected and the tunnel carries `name` as a tag, so the
    /// name is taken.
    pub open spec fn holds_name(self, name: Seq<char>) -> bool {
        self.connections() > 0 && self.tags.contains(name)
    }

    /// The token granted for the host scope, if any.
    pub open spec fn host_token(self) -> Option<Seq<char>> {
        host_token_of(self.access_tokens)
    }
}

impl RemoteTunnel {
    /// A record that holds these tags and nothing else.
    pub fn draft(tags: Vec<String>) -> (r: RemoteTunnel)
        ensures
            r@ == draft_with(tags.deep_view()),
    {
        let r = RemoteTunnel {
            cluster_id: None,
            tunnel_id: None,
            tags,
            ports: Vec::new(),
            endpoints: Vec::new(),
            host_connection_count: None,
            access_tokens: Vec::new(),
        };
        assert(r@.endpoints =~= Seq::empty());
        assert(r@.access_tokens =~= Seq::empty());
        r
    }

    /// Where the tunnel lives, if the record holds both its cluster and its
    /// identifier.
    pub fn locator(&self) -> (r: Option<TunnelLocator>)
        ensures
            r.deep_view() == self@.locator(),
    {
        match (&self.cluster_id, &self.tunnel_id) {
            (Some(cluster), Some(id)) => Some(
                TunnelLocator { cluster: cluster.clone(), id: id.clone() },
            ),
            _ => None,
        }
    }

    /// Number of hosts connected to the tunnel.
    pub fn connections(&self) -> (r: u32)
        ensures
            r == self@.connections(),
    {
        match self.host_connection_count {
            Some(n) => n,
            None => 0,
        }
    }
}

/// Tells whether `list` holds a string equal to `wanted`.
pub fn contains_string(list: &Vec<String>, wanted: &String) -> (r: bool)
    ensures
        r == list.deep_view().contains(wanted@),
{
    let mut i: usize = 0;
    while i < list.len()
        invariant
            i <= list@.len(),
            forall|j: int| 0 <= j < i ==> list.deep_view()[j] != wanted@,
        decreases list@.len() - i,
    {
        if list[i] == *wanted {
            assert(list.deep_view()[i as int] == wanted@);
            return true;
        }
        i += 1;
    }
    false
}

/// Reads the host token out of a tunnel record.
///
/// Returns the token of the first access token whose scope is the host
/// scope, and `None` exactly when the record holds no such entry.
pub fn get_host_token_from_tunnel(tunnel: &RemoteTunnel) -> (r: Option<String>)
    ensures
        r.deep_view() == tunnel@.host_token(),
{
    let host = String::from_str(HOST_SCOPE);
    let ghost all = tunnel.access_tokens.deep_view();
    let mut i: usize = 0;
    assert(all.subrange(0, all.len() as int) =~= all);
    while i < tunnel.access_tokens.len()
        invariant
            host@ == HOST_SCOPE@,
            all == tunnel.access_tokens.deep_view(),
            i <= all.len(),
            host_token_of(all) == host_token_of(all.subrange(i as int, all.len() as int)),
        decreases all.len() - i,
    {
        let ghost rest = all.subrange(i as int, all.len() as int);
        assert(rest.drop_first() =~= all.subrange(i + 1, all.len() as int));
        if tunnel.access_tokens[i].scope == host {
            return Some(tunnel.access_tokens[i].token.clone());
        }
        i += 1;
    }
    None
}

} // verus!
