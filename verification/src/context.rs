//! The server registry: the authoritative ordered list of configured servers
//! with their health, and the two live settings snapshots.
//!
//! A server's identity is its positional index, assigned at insertion and
//! never re-assigned while the list stands; replacing the list assigns fresh
//! indices.  `find_server` picks the first healthy server, which makes
//! failover deterministic: for a fixed health pattern every pick lands on the
//! same server.

use vstd::prelude::*;

use crate::errors::VkLdapError;
use crate::server::{VkLdapServer, VkLdapServerStatus};
use crate::settings::{VkConnectionSettings, VkLdapSettings};
use crate::urls::LdapUrl;

verus! {

/// `k` is the position of the first healthy server of `s`.
pub open spec fn is_first_healthy(s: Seq<VkLdapServer>, k: int) -> bool {
    &&& 0 <= k < s.len()
    &&& s[k].status is HEALTHY
    &&& forall|j: int| 0 <= j < k ==> !((#[trigger] s[j]).status is HEALTHY)
}

/// The server list that replacing the configuration with `urls` produces: one
/// healthy-initial server per URL, indexed by position.
pub open spec fn servers_from_urls(urls: Seq<LdapUrl>) -> Seq<VkLdapServer> {
    Seq::new(
        urls.len(),
        |i: int|
            VkLdapServer {
                url: urls[i],
                id: i as usize,
                status: VkLdapServerStatus::HEALTHY,
                ping_time: None,
            },
    )
}

/// The server registry and the live settings snapshots.
pub struct VkLdapContext {
    pub servers: Vec<VkLdapServer>,
    pub ldap_settings: VkLdapSettings,
    pub connection_settings: VkConnectionSettings,
}

impl VkLdapContext {
    /// Index stability: every server's index is its position in the list.
    pub open spec fn wf(&self) -> bool {
        forall|i: int| 0 <= i < self.servers@.len() ==> (#[trigger] self.servers@[i]).id == i
    }

    /// An empty registry with default settings.
    pub fn new() -> (r: VkLdapContext)
        ensures
            r.servers@.len() == 0,
            r.wf(),
    {
        VkLdapContext {
            servers: Vec::new(),
            ldap_settings: Default::default(),
            connection_settings: Default::default(),
        }
    }

    /// A copy of the live LDAP settings snapshot.
    pub fn get_ldap_settings(&self) -> (r: VkLdapSettings)
        ensures
            r == self.ldap_settings,
    {
        self.ldap_settings.clone()
    }

    /// A copy of the live connection settings snapshot.
    pub fn get_connection_settings(&self) -> (r: VkConnectionSettings)
        ensures
            r == self.connection_settings,
    {
        self.connection_settings.clone()
    }

    /// Replaces the live LDAP settings snapshot.
    pub fn refresh_ldap_settings(&mut self, settings: VkLdapSettings)
        ensures
            final(self).ldap_settings == settings,
            final(self).servers == old(self).servers,
            final(self).connection_settings == old(self).connection_settings,
    {
        self.ldap_settings = settings;
    }

    /// Replaces the live connection settings snapshot.
    pub fn refresh_connection_settings(&mut self, settings: VkConnectionSettings)
        ensures
            final(self).connection_settings == settings,
            final(self).servers == old(self).servers,
            final(self).ldap_settings == old(self).ldap_settings,
    {
        self.connection_settings = settings;
    }

    /// Removes every server.
    pub fn clear_server_list(&mut self)
        ensures
            final(self).servers@.len() == 0,
            final(self).ldap_settings == old(self).ldap_settings,
            final(self).connection_settings == old(self).connection_settings,
            final(self).wf(),
    {
        self.servers.clear();
    }

    /// A server entry for `url` at the next free index, initially healthy.
    pub fn new_server(&self, url: LdapUrl) -> (r: VkLdapServer)
        ensures
            r.id == self.servers@.len(),
            r.url == url,
            r.status is HEALTHY,
            r.ping_time is None,
    {
        VkLdapServer::new(url, self.servers.len(), VkLdapServerStatus::HEALTHY)
    }

    /// Appends a server built for the next free index.
    pub fn add_server(&mut self, server: VkLdapServer)
        requires
            old(self).wf(),
            server.id == old(self).servers@.len(),
        ensures
            final(self).servers@ == old(self).servers@.push(server),
            final(self).ldap_settings == old(self).ldap_settings,
            final(self).connection_settings == old(self).connection_settings,
            final(self).wf(),
    {
        self.servers.push(server);
    }

    /// Replaces the whole server list: one healthy-initial server per URL, in
    /// order, indexed by position.
    pub fn set_servers(&mut self, urls: Vec<LdapUrl>)
        requires
            old(self).wf(),
        ensures
            final(self).servers@ == servers_from_urls(urls@),
            final(self).ldap_settings == old(self).ldap_settings,
            final(self).connection_settings == old(self).connection_settings,
            final(self).wf(),
    {
        self.clear_server_list();
        let n = urls.len();
        let mut rest = urls;
        let mut i: usize = 0;
        loop
            invariant
                i <= n,
                urls@.len() == n,
                rest@ == urls@.subrange(i as int, n as int),
                self.servers@ == servers_from_urls(urls@.subrange(0, i as int)),
                self.servers@.len() == i,
                self.ldap_settings == old(self).ldap_settings,
                self.connection_settings == old(self).connection_settings,
                self.wf(),
            decreases n - i,
        {
            if i == n {
                proof {
                    assert(urls@.subrange(0, n as int) =~= urls@);
                }
                return ;
            }
            let url = rest.remove(0);
            proof {
                assert(url == urls@[i as int]);
                assert(rest@ =~= urls@.subrange(i as int + 1, n as int));
            }
            let server = self.new_server(url);
            self.add_server(server);
            i = i + 1;
            proof {
                assert(self.servers@ =~= servers_from_urls(urls@.subrange(0, i as int)));
            }
        }
    }

    /// A snapshot of the server list, for the failure detector and for the
    /// status reporter.
    pub fn get_current_servers(&self) -> (r: Vec<VkLdapServer>)
        ensures
            r@ == self.servers@,
    {
        let mut res: Vec<VkLdapServer> = Vec::new();
        let n = self.servers.len();
        let mut i: usize = 0;
        while i < n
            invariant
                i <= n,
                n == self.servers@.len(),
                res@ == self.servers@.subrange(0, i as int),
            decreases n - i,
        {
            res.push(self.servers[i].clone());
            proof {
                assert(res@ =~= self.servers@.subrange(0, i + 1));
            }
            i = i + 1;
        }
        proof {
            assert(self.servers@.subrange(0, n as int) =~= self.servers@);
        }
        res
    }

    /// Writes a server's status and ping time.  A stale entry (an index from
    /// before a list replacement that no longer exists) is ignored.  Returns
    /// whether the health variant changed, so the caller can log the
    /// transition.
    pub fn update_server_status(
        &mut self,
        server: &VkLdapServer,
        status: VkLdapServerStatus,
        ping_time: Option<u64>,
    ) -> (changed: bool)
        requires
            old(self).wf(),
        ensures
            final(self).ldap_settings == old(self).ldap_settings,
            final(self).connection_settings == old(self).connection_settings,
            final(self).wf(),
            (server.id >= old(self).servers@.len() ==> {
                &&& final(self).servers == old(self).servers
                &&& !changed
            }),
            (server.id < old(self).servers@.len() ==> {
                let updated = VkLdapServer {
                    status: status,
                    ping_time: ping_time,
                    ..old(self).servers@[server.id as int]
                };
                &&& final(self).servers@ == old(self).servers@.update(server.id as int, updated)
                &&& changed == !old(self).servers@[server.id as int].status.same_variant(&status)
            }),
    {
        let id = server.get_id();
        if id >= self.servers.len() {
            return false;
        }
        let ghost pre = self.servers@;
        let entry = &mut self.servers[id];
        let changed = !(entry.status == status);
        entry.status = status;
        entry.ping_time = ping_time;
        proof {
            assert(self.servers@ =~= pre.update(
                id as int,
                VkLdapServer { status: self.servers@[id as int].status, ping_time, ..pre[id as int] },
            ));
        }
        changed
    }

    /// The first healthy server, as the failover policy picks it; or
    /// `NoServerConfigured` when the list is empty, `NoHealthyServerAvailable`
    /// when no server is healthy.
    pub fn find_server(&self) -> (r: Result<VkLdapServer, VkLdapError>)
        ensures
            (r matches Ok(srv) ==> exists|k: int| is_first_healthy(self.servers@, k) && srv
                == self.servers@[k]),
            r is Ok <==> exists|k: int| is_first_healthy(self.servers@, k),
            self.servers@.len() == 0 ==> r == Err::<VkLdapServer, VkLdapError>(
                VkLdapError::NoServerConfigured,
            ),
            (self.servers@.len() > 0 && !(exists|k: int| is_first_healthy(self.servers@, k)))
                ==> r == Err::<VkLdapServer, VkLdapError>(VkLdapError::NoHealthyServerAvailable),
    {
        let n = self.servers.len();
        if n == 0 {
            return Err(VkLdapError::NoServerConfigured);
        }
        let mut i: usize = 0;
        while i < n
            invariant
                i <= n,
                n == self.servers@.len(),
                forall|j: int| 0 <= j < i ==> !((#[trigger] self.servers@[j]).status is HEALTHY),
            decreases n - i,
        {
            if self.servers[i].is_healthy() {
                let srv = self.servers[i].clone();
                proof {
                    assert(is_first_healthy(self.servers@, i as int));
                }
                return Ok(srv);
            }
            i = i + 1;
        }
        assert forall|k: int| !is_first_healthy(self.servers@, k) by {}
        Err(VkLdapError::NoHealthyServerAvailable)
    }

    /// One failover step: marks the failed server unhealthy with the error's
    /// message (a stale index is ignored) and picks the next server as
    /// `find_server` does, on the updated list.
    pub fn failover_server(&mut self, failed: &VkLdapServer, err: &VkLdapError) -> (r: Result<
        VkLdapServer,
        VkLdapError,
    >)
        requires
            old(self).wf(),
        ensures
            final(self).ldap_settings == old(self).ldap_settings,
            final(self).connection_settings == old(self).connection_settings,
            final(self).wf(),
            (failed.id >= old(self).servers@.len() ==> final(self).servers == old(self).servers),
            final(self).servers@.len() == old(self).servers@.len(),
            (forall|j: int| 0 <= j < old(self).servers@.len() && j != failed.id ==> #[trigger] (
            final(self).servers@[j]) == old(self).servers@[j]),
            (failed.id < old(self).servers@.len() ==> {
                let marked = final(self).servers@[failed.id as int];
                &&& marked.url == old(self).servers@[failed.id as int].url
                &&& marked.id == old(self).servers@[failed.id as int].id
                &&& marked.ping_time is None
                &&& (marked.status matches VkLdapServerStatus::UNHEALTHY(m) && m@
                    == crate::errors::error_message_spec(err))
            }),
            (r matches Ok(srv) ==> exists|k: int| is_first_healthy(final(self).servers@, k) && srv
                == final(self).servers@[k]),
            r is Ok <==> exists|k: int| is_first_healthy(final(self).servers@, k),
            final(self).servers@.len() == 0 ==> r == Err::<VkLdapServer, VkLdapError>(
                VkLdapError::NoServerConfigured,
            ),
            (final(self).servers@.len() > 0 && !(exists|k: int|
                is_first_healthy(final(self).servers@, k))) ==> r == Err::<
                VkLdapServer,
                VkLdapError,
            >(VkLdapError::NoHealthyServerAvailable),
    {
        let msg = err.to_message();
        self.update_server_status(failed, VkLdapServerStatus::UNHEALTHY(msg), None);
        self.find_server()
    }
}

/// The status that a finished pool refresh leaves the server in: healthy on
/// success, unhealthy with the error's message on failure.
pub fn status_after_pool_refresh(res: &Result<(), VkLdapError>) -> (r: VkLdapServerStatus)
    ensures
        res is Ok ==> r is HEALTHY,
        (res matches Err(e) ==> r matches VkLdapServerStatus::UNHEALTHY(m) && m@
            == crate::errors::error_message_spec(e)),
{
    match res {
        Ok(_) => VkLdapServerStatus::HEALTHY,
        Err(e) => VkLdapServerStatus::UNHEALTHY(e.to_message()),
    }
}

/// Law (server index stability): in a well-formed registry every server's
/// index is its position.  Reads take `&self` and leave the list as it
/// stands, so snapshots taken with no list replacement in between agree on
/// every server's index.
pub proof fn lemma_server_index_stability(ctx: &VkLdapContext, i: int)
    requires
        ctx.wf(),
        0 <= i < ctx.servers@.len(),
    ensures
        ctx.servers@[i].id == i,
{
}

/// Law (failover determinism): when exactly one server is healthy, it is the
/// first healthy server, so every pick of the failover policy lands on it; and
/// overwriting any other server's status with an unhealthy one changes
/// nothing about that.
pub proof fn lemma_failover_deterministic(
    s: Seq<VkLdapServer>,
    k: int,
    i: int,
    marked: VkLdapServer,
)
    requires
        0 <= k < s.len(),
        s[k].status is HEALTHY,
        forall|j: int| 0 <= j < s.len() && j != k ==> !((#[trigger] s[j]).status is HEALTHY),
        0 <= i < s.len(),
        i != k,
        marked.status is UNHEALTHY,
    ensures
        forall|j: int| is_first_healthy(s, j) <==> j == k,
        forall|j: int| is_first_healthy(s.update(i, marked), j) <==> j == k,
{
    assert forall|j: int| is_first_healthy(s, j) implies j == k by {
        if j != k {
            assert(!(s[j].status is HEALTHY));
        }
    }
    assert(is_first_healthy(s, k));
    let s2 = s.update(i, marked);
    assert forall|j: int| is_first_healthy(s2, j) implies j == k by {
        if j != k {
            assert(!(s2[j].status is HEALTHY));
        }
    }
    assert(is_first_healthy(s2, k));
}

/// Law (health observability): after a status write on a live index, the next
/// snapshot of the server list carries exactly the written status and ping
/// time at that index.
pub proof fn lemma_health_observability(
    s: Seq<VkLdapServer>,
    id: int,
    status: VkLdapServerStatus,
    ping_time: Option<u64>,
)
    requires
        0 <= id < s.len(),
    ensures
        ({
            let updated = VkLdapServer { status: status, ping_time: ping_time, ..s[id] };
            let s2 = s.update(id, updated);
            &&& s2[id].status == status
            &&& s2[id].ping_time == ping_time
            &&& forall|j: int| 0 <= j < s.len() && j != id ==> s2[j] == s[j]
        }),
{
}

/// Law (server-list replacement): replacing the server list twice with the
/// same URLs leaves exactly one healthy-initial server per URL, the same
/// state as replacing it once.
pub proof fn lemma_set_servers_idempotent(urls: Seq<LdapUrl>)
    requires
        urls.len() <= usize::MAX,
    ensures
        servers_from_urls(urls).len() == urls.len(),
        forall|i: int| 0 <= i < urls.len() ==> (#[trigger] servers_from_urls(urls)[i]).status
            is HEALTHY,
        forall|i: int| 0 <= i < urls.len() ==> (#[trigger] servers_from_urls(urls)[i]).id == i,
{
}

} // verus!
