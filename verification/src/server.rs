//! One configured LDAP server: its URL, its stable positional index, its
//! health status and the round-trip time of the last successful probe.

use vstd::prelude::*;

use crate::urls::LdapUrl;

verus! {

/// The health of one configured LDAP server.
#[derive(Debug)]
pub enum VkLdapServerStatus {
    HEALTHY,
    UNHEALTHY(String),
}

/// The textual form of a health status: `HEALTHY`, or `UNHEALTHY: [<message>]`.
pub open spec fn status_message_spec(st: &VkLdapServerStatus) -> Seq<char> {
    match st {
        VkLdapServerStatus::HEALTHY => "HEALTHY"@,
        VkLdapServerStatus::UNHEALTHY(m) => "UNHEALTHY: ["@ + m@ + "]"@,
    }
}

impl VkLdapServerStatus {
    /// True when both values are the same variant; the message carried by an
    /// unhealthy status does not take part in the comparison.
    pub open spec fn same_variant(&self, other: &Self) -> bool {
        (self is HEALTHY <==> other is HEALTHY)
    }

    /// The textual form of the status.
    pub fn message(&self) -> (r: String)
        ensures
            r@ == status_message_spec(self),
    {
        match self {
            VkLdapServerStatus::HEALTHY => String::from_str("HEALTHY"),
            VkLdapServerStatus::UNHEALTHY(m) => String::from_str("UNHEALTHY: [").concat(
                m.as_str(),
            ).concat("]"),
        }
    }
}

impl Clone for VkLdapServerStatus {
    fn clone(&self) -> (r: Self)
        ensures
            r == *self,
    {
        match self {
            VkLdapServerStatus::HEALTHY => VkLdapServerStatus::HEALTHY,
            VkLdapServerStatus::UNHEALTHY(m) => VkLdapServerStatus::UNHEALTHY(m.clone()),
        }
    }
}

impl PartialEq for VkLdapServerStatus {
    /// Statuses compare by variant alone, so a health transition is detected
    /// even when only the variant changes and the message differs.
    fn eq(&self, other: &Self) -> (r: bool) {
        match (self, other) {
            (VkLdapServerStatus::HEALTHY, VkLdapServerStatus::HEALTHY) => true,
            (VkLdapServerStatus::UNHEALTHY(_), VkLdapServerStatus::UNHEALTHY(_)) => true,
            _ => false,
        }
    }
}

impl vstd::std_specs::cmp::PartialEqSpecImpl for VkLdapServerStatus {
    open spec fn obeys_eq_spec() -> bool {
        true
    }

    open spec fn eq_spec(&self, other: &Self) -> bool {
        self.same_variant(other)
    }
}

/// One configured LDAP server.  The index is assigned at insertion and never
/// re-assigned; the URL is immutable for the life of the entry.
#[derive(Debug)]
pub struct VkLdapServer {
    pub url: LdapUrl,
    pub id: usize,
    pub status: VkLdapServerStatus,
    pub ping_time: Option<u64>,
}

impl Clone for VkLdapServer {
    fn clone(&self) -> (r: Self)
        ensures
            r == *self,
    {
        VkLdapServer {
            url: self.url.clone(),
            id: self.id,
            status: self.status.clone(),
            ping_time: self.ping_time,
        }
    }
}

impl VkLdapServer {
    /// The server's URL.
    pub open spec fn spec_url(&self) -> LdapUrl {
        self.url
    }

    /// The server's positional index.
    pub open spec fn spec_id(&self) -> usize {
        self.id
    }

    /// The server's health status.
    pub open spec fn spec_status(&self) -> &VkLdapServerStatus {
        &self.status
    }

    /// The round-trip time of the last successful probe, in microseconds.
    pub open spec fn spec_ping_time(&self) -> Option<u64> {
        self.ping_time
    }

    /// True exactly on a healthy status.
    pub open spec fn spec_is_healthy(&self) -> bool {
        self.status is HEALTHY
    }

    pub fn new(url: LdapUrl, id: usize, status: VkLdapServerStatus) -> (r: VkLdapServer)
        ensures
            r.spec_url() == url,
            r.spec_id() == id,
            *r.spec_status() == status,
            r.spec_ping_time() is None,
    {
        VkLdapServer { url, id, status, ping_time: None }
    }

    pub fn get_url_ref(&self) -> (r: &LdapUrl)
        ensures
            *r == self.spec_url(),
    {
        &self.url
    }

    pub fn get_id(&self) -> (r: usize)
        ensures
            r == self.spec_id(),
    {
        self.id
    }

    /// The host component of the server's URL, or the whole URL text when the
    /// URL has no host.
    pub fn get_host_string(&self) -> (r: String)
        ensures
            r@ == match self.spec_url().host {
                Some(h) => h@,
                None => self.spec_url().text@,
            },
    {
        match &self.url.host {
            Some(host) => host.clone(),
            None => self.url.text.clone(),
        }
    }

    pub fn is_healthy(&self) -> (r: bool)
        ensures
            r == self.spec_is_healthy(),
    {
        match &self.status {
            VkLdapServerStatus::HEALTHY => true,
            VkLdapServerStatus::UNHEALTHY(_) => false,
        }
    }

    pub fn get_status(&self) -> (r: VkLdapServerStatus)
        ensures
            r == *self.spec_status(),
    {
        self.status.clone()
    }

    pub fn set_status(&mut self, status: VkLdapServerStatus)
        ensures
            *final(self).spec_status() == status,
            final(self).spec_url() == old(self).spec_url(),
            final(self).spec_id() == old(self).spec_id(),
            final(self).spec_ping_time() == old(self).spec_ping_time(),
    {
        self.status = status;
    }

    pub fn set_ping_time(&mut self, ping_time: Option<u64>)
        ensures
            final(self).spec_ping_time() == ping_time,
            final(self).spec_url() == old(self).spec_url(),
            final(self).spec_id() == old(self).spec_id(),
            final(self).spec_status() == old(self).spec_status(),
    {
        self.ping_time = ping_time;
    }

    pub fn get_ping_time(&self) -> (r: Option<u64>)
        ensures
            r == self.spec_ping_time(),
    {
        self.ping_time
    }
}

} // verus!
