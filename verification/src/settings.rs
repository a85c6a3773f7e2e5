//! Immutable settings snapshots.
//!
//! Each configuration change produces a fresh snapshot; tasks clone the live
//! snapshot at start and do not observe further changes mid-flight.

use vstd::prelude::*;

verus! {

/// Scope of an LDAP search.
#[derive(Clone, Copy, Debug, PartialEq, Eq, Structural)]
pub enum LdapSearchScope {
    Base,
    OneLevel,
    SubTree,
}

/// How an authentication is performed: a direct bind with a DN composed from
/// the user name, or a search for the user's entry followed by a bind.
#[derive(Clone, Copy, Debug, PartialEq, Eq, Structural)]
pub enum LdapAuthMode {
    Bind,
    SearchAndBind,
}

/// Reads one optional configuration string as the settings hold it: an empty
/// value means the option is unset.
pub fn config_string_to_option(s: String) -> (r: Option<String>)
    ensures
        s@.len() == 0 ==> r is None,
        s@.len() > 0 ==> r == Some(s),
{
    if s.as_str().unicode_len() == 0 {
        None
    } else {
        Some(s)
    }
}

/// Splits a freshly set sensitive configuration value into the secret the
/// settings keep and the mask the host shows in the value's place: the secret
/// is the value unchanged, and what stays externally visible is only the
/// mask, never the secret.
pub fn mask_password_config(value: String) -> (r: (String, String))
    ensures
        r.0 == value,
        r.1@ == "*********"@,
{
    (value, String::from_str("*********"))
}

/// Settings of the bind and search+bind flows.
#[derive(Debug)]
pub struct VkLdapSettings {
    pub bind_db_prefix: String,
    pub bind_db_suffix: String,
    pub search_base: Option<String>,
    pub search_scope: LdapSearchScope,
    pub search_filter: Option<String>,
    pub search_attribute: Option<String>,
    pub search_bind_dn: Option<String>,
    pub search_bind_passwd: Option<String>,
    pub search_dn_attribute: String,
}

impl VkLdapSettings {
    pub fn new(
        bind_db_prefix: String,
        bind_db_suffix: String,
        search_base: Option<String>,
        search_scope: LdapSearchScope,
        search_filter: Option<String>,
        search_attribute: Option<String>,
        search_bind_dn: Option<String>,
        search_bind_passwd: Option<String>,
        search_dn_attribute: String,
    ) -> (r: Self)
        ensures
            r == (VkLdapSettings {
                bind_db_prefix,
                bind_db_suffix,
                search_base,
                search_scope,
                search_filter,
                search_attribute,
                search_bind_dn,
                search_bind_passwd,
                search_dn_attribute,
            }),
    {
        VkLdapSettings {
            bind_db_prefix,
            bind_db_suffix,
            search_base,
            search_scope,
            search_filter,
            search_attribute,
            search_bind_dn,
            search_bind_passwd,
            search_dn_attribute,
        }
    }
}

/// Clones an optional string, keeping its value.
fn clone_opt_string(o: &Option<String>) -> (r: Option<String>)
    ensures
        r == *o,
{
    match o {
        Some(s) => Some(s.clone()),
        None => None,
    }
}

impl Clone for VkLdapSettings {
    fn clone(&self) -> (r: Self)
        ensures
            r == *self,
    {
        VkLdapSettings {
            bind_db_prefix: self.bind_db_prefix.clone(),
            bind_db_suffix: self.bind_db_suffix.clone(),
            search_base: clone_opt_string(&self.search_base),
            search_scope: self.search_scope,
            search_filter: clone_opt_string(&self.search_filter),
            search_attribute: clone_opt_string(&self.search_attribute),
            search_bind_dn: clone_opt_string(&self.search_bind_dn),
            search_bind_passwd: clone_opt_string(&self.search_bind_passwd),
            search_dn_attribute: self.search_dn_attribute.clone(),
        }
    }
}

impl Default for VkLdapSettings {
    /// Empty prefix and suffix, no search settings, sub-tree scope.
    fn default() -> (r: Self)
        ensures
            r.bind_db_prefix@ == Seq::<char>::empty(),
            r.bind_db_suffix@ == Seq::<char>::empty(),
            r.search_base is None,
            r.search_scope == LdapSearchScope::SubTree,
            r.search_filter is None,
            r.search_attribute is None,
            r.search_bind_dn is None,
            r.search_bind_passwd is None,
            r.search_dn_attribute@ == Seq::<char>::empty(),
    {
        VkLdapSettings {
            bind_db_prefix: String::new(),
            bind_db_suffix: String::new(),
            search_base: None,
            search_scope: LdapSearchScope::SubTree,
            search_filter: None,
            search_attribute: None,
            search_bind_dn: None,
            search_bind_passwd: None,
            search_dn_attribute: String::new(),
        }
    }
}

/// Settings of connection establishment and of the per-server pools.
/// A timeout of zero means unbounded.
#[derive(Debug)]
pub struct VkConnectionSettings {
    pub use_starttls: bool,
    pub ca_cert_path: Option<String>,
    pub client_cert_path: Option<String>,
    pub client_key_path: Option<String>,
    pub connection_pool_size: usize,
    pub timeout_connection_secs: u64,
    pub timeout_ldap_operation_secs: u64,
}

impl VkConnectionSettings {
    pub fn new(
        use_starttls: bool,
        ca_cert_path: Option<String>,
        client_cert_path: Option<String>,
        client_key_path: Option<String>,
        connection_pool_size: usize,
        timeout_connection_secs: u64,
        timeout_ldap_operation_secs: u64,
    ) -> (r: Self)
        ensures
            r == (VkConnectionSettings {
                use_starttls,
                ca_cert_path,
                client_cert_path,
                client_key_path,
                connection_pool_size,
                timeout_connection_secs,
                timeout_ldap_operation_secs,
            }),
    {
        VkConnectionSettings {
            use_starttls,
            ca_cert_path,
            client_cert_path,
            client_key_path,
            connection_pool_size,
            timeout_connection_secs,
            timeout_ldap_operation_secs,
        }
    }
}

impl Clone for VkConnectionSettings {
    fn clone(&self) -> (r: Self)
        ensures
            r == *self,
    {
        VkConnectionSettings {
            use_starttls: self.use_starttls,
            ca_cert_path: clone_opt_string(&self.ca_cert_path),
            client_cert_path: clone_opt_string(&self.client_cert_path),
            client_key_path: clone_opt_string(&self.client_key_path),
            connection_pool_size: self.connection_pool_size,
            timeout_connection_secs: self.timeout_connection_secs,
            timeout_ldap_operation_secs: self.timeout_ldap_operation_secs,
        }
    }
}

impl Default for VkConnectionSettings {
    /// No TLS, no certificate paths, an empty pool, ten-second timeouts.
    fn default() -> (r: Self)
        ensures
            r.use_starttls == false,
            r.ca_cert_path is None,
            r.client_cert_path is None,
            r.client_key_path is None,
            r.connection_pool_size == 0,
            r.timeout_connection_secs == 10,
            r.timeout_ldap_operation_secs == 10,
    {
        VkConnectionSettings {
            use_starttls: false,
            ca_cert_path: None,
            client_cert_path: None,
            client_key_path: None,
            connection_pool_size: 0,
            timeout_connection_secs: 10,
            timeout_ldap_operation_secs: 10,
        }
    }
}

} // verus!
