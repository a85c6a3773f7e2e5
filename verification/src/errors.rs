//! The library's error taxonomy.
//!
//! Errors raised by the LDAP client, the TLS layer or the file system arrive
//! here as their textual descriptions; the variants keep the distinctions the
//! orchestrator and its callers act on.  `LdapConnectionError` is the
//! connection-class error recovered by failover; everything else is terminal.

use vstd::prelude::*;

use crate::text::push_char;

verus! {

#[derive(Debug)]
pub enum VkLdapError {
    /// A file could not be read: the failing action, and the I/O error text.
    IOError(String, String),
    /// A client certificate path is configured without a key path.
    NoTLSKeyPathSet,
    /// The TLS layer failed: the failing stage, and the TLS error text.
    TLSError(String, String),
    /// The bind operation failed on a well-formed LDAP response.
    LdapBindError(String),
    /// The admin bind in the search+bind flow failed.
    LdapAdminBindError(String),
    /// The search operation failed on a well-formed LDAP response.
    LdapSearchError(String),
    /// The transport failed (connect, TLS, timeout, unexpected EOF).
    LdapConnectionError(String),
    /// The WhoAmI probe failed on a well-formed LDAP response.
    LdapServerPingError(String),
    /// The search returned no entry: carries the search filter.
    NoLdapEntryFound(String),
    /// The search returned more than one entry: carries the search filter.
    MultipleEntryFound(String),
    /// The entry found lacks the configured DN attribute: carries its name.
    InvalidDNAttribute(String),
    /// The configured server list is empty.
    NoServerConfigured,
    /// Every configured server is unhealthy.
    NoHealthyServerAvailable,
    /// The failure-detector thread could not be joined.
    FailedToStopFailuredDetectorThread,
    /// The scheduler thread could not be joined.
    FailedToShutdownJobScheduler,
    /// A job could not be handed to the scheduler: the send-error text.
    FailedToSendJobToScheduler(String),
}

impl Clone for VkLdapError {
    fn clone(&self) -> (r: Self)
        ensures
            r == *self,
    {
        match self {
            VkLdapError::IOError(a, b) => VkLdapError::IOError(a.clone(), b.clone()),
            VkLdapError::NoTLSKeyPathSet => VkLdapError::NoTLSKeyPathSet,
            VkLdapError::TLSError(a, b) => VkLdapError::TLSError(a.clone(), b.clone()),
            VkLdapError::LdapBindError(m) => VkLdapError::LdapBindError(m.clone()),
            VkLdapError::LdapAdminBindError(m) => VkLdapError::LdapAdminBindError(m.clone()),
            VkLdapError::LdapSearchError(m) => VkLdapError::LdapSearchError(m.clone()),
            VkLdapError::LdapConnectionError(m) => VkLdapError::LdapConnectionError(m.clone()),
            VkLdapError::LdapServerPingError(m) => VkLdapError::LdapServerPingError(m.clone()),
            VkLdapError::NoLdapEntryFound(m) => VkLdapError::NoLdapEntryFound(m.clone()),
            VkLdapError::MultipleEntryFound(m) => VkLdapError::MultipleEntryFound(m.clone()),
            VkLdapError::InvalidDNAttribute(m) => VkLdapError::InvalidDNAttribute(m.clone()),
            VkLdapError::NoServerConfigured => VkLdapError::NoServerConfigured,
            VkLdapError::NoHealthyServerAvailable => VkLdapError::NoHealthyServerAvailable,
            VkLdapError::FailedToStopFailuredDetectorThread => VkLdapError::FailedToStopFailuredDetectorThread,
            VkLdapError::FailedToShutdownJobScheduler => VkLdapError::FailedToShutdownJobScheduler,
            VkLdapError::FailedToSendJobToScheduler(m) => VkLdapError::FailedToSendJobToScheduler(
                m.clone(),
            ),
        }
    }
}

/// `msg` with every NUL character removed.
pub open spec fn without_nul(msg: Seq<char>) -> Seq<char> {
    msg.filter(|c: char| c != '\0')
}

/// Removes every NUL character from a message.  Some directory servers send
/// messages with embedded NUL bytes; they are stripped before the message is
/// put in front of a reader.
pub fn strip_nul_chars(msg: &str) -> (r: String)
    ensures
        r@ == without_nul(msg@),
{
    let n: usize = msg.unicode_len();
    let mut out = String::new();
    let mut i: usize = 0;
    while i < n
        invariant
            i <= n,
            n == msg@.len(),
            out@ == without_nul(msg@.subrange(0, i as int)),
        decreases n - i,
    {
        let c = msg.get_char(i);
        proof {
            assert(msg@.subrange(0, i + 1).drop_last() =~= msg@.subrange(0, i as int));
            assert(msg@.subrange(0, i + 1).last() == msg@[i as int]);
            reveal_with_fuel(Seq::filter, 2);
        }
        if c != '\0' {
            push_char(&mut out, c);
        }
        i = i + 1;
    }
    proof {
        assert(msg@.subrange(0, n as int) =~= msg@);
    }
    out
}

/// The textual form of each error, for logs and for the host's replies.
pub open spec fn error_message_spec(e: &VkLdapError) -> Seq<char> {
    match e {
        VkLdapError::NoTLSKeyPathSet => "no TLS key path specified. Please set the path for ldap.tls_key_path config"@,
        VkLdapError::IOError(msg, ioerr) => msg@ + ": "@ + ioerr@,
        VkLdapError::TLSError(msg, tlserr) => msg@ + ": "@ + tlserr@,
        VkLdapError::LdapBindError(m) => "error in bind operation: "@ + without_nul(m@),
        VkLdapError::LdapAdminBindError(m) => "error in binding admin user: "@ + without_nul(m@),
        VkLdapError::LdapSearchError(m) => "failed to search ldap user: "@ + without_nul(m@),
        VkLdapError::LdapConnectionError(m) => "LDAP connection failure: "@ + without_nul(m@),
        VkLdapError::LdapServerPingError(m) => "failed to run WhoAmI command on the ldap server: "@
            + without_nul(m@),
        VkLdapError::NoLdapEntryFound(filter) => "search filter '"@ + filter@
            + "' returned no entries"@,
        VkLdapError::MultipleEntryFound(filter) => "search filter '"@ + filter@
            + "' returned multiple entries"@,
        VkLdapError::InvalidDNAttribute(attribute) => "the user entry does not have the '"@
            + attribute@ + "' attribute to get the user DN"@,
        VkLdapError::NoServerConfigured => "no server set in configuration. Please set ldap.servers config option"@,
        VkLdapError::NoHealthyServerAvailable => "all servers set in configuration are unhealthy. Please check the logs for more information"@,
        VkLdapError::FailedToStopFailuredDetectorThread => "failed to wait for the failure detector thread to finish"@,
        VkLdapError::FailedToShutdownJobScheduler => "failed to shutdown job scheduler. Please check the logs for more information"@,
        VkLdapError::FailedToSendJobToScheduler(errmsg) => "failed to send job to scheduler: "@
            + errmsg@,
    }
}

impl VkLdapError {
    /// True exactly on the connection-class error, the one the failover loop
    /// recovers from by marking the server unhealthy and trying the next.
    pub fn is_connection_error(&self) -> (r: bool)
        ensures
            r == (self is LdapConnectionError),
    {
        match self {
            VkLdapError::LdapConnectionError(_) => true,
            _ => false,
        }
    }

    /// The textual form of the error.
    pub fn to_message(&self) -> (r: String)
        ensures
            r@ == error_message_spec(self),
    {
        match self {
            VkLdapError::NoTLSKeyPathSet => String::from_str(
                "no TLS key path specified. Please set the path for ldap.tls_key_path config",
            ),
            VkLdapError::IOError(msg, ioerr) => msg.clone().concat(": ").concat(ioerr.as_str()),
            VkLdapError::TLSError(msg, tlserr) => msg.clone().concat(": ").concat(tlserr.as_str()),
            VkLdapError::LdapBindError(m) => String::from_str("error in bind operation: ").concat(
                strip_nul_chars(m.as_str()).as_str(),
            ),
            VkLdapError::LdapAdminBindError(m) => String::from_str(
                "error in binding admin user: ",
            ).concat(strip_nul_chars(m.as_str()).as_str()),
            VkLdapError::LdapSearchError(m) => String::from_str(
                "failed to search ldap user: ",
            ).concat(strip_nul_chars(m.as_str()).as_str()),
            VkLdapError::LdapConnectionError(m) => String::from_str(
                "LDAP connection failure: ",
            ).concat(strip_nul_chars(m.as_str()).as_str()),
            VkLdapError::LdapServerPingError(m) => String::from_str(
                "failed to run WhoAmI command on the ldap server: ",
            ).concat(strip_nul_chars(m.as_str()).as_str()),
            VkLdapError::NoLdapEntryFound(filter) => String::from_str("search filter '").concat(
                filter.as_str(),
            ).concat("' returned no entries"),
            VkLdapError::MultipleEntryFound(filter) => String::from_str("search filter '").concat(
                filter.as_str(),
            ).concat("' returned multiple entries"),
            VkLdapError::InvalidDNAttribute(attribute) => String::from_str(
                "the user entry does not have the '",
            ).concat(attribute.as_str()).concat("' attribute to get the user DN"),
            VkLdapError::NoServerConfigured => String::from_str(
                "no server set in configuration. Please set ldap.servers config option",
            ),
            VkLdapError::NoHealthyServerAvailable => String::from_str(
                "all servers set in configuration are unhealthy. Please check the logs for more information",
            ),
            VkLdapError::FailedToStopFailuredDetectorThread => String::from_str(
                "failed to wait for the failure detector thread to finish",
            ),
            VkLdapError::FailedToShutdownJobScheduler => String::from_str(
                "failed to shutdown job scheduler. Please check the logs for more information",
            ),
            VkLdapError::FailedToSendJobToScheduler(errmsg) => String::from_str(
                "failed to send job to scheduler: ",
            ).concat(errmsg.as_str()),
        }
    }
}

} // verus!
