//! Connection-establishment decisions.
//!
//! Opening an LDAP connection is the caller's I/O; this module decides, from
//! the connection settings and the server's URL, whether TLS is required and
//! with which material.  A client certificate path without a key path is the
//! configuration error surfaced at connection time.

use vstd::prelude::*;

use crate::errors::VkLdapError;
use crate::settings::VkConnectionSettings;
use crate::urls::LdapUrl;

verus! {

/// What the TLS layer must be built with: the CA certificate to add, the
/// client certificate and key pair to present, and whether to upgrade the
/// connection with StartTLS rather than connecting over TLS from the start.
pub struct TlsPlan {
    pub ca_cert_path: Option<String>,
    pub client_identity: Option<(String, String)>,
    pub starttls: bool,
}

/// True when a connection to `url` must use TLS: an `ldaps` URL, or the
/// StartTLS upgrade is configured.
pub open spec fn requires_tls(settings: &VkConnectionSettings, url: &LdapUrl) -> bool {
    url.is_ldaps() || settings.use_starttls
}

/// Decides the TLS material for a connection to `url`.
///
/// No TLS is required: `Ok(None)`.  TLS required but a client certificate
/// path is configured without a key path: `Err(NoTLSKeyPathSet)`.  Otherwise
/// `Ok(Some(plan))` with the configured CA path, the certificate/key pair
/// exactly when both are configured, and the StartTLS flag.
pub fn plan_tls(settings: &VkConnectionSettings, url: &LdapUrl) -> (r: Result<
    Option<TlsPlan>,
    VkLdapError,
>)
    ensures
        !requires_tls(settings, url) ==> r == Ok::<Option<TlsPlan>, VkLdapError>(None),
        (requires_tls(settings, url) && settings.client_cert_path is Some
            && settings.client_key_path is None) ==> r == Err::<Option<TlsPlan>, VkLdapError>(
            VkLdapError::NoTLSKeyPathSet,
        ),
        (requires_tls(settings, url) && !(settings.client_cert_path is Some
            && settings.client_key_path is None)) ==> (r matches Ok(p) && p matches Some(plan) && {
            &&& plan.ca_cert_path == settings.ca_cert_path
            &&& plan.starttls == settings.use_starttls
            &&& (settings.client_cert_path matches Some(c) ==> plan.client_identity == Some(
                (c, settings.client_key_path->0),
            ))
            &&& (settings.client_cert_path is None ==> plan.client_identity is None)
        }),
{
    let ldaps_scheme = String::from_str("ldaps");
    let is_ldaps = url.scheme == ldaps_scheme;
    if !(is_ldaps || settings.use_starttls) {
        return Ok(None);
    }
    let client_identity: Option<(String, String)> = match (
        &settings.client_cert_path,
        &settings.client_key_path,
    ) {
        (Some(cert), Some(key)) => Some((cert.clone(), key.clone())),
        (Some(_), None) => {
            return Err(VkLdapError::NoTLSKeyPathSet);
        },
        _ => None,
    };
    let ca_cert_path = match &settings.ca_cert_path {
        Some(p) => Some(p.clone()),
        None => None,
    };
    Ok(
        Some(
            TlsPlan {
                ca_cert_path,
                client_identity,
                starttls: settings.use_starttls,
            },
        ),
    )
}

} // verus!
