//! Decisions of the two authentication flows.
//!
//! `bind` composes the user DN from the configured prefix and suffix and
//! binds with it.  `search+bind` optionally binds as the configured admin,
//! searches with a filter composed from the configured filter and attribute,
//! demands exactly one entry carrying the DN attribute, and binds with the
//! retrieved DN.  The network operations are the caller's; what stands here
//! is everything decided between them: DN composition, filter composition,
//! the admin-bind decision, and the reading of the search result.
//!
//! The failover loop around either flow is: pick a server
//! (`VkLdapContext::find_server`), check a connection out, run the operation,
//! return the connection; a connection-class failure
//! (`VkLdapError::is_connection_error`) marks the server unhealthy and picks
//! the next (`VkLdapContext::failover_server`); any other outcome is
//! terminal.

use vstd::prelude::*;

use crate::errors::VkLdapError;
use crate::settings::VkLdapSettings;

verus! {

/// The user DN of the direct bind flow: prefix, user name, suffix.
pub open spec fn bind_dn_spec(settings: &VkLdapSettings, username: Seq<char>) -> Seq<char> {
    settings.bind_db_prefix@ + username + settings.bind_db_suffix@
}

/// The configured search base, or the empty base.
pub open spec fn search_base_spec(settings: &VkLdapSettings) -> Seq<char> {
    match settings.search_base {
        Some(b) => b@,
        None => ""@,
    }
}

/// The configured search filter, or the match-all default.
pub open spec fn search_filter_setting_spec(settings: &VkLdapSettings) -> Seq<char> {
    match settings.search_filter {
        Some(f) => f@,
        None => "objectClass=*"@,
    }
}

/// The configured search attribute, or the default `uid`.
pub open spec fn search_attribute_spec(settings: &VkLdapSettings) -> Seq<char> {
    match settings.search_attribute {
        Some(a) => a@,
        None => "uid"@,
    }
}

/// The filter the search flow sends: the configured filter and the user name
/// equality, conjoined.
pub open spec fn search_filter_spec(settings: &VkLdapSettings, username: Seq<char>) -> Seq<char> {
    "(&("@ + search_filter_setting_spec(settings) + ")("@ + search_attribute_spec(settings) + "="@
        + username + "))"@
}

/// Composes the user DN of the direct bind flow.
pub fn compose_bind_dn(settings: &VkLdapSettings, username: &str) -> (r: String)
    ensures
        r@ == bind_dn_spec(settings, username@),
{
    settings.bind_db_prefix.clone().concat(username).concat(settings.bind_db_suffix.as_str())
}

/// The search base to send: the configured one, or empty.
pub fn effective_search_base<'a>(settings: &'a VkLdapSettings) -> (r: &'a str)
    ensures
        r@ == search_base_spec(settings),
{
    match &settings.search_base {
        Some(b) => b.as_str(),
        None => "",
    }
}

/// Composes the filter the search flow sends.
pub fn build_search_filter(settings: &VkLdapSettings, username: &str) -> (r: String)
    ensures
        r@ == search_filter_spec(settings, username@),
{
    let filter: &str = match &settings.search_filter {
        Some(f) => f.as_str(),
        None => "objectClass=*",
    };
    let attribute: &str = match &settings.search_attribute {
        Some(a) => a.as_str(),
        None => "uid",
    };
    let r = String::from_str("(&(").concat(filter).concat(")(").concat(attribute).concat(
        "=",
    ).concat(username).concat("))");
    proof {
        assert(r@ =~= search_filter_spec(settings, username@));
    }
    r
}

/// The admin credentials the search flow binds with first: the configured DN
/// and password, exactly when both are configured.
pub fn admin_bind_credentials(settings: &VkLdapSettings) -> (r: Option<(String, String)>)
    ensures
        (settings.search_bind_dn is Some && settings.search_bind_passwd is Some) ==> r == Some(
            (settings.search_bind_dn->0, settings.search_bind_passwd->0),
        ),
        (settings.search_bind_dn is None || settings.search_bind_passwd is None) ==> r is None,
{
    match (&settings.search_bind_dn, &settings.search_bind_passwd) {
        (Some(dn), Some(pw)) => Some((dn.clone(), pw.clone())),
        _ => None,
    }
}

/// One entry of a search result: its attributes, each a name with its values.
pub struct LdapEntry {
    pub attrs: Vec<(String, Vec<String>)>,
}

/// `k` is the position of the first attribute of `attrs` named `key`.
pub open spec fn is_first_attr(attrs: Seq<(String, Vec<String>)>, key: Seq<char>, k: int) -> bool {
    &&& 0 <= k < attrs.len()
    &&& attrs[k].0@ == key
    &&& forall|j: int| 0 <= j < k ==> (#[trigger] attrs[j]).0@ != key
}

/// True when some attribute of `attrs` is named `key`.
pub open spec fn has_attr(attrs: Seq<(String, Vec<String>)>, key: Seq<char>) -> bool {
    exists|k: int| is_first_attr(attrs, key, k)
}

/// Reads the search result of the search+bind flow: exactly one entry must
/// have been returned, and it must carry the DN attribute; the retrieved DN
/// is that attribute's first value.
///
/// Zero entries: `NoLdapEntryFound` with the filter sent.  More than one:
/// `MultipleEntryFound` with the filter sent.  One entry without the DN
/// attribute: `InvalidDNAttribute` with the attribute's name.
pub fn evaluate_search_result(
    rs: &Vec<LdapEntry>,
    dn_attribute: &String,
    search_filter: String,
) -> (r: Result<String, VkLdapError>)
    requires
        rs@.len() == 1 ==> forall|k: int|
            is_first_attr(rs@[0].attrs@, dn_attribute@, k) ==> (#[trigger] rs@[0].attrs@[k]).1@.len()
                > 0,
    ensures
        rs@.len() == 0 ==> r == Err::<String, VkLdapError>(
            VkLdapError::NoLdapEntryFound(search_filter),
        ),
        rs@.len() > 1 ==> r == Err::<String, VkLdapError>(
            VkLdapError::MultipleEntryFound(search_filter),
        ),
        (rs@.len() == 1 && !has_attr(rs@[0].attrs@, dn_attribute@)) ==> r == Err::<
            String,
            VkLdapError,
        >(VkLdapError::InvalidDNAttribute(*dn_attribute)),
        (rs@.len() == 1 && has_attr(rs@[0].attrs@, dn_attribute@)) ==> (r matches Ok(dn)
            && exists|k: int| is_first_attr(rs@[0].attrs@, dn_attribute@, k) && dn == (
        #[trigger] rs@[0].attrs@[k]).1@[0]),
{
    if rs.len() == 0 {
        return Err(VkLdapError::NoLdapEntryFound(search_filter));
    }
    if rs.len() > 1 {
        return Err(VkLdapError::MultipleEntryFound(search_filter));
    }
    let entry = &rs[0];
    let n = entry.attrs.len();
    let mut k: usize = 0;
    while k < n
        invariant
            k <= n,
            n == entry.attrs@.len(),
            rs@.len() == 1,
            entry.attrs@ == rs@[0].attrs@,
            forall|j: int| 0 <= j < k ==> (#[trigger] entry.attrs@[j]).0@ != dn_attribute@,
            forall|j: int|
                is_first_attr(rs@[0].attrs@, dn_attribute@, j) ==> (
                #[trigger] rs@[0].attrs@[j]).1@.len() > 0,
        decreases n - k,
    {
        if entry.attrs[k].0 == *dn_attribute {
            proof {
                assert(is_first_attr(entry.attrs@, dn_attribute@, k as int));
            }
            let values = &entry.attrs[k].1;
            return Ok(values[0].clone());
        }
        k = k + 1;
    }
    proof {
        assert forall|j: int| !is_first_attr(entry.attrs@, dn_attribute@, j) by {}
    }
    Err(VkLdapError::InvalidDNAttribute(dn_attribute.clone()))
}

} // verus!
