//! Verified core of an LDAP-backed authentication module for a key-value
//! server: a server registry with health tracking, an epoch-versioned
//! connection pool, the bind / search+bind orchestration decisions with
//! failover, a job-scheduler state model, and a failure-detector state model.
//!
//! All network I/O, threads and the host SDK live outside this crate; the
//! functions here carry the data structures and every decision between the
//! outside calls, each with a contract.  Entry points are gated on the
//! scheduler's state: before the scheduler is initialized they do nothing,
//! as during early load.

pub mod commands;
pub mod connection;
pub mod context;
pub mod errors;
pub mod failure_detector;
pub mod logging;
pub mod orchestrator;
pub mod pool;
pub mod scheduler;
pub mod server;
pub mod settings;
pub mod text;
pub mod urls;
pub mod version;

use vstd::prelude::*;

use crate::context::{servers_from_urls, VkLdapContext};
use crate::scheduler::Scheduler;
use crate::server::VkLdapServer;
use crate::settings::{LdapAuthMode, VkConnectionSettings, VkLdapSettings};
use crate::text::split_on_char;
use crate::urls::{all_tokens_parse, parse_server_list, url_parse_spec, urls_match_tokens, LdapUrl};

verus! {

/// An authentication job, ready for submission to the scheduler: the flow to
/// run and the credentials the directory will verify.  The password is
/// carried to the LDAP bind and nowhere else.
pub struct AuthJob {
    pub mode: LdapAuthMode,
    pub username: String,
    pub password: String,
}

/// Builds the direct-bind authentication job, unless the scheduler is not
/// ready yet, in which case nothing is submitted.
pub fn vk_ldap_bind(scheduler: &Scheduler, username: String, password: String) -> (r: Option<
    AuthJob,
>)
    ensures
        scheduler.initialized ==> r == Some(
            AuthJob { mode: LdapAuthMode::Bind, username, password },
        ),
        !scheduler.initialized ==> r is None,
{
    if !scheduler::is_scheduler_ready(scheduler) {
        return None;
    }
    Some(AuthJob { mode: LdapAuthMode::Bind, username, password })
}

/// Builds the search+bind authentication job, unless the scheduler is not
/// ready yet, in which case nothing is submitted.
pub fn vk_ldap_search_and_bind(scheduler: &Scheduler, username: String, password: String) -> (r:
    Option<AuthJob>)
    ensures
        scheduler.initialized ==> r == Some(
            AuthJob { mode: LdapAuthMode::SearchAndBind, username, password },
        ),
        !scheduler.initialized ==> r is None,
{
    if !scheduler::is_scheduler_ready(scheduler) {
        return None;
    }
    Some(AuthJob { mode: LdapAuthMode::SearchAndBind, username, password })
}

/// Replaces the live LDAP settings snapshot, once the scheduler is ready.
pub fn refresh_ldap_settings(
    scheduler: &Scheduler,
    ctx: &mut VkLdapContext,
    settings: VkLdapSettings,
)
    requires
        old(ctx).wf(),
    ensures
        scheduler.initialized ==> {
            &&& final(ctx).ldap_settings == settings
            &&& final(ctx).servers == old(ctx).servers
            &&& final(ctx).connection_settings == old(ctx).connection_settings
        },
        !scheduler.initialized ==> *final(ctx) == *old(ctx),
        final(ctx).wf(),
{
    if !scheduler::is_scheduler_ready(scheduler) {
        return ;
    }
    ctx.refresh_ldap_settings(settings);
}

/// Replaces the live connection settings snapshot, once the scheduler is
/// ready, and returns the servers whose pools must now be refreshed — every
/// configured server, in order.
pub fn refresh_connection_settings(
    scheduler: &Scheduler,
    ctx: &mut VkLdapContext,
    settings: VkConnectionSettings,
) -> (to_refresh: Vec<VkLdapServer>)
    requires
        old(ctx).wf(),
    ensures
        scheduler.initialized ==> {
            &&& final(ctx).connection_settings == settings
            &&& final(ctx).servers == old(ctx).servers
            &&& final(ctx).ldap_settings == old(ctx).ldap_settings
            &&& to_refresh@ == final(ctx).servers@
        },
        !scheduler.initialized ==> *final(ctx) == *old(ctx) && to_refresh@.len() == 0,
        final(ctx).wf(),
{
    if !scheduler::is_scheduler_ready(scheduler) {
        return Vec::new();
    }
    ctx.refresh_connection_settings(settings);
    ctx.get_current_servers()
}

/// Removes every configured server, once the scheduler is ready.  The caller
/// shuts the removed servers' pools down.
pub fn clear_server_list(scheduler: &Scheduler, ctx: &mut VkLdapContext)
    requires
        old(ctx).wf(),
    ensures
        scheduler.initialized ==> {
            &&& final(ctx).servers@.len() == 0
            &&& final(ctx).ldap_settings == old(ctx).ldap_settings
            &&& final(ctx).connection_settings == old(ctx).connection_settings
        },
        !scheduler.initialized ==> *final(ctx) == *old(ctx),
        final(ctx).wf(),
{
    if !scheduler::is_scheduler_ready(scheduler) {
        return ;
    }
    ctx.clear_server_list();
}

/// Appends a server for `url` at the next free index, initially healthy, once
/// the scheduler is ready.  The caller builds the server's pool and records a
/// failed first fill through `VkLdapContext::update_server_status`.
pub fn add_server(scheduler: &Scheduler, ctx: &mut VkLdapContext, url: LdapUrl)
    requires
        old(ctx).wf(),
    ensures
        scheduler.initialized ==> {
            &&& final(ctx).servers@.len() == old(ctx).servers@.len() + 1
            &&& final(ctx).servers@ == old(ctx).servers@.push(final(ctx).servers@.last())
            &&& final(ctx).servers@.last().url == url
            &&& final(ctx).servers@.last().id == old(ctx).servers@.len()
            &&& final(ctx).servers@.last().status is HEALTHY
            &&& final(ctx).ldap_settings == old(ctx).ldap_settings
            &&& final(ctx).connection_settings == old(ctx).connection_settings
        },
        !scheduler.initialized ==> *final(ctx) == *old(ctx),
        final(ctx).wf(),
{
    if !scheduler::is_scheduler_ready(scheduler) {
        return ;
    }
    let server = ctx.new_server(url);
    ctx.add_server(server);
}

/// A snapshot of the server list for the status command and the failure
/// detector; empty before the scheduler is ready.
pub fn get_servers_health_status(scheduler: &Scheduler, ctx: &VkLdapContext) -> (r: Vec<
    VkLdapServer,
>)
    ensures
        scheduler.initialized ==> r@ == ctx.servers@,
        !scheduler.initialized ==> r@.len() == 0,
{
    if !scheduler::is_scheduler_ready(scheduler) {
        return Vec::new();
    }
    ctx.get_current_servers()
}

/// Applies the `servers` configuration string: an empty string clears the
/// list; otherwise the string is split on spaces and every token must parse
/// as a URL — on any parse failure nothing changes and the first failing
/// token's parse error is returned; on success the server list is replaced,
/// one healthy-initial server per URL.  Before the scheduler is ready the
/// list is left alone, but the string is still validated.
pub fn process_server_list(
    scheduler: &Scheduler,
    ctx: &mut VkLdapContext,
    server_list: &str,
) -> (r: Result<(), String>)
    requires
        old(ctx).wf(),
    ensures
        final(ctx).wf(),
        final(ctx).ldap_settings == old(ctx).ldap_settings,
        final(ctx).connection_settings == old(ctx).connection_settings,
        !scheduler.initialized ==> *final(ctx) == *old(ctx),
        server_list@.len() == 0 ==> r is Ok && (scheduler.initialized
            ==> final(ctx).servers@.len() == 0),
        server_list@.len() > 0 ==> {
            &&& (r is Ok <==> all_tokens_parse(split_on_char(server_list@, ' ')))
            &&& (r is Ok && scheduler.initialized) ==> exists|urls: Seq<LdapUrl>|
                {
                    &&& #[trigger] urls_match_tokens(urls, split_on_char(server_list@, ' '))
                    &&& final(ctx).servers@ == servers_from_urls(urls)
                }
            &&& r is Err ==> *final(ctx) == *old(ctx)
            &&& (r matches Err(m) ==> exists|i: int|
                #![trigger split_on_char(server_list@, ' ')[i]]
                {
                    let toks = split_on_char(server_list@, ' ');
                    &&& 0 <= i < toks.len()
                    &&& url_parse_spec(toks[i]) is Err
                    &&& m@ == url_parse_spec(toks[i])->Err_0
                })
        },
{
    if server_list.unicode_len() == 0 {
        clear_server_list(scheduler, ctx);
        return Ok(());
    }
    let urls = match parse_server_list(server_list) {
        Ok(urls) => urls,
        Err(m) => {
            return Err(m);
        },
    };
    if !scheduler::is_scheduler_ready(scheduler) {
        return Ok(());
    }
    let ghost urls_view: Seq<LdapUrl> = urls@;
    ctx.set_servers(urls);
    proof {
        assert(urls_match_tokens(urls_view, split_on_char(server_list@, ' ')));
    }
    Ok(())
}

} // verus!
