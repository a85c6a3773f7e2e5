use vkldap::context::{status_after_pool_refresh, VkLdapContext};
use vkldap::errors::VkLdapError;
use vkldap::server::VkLdapServerStatus;
use vkldap::settings::VkConnectionSettings;
use vkldap::urls::parse_ldap_url;

fn ctx_with(urls: &[&str]) -> VkLdapContext {
    let mut ctx = VkLdapContext::new();
    let parsed = urls
        .iter()
        .map(|u| parse_ldap_url(u).expect("test URL should parse"))
        .collect();
    ctx.set_servers(parsed);
    ctx
}

#[test]
fn find_server_on_empty_list() {
    let ctx = VkLdapContext::new();
    assert!(matches!(
        ctx.find_server(),
        Err(VkLdapError::NoServerConfigured)
    ));
}

#[test]
fn find_server_picks_first_healthy() {
    // Server list [S0, S1, S2] with only S2 healthy: every pick lands on S2.
    let mut ctx = ctx_with(&["ldap://s0", "ldap://s1", "ldap://s2"]);
    let snapshot = ctx.get_current_servers();
    ctx.update_server_status(
        &snapshot[0],
        VkLdapServerStatus::UNHEALTHY("down".to_string()),
        None,
    );
    ctx.update_server_status(
        &snapshot[1],
        VkLdapServerStatus::UNHEALTHY("down".to_string()),
        None,
    );
    for _ in 0..3 {
        let picked = ctx.find_server().expect("S2 is healthy");
        assert_eq!(picked.get_id(), 2);
        assert_eq!(picked.get_host_string(), "s2");
    }
}

#[test]
fn find_server_with_no_healthy_server() {
    let mut ctx = ctx_with(&["ldap://a"]);
    let snapshot = ctx.get_current_servers();
    ctx.update_server_status(
        &snapshot[0],
        VkLdapServerStatus::UNHEALTHY("gone".to_string()),
        None,
    );
    assert!(matches!(
        ctx.find_server(),
        Err(VkLdapError::NoHealthyServerAvailable)
    ));
}

#[test]
fn server_indices_are_positions() {
    let ctx = ctx_with(&["ldap://a", "ldap://b", "ldap://c"]);
    let servers = ctx.get_current_servers();
    assert_eq!(servers.len(), 3);
    for (i, s) in servers.iter().enumerate() {
        assert_eq!(s.get_id(), i);
        assert!(s.is_healthy());
        assert_eq!(s.get_ping_time(), None);
    }
}

#[test]
fn set_servers_twice_leaves_same_list() {
    let mut ctx = ctx_with(&["ldap://a", "ldap://b"]);
    // Mark one unhealthy, then replace the list with the same URLs twice:
    // exactly two healthy-initial servers remain.
    let snapshot = ctx.get_current_servers();
    ctx.update_server_status(
        &snapshot[0],
        VkLdapServerStatus::UNHEALTHY("down".to_string()),
        None,
    );
    let parsed = vec![
        parse_ldap_url("ldap://a").unwrap(),
        parse_ldap_url("ldap://b").unwrap(),
    ];
    ctx.set_servers(parsed.clone());
    ctx.set_servers(parsed);
    let servers = ctx.get_current_servers();
    assert_eq!(servers.len(), 2);
    for (i, s) in servers.iter().enumerate() {
        assert!(s.is_healthy());
        assert_eq!(s.get_id(), i);
    }
}

#[test]
fn status_write_is_observed_by_next_snapshot() {
    let mut ctx = ctx_with(&["ldap://a"]);
    let snapshot = ctx.get_current_servers();
    let changed = ctx.update_server_status(
        &snapshot[0],
        VkLdapServerStatus::UNHEALTHY("connect refused".to_string()),
        None,
    );
    assert!(changed);
    let seen = ctx.get_current_servers();
    match seen[0].get_status() {
        VkLdapServerStatus::UNHEALTHY(msg) => assert_eq!(msg, "connect refused"),
        VkLdapServerStatus::HEALTHY => panic!("status write was not observed"),
    }

    // Recovery with a measured ping is observed too, with a time >= 0.
    let changed = ctx.update_server_status(&snapshot[0], VkLdapServerStatus::HEALTHY, Some(1500));
    assert!(changed);
    let seen = ctx.get_current_servers();
    assert!(seen[0].is_healthy());
    assert_eq!(seen[0].get_ping_time(), Some(1500));
}

#[test]
fn stale_index_update_is_ignored() {
    let mut ctx = ctx_with(&["ldap://a", "ldap://b"]);
    let snapshot = ctx.get_current_servers();
    ctx.set_servers(vec![parse_ldap_url("ldap://c").unwrap()]);
    // The old index 1 no longer exists; the write is dropped.
    let changed = ctx.update_server_status(
        &snapshot[1],
        VkLdapServerStatus::UNHEALTHY("stale".to_string()),
        None,
    );
    assert!(!changed);
    let servers = ctx.get_current_servers();
    assert_eq!(servers.len(), 1);
    assert!(servers[0].is_healthy());
}

#[test]
fn failover_marks_failed_and_picks_next() {
    let mut ctx = ctx_with(&["ldap://a", "ldap://b"]);
    let first = ctx.find_server().unwrap();
    assert_eq!(first.get_id(), 0);

    let err = VkLdapError::LdapConnectionError("timed out".to_string());
    let next = ctx.failover_server(&first, &err).expect("b is healthy");
    assert_eq!(next.get_id(), 1);

    let servers = ctx.get_current_servers();
    assert!(!servers[0].is_healthy());
    match servers[0].get_status() {
        VkLdapServerStatus::UNHEALTHY(msg) => {
            assert_eq!(msg, "LDAP connection failure: timed out")
        }
        VkLdapServerStatus::HEALTHY => panic!("failed server was not marked"),
    }

    // The second server fails too: no healthy server is left.
    let res = ctx.failover_server(&next, &err);
    assert!(matches!(res, Err(VkLdapError::NoHealthyServerAvailable)));
}

#[test]
fn settings_refresh_is_idempotent() {
    let mut once = VkLdapContext::new();
    let s = VkConnectionSettings::new(false, None, None, None, 4, 10, 10);
    once.refresh_connection_settings(s.clone());
    let mut twice = VkLdapContext::new();
    twice.refresh_connection_settings(s.clone());
    twice.refresh_connection_settings(s);
    assert_eq!(
        once.get_connection_settings().connection_pool_size,
        twice.get_connection_settings().connection_pool_size
    );
    assert_eq!(
        once.get_connection_settings().use_starttls,
        twice.get_connection_settings().use_starttls
    );
}

#[test]
fn pool_refresh_outcome_maps_to_status() {
    assert!(matches!(
        status_after_pool_refresh(&Ok(())),
        VkLdapServerStatus::HEALTHY
    ));
    match status_after_pool_refresh(&Err(VkLdapError::LdapConnectionError(
        "refused".to_string(),
    ))) {
        VkLdapServerStatus::UNHEALTHY(msg) => {
            assert_eq!(msg, "LDAP connection failure: refused")
        }
        VkLdapServerStatus::HEALTHY => panic!("a failed refresh must not mark healthy"),
    }
}
