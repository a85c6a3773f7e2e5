use vkldap::commands::{health_value, ping_time_ms_string, status_fields};
use vkldap::connection::plan_tls;
use vkldap::context::VkLdapContext;
use vkldap::errors::{strip_nul_chars, VkLdapError};
use vkldap::failure_detector::{
    healthy_probe_action, probe_method, set_failure_detector_interval,
    shutdown_failure_detector_thread, start_failure_detector_thread, unhealthy_probe_action,
    FailureDetector, ProbeAction, ProbeMethod,
};
use vkldap::logging::ValkeyLogLevel;
use vkldap::scheduler::{is_scheduler_ready, start_job_scheduler, stop_job_scheduler, Scheduler};
use vkldap::server::{VkLdapServer, VkLdapServerStatus};
use vkldap::settings::{
    config_string_to_option, mask_password_config, LdapAuthMode, VkConnectionSettings,
};
use vkldap::urls::parse_ldap_url;
use vkldap::{
    clear_server_list, get_servers_health_status, process_server_list, vk_ldap_bind,
    vk_ldap_search_and_bind,
};

#[test]
fn scheduler_gates_submissions() {
    let mut scheduler = Scheduler::new();
    assert!(!is_scheduler_ready(&scheduler));
    assert!(vk_ldap_bind(&scheduler, "alice".to_string(), "pw".to_string()).is_none());

    start_job_scheduler(&mut scheduler);
    assert!(is_scheduler_ready(&scheduler));
    let job = vk_ldap_bind(&scheduler, "alice".to_string(), "pw".to_string()).unwrap();
    assert_eq!(job.mode, LdapAuthMode::Bind);
    assert_eq!(job.username, "alice");
    assert_eq!(job.password, "pw");

    let job = vk_ldap_search_and_bind(&scheduler, "bob".to_string(), "pw2".to_string()).unwrap();
    assert_eq!(job.mode, LdapAuthMode::SearchAndBind);

    assert!(stop_job_scheduler(&mut scheduler, true).is_ok());
    assert!(!is_scheduler_ready(&scheduler));
}

#[test]
fn scheduler_shutdown_reports_join_failure() {
    let mut scheduler = Scheduler::new();
    start_job_scheduler(&mut scheduler);
    let res = stop_job_scheduler(&mut scheduler, false);
    assert!(matches!(res, Err(VkLdapError::FailedToShutdownJobScheduler)));
    assert!(!is_scheduler_ready(&scheduler));
}

#[test]
fn empty_server_list_means_no_server_configured() {
    // With `servers = ""` every bind picks a server from an empty registry
    // and gets NoServerConfigured, synchronously.
    let mut scheduler = Scheduler::new();
    start_job_scheduler(&mut scheduler);
    let mut ctx = VkLdapContext::new();
    assert!(process_server_list(&scheduler, &mut ctx, "").is_ok());
    assert!(matches!(
        ctx.find_server(),
        Err(VkLdapError::NoServerConfigured)
    ));
}

#[test]
fn server_list_is_applied_and_cleared() {
    let mut scheduler = Scheduler::new();
    start_job_scheduler(&mut scheduler);
    let mut ctx = VkLdapContext::new();
    process_server_list(&scheduler, &mut ctx, "ldap://a ldap://b").expect("both URLs parse");
    let servers = get_servers_health_status(&scheduler, &ctx);
    assert_eq!(servers.len(), 2);

    assert!(process_server_list(&scheduler, &mut ctx, "ldap://a %%nope").is_err());
    // The failed set changed nothing.
    assert_eq!(get_servers_health_status(&scheduler, &ctx).len(), 2);

    clear_server_list(&scheduler, &mut ctx);
    assert_eq!(get_servers_health_status(&scheduler, &ctx).len(), 0);
}

#[test]
fn detector_lifecycle_and_interval() {
    let mut d = FailureDetector::new();
    assert_eq!(d.interval_secs, 1);
    assert!(d.should_probe());

    // A zero interval disables probing; shutdown still concludes.
    set_failure_detector_interval(&mut d, 0);
    assert!(!d.should_probe());
    start_failure_detector_thread(&mut d);
    assert!(!d.should_stop());
    assert!(shutdown_failure_detector_thread(&mut d, true).is_ok());
    assert!(d.should_stop());

    start_failure_detector_thread(&mut d);
    let res = shutdown_failure_detector_thread(&mut d, false);
    assert!(matches!(
        res,
        Err(VkLdapError::FailedToStopFailuredDetectorThread)
    ));
}

#[test]
fn probe_paths_and_outcomes() {
    let url = parse_ldap_url("ldap://a").unwrap();
    let healthy = VkLdapServer::new(url.clone(), 0, VkLdapServerStatus::HEALTHY);
    let unhealthy = VkLdapServer::new(
        url,
        1,
        VkLdapServerStatus::UNHEALTHY("down".to_string()),
    );
    assert_eq!(probe_method(&healthy), ProbeMethod::PoolPing);
    assert_eq!(probe_method(&unhealthy), ProbeMethod::FreshConnection);

    match healthy_probe_action(&Ok(()), 2500) {
        ProbeAction::SetHealthy(micros) => assert_eq!(micros, 2500),
        _ => panic!("a successful ping must record health"),
    }
    match healthy_probe_action(
        &Err(VkLdapError::LdapServerPingError("lost".to_string())),
        0,
    ) {
        ProbeAction::SetUnhealthy(msg) => assert_eq!(
            msg,
            "failed to run WhoAmI command on the ldap server: lost"
        ),
        _ => panic!("a failed ping must record the error"),
    }

    // A recovered server: the fresh connection and its ping succeed, so the
    // pool is refreshed and the refresh outcome decides the status.
    assert!(matches!(
        unhealthy_probe_action(&Ok(()), true),
        ProbeAction::RefreshPool
    ));
    assert!(matches!(
        unhealthy_probe_action(&Ok(()), false),
        ProbeAction::LeaveStatus
    ));
    match unhealthy_probe_action(
        &Err(VkLdapError::LdapConnectionError("refused".to_string())),
        false,
    ) {
        ProbeAction::SetUnhealthy(msg) => {
            assert_eq!(msg, "LDAP connection failure: refused")
        }
        _ => panic!("a failed fresh connection must record the error"),
    }
}

#[test]
fn tls_plan_cases() {
    let url_plain = parse_ldap_url("ldap://a").unwrap();
    let url_tls = parse_ldap_url("ldaps://a").unwrap();

    let none = VkConnectionSettings::new(false, None, None, None, 2, 10, 10);
    assert!(plan_tls(&none, &url_plain).unwrap().is_none());

    let plan = plan_tls(&none, &url_tls).unwrap().expect("ldaps needs TLS");
    assert!(plan.ca_cert_path.is_none());
    assert!(plan.client_identity.is_none());
    assert!(!plan.starttls);

    let starttls = VkConnectionSettings::new(
        true,
        Some("/ca.pem".to_string()),
        Some("/cert.pem".to_string()),
        Some("/key.pem".to_string()),
        2,
        10,
        10,
    );
    let plan = plan_tls(&starttls, &url_plain).unwrap().expect("starttls");
    assert_eq!(plan.ca_cert_path.as_deref(), Some("/ca.pem"));
    assert_eq!(
        plan.client_identity,
        Some(("/cert.pem".to_string(), "/key.pem".to_string()))
    );
    assert!(plan.starttls);

    let cert_no_key = VkConnectionSettings::new(
        false,
        None,
        Some("/cert.pem".to_string()),
        None,
        2,
        10,
        10,
    );
    assert!(matches!(
        plan_tls(&cert_no_key, &url_tls),
        Err(VkLdapError::NoTLSKeyPathSet)
    ));
    // Without TLS the missing key path is not an error at this point.
    assert!(plan_tls(&cert_no_key, &url_plain).unwrap().is_none());
}

#[test]
fn error_messages_and_classification() {
    let cases: Vec<(VkLdapError, &str)> = vec![
        (
            VkLdapError::NoTLSKeyPathSet,
            "no TLS key path specified. Please set the path for ldap.tls_key_path config",
        ),
        (
            VkLdapError::IOError("failed to read CA cert file".to_string(), "denied".to_string()),
            "failed to read CA cert file: denied",
        ),
        (
            VkLdapError::TLSError("failed to setup TLS connection".to_string(), "bad cert".to_string()),
            "failed to setup TLS connection: bad cert",
        ),
        (
            VkLdapError::LdapBindError("invalid credentials".to_string()),
            "error in bind operation: invalid credentials",
        ),
        (
            VkLdapError::LdapAdminBindError("denied".to_string()),
            "error in binding admin user: denied",
        ),
        (
            VkLdapError::LdapSearchError("bad filter".to_string()),
            "failed to search ldap user: bad filter",
        ),
        (
            VkLdapError::LdapConnectionError("refused".to_string()),
            "LDAP connection failure: refused",
        ),
        (
            VkLdapError::LdapServerPingError("lost".to_string()),
            "failed to run WhoAmI command on the ldap server: lost",
        ),
        (
            VkLdapError::NoLdapEntryFound("(f)".to_string()),
            "search filter '(f)' returned no entries",
        ),
        (
            VkLdapError::MultipleEntryFound("(f)".to_string()),
            "search filter '(f)' returned multiple entries",
        ),
        (
            VkLdapError::InvalidDNAttribute("entryDN".to_string()),
            "the user entry does not have the 'entryDN' attribute to get the user DN",
        ),
        (
            VkLdapError::NoServerConfigured,
            "no server set in configuration. Please set ldap.servers config option",
        ),
        (
            VkLdapError::NoHealthyServerAvailable,
            "all servers set in configuration are unhealthy. Please check the logs for more information",
        ),
        (
            VkLdapError::FailedToStopFailuredDetectorThread,
            "failed to wait for the failure detector thread to finish",
        ),
        (
            VkLdapError::FailedToShutdownJobScheduler,
            "failed to shutdown job scheduler. Please check the logs for more information",
        ),
        (
            VkLdapError::FailedToSendJobToScheduler("closed".to_string()),
            "failed to send job to scheduler: closed",
        ),
    ];
    for (err, expected) in &cases {
        assert_eq!(&err.to_message(), expected);
        assert_eq!(
            err.is_connection_error(),
            matches!(err, VkLdapError::LdapConnectionError(_))
        );
    }
}

#[test]
fn nul_bytes_are_stripped_from_ldap_messages() {
    assert_eq!(strip_nul_chars("bad\0msg\0"), "badmsg");
    let err = VkLdapError::LdapBindError("invalid\0 credentials".to_string());
    assert_eq!(
        err.to_message(),
        "error in bind operation: invalid credentials"
    );
}

#[test]
fn status_variant_equality_ignores_message() {
    let a = VkLdapServerStatus::UNHEALTHY("first".to_string());
    let b = VkLdapServerStatus::UNHEALTHY("second".to_string());
    assert!(a == b);
    assert!(a != VkLdapServerStatus::HEALTHY);
    assert_eq!(a.message(), "UNHEALTHY: [first]");
    assert_eq!(VkLdapServerStatus::HEALTHY.message(), "HEALTHY");
}

#[test]
fn status_command_fields() {
    let url = parse_ldap_url("ldap://dir:389").unwrap();
    let healthy = VkLdapServer::new(url.clone(), 0, VkLdapServerStatus::HEALTHY);
    let fields = status_fields(&healthy);
    assert_eq!(fields.host, "dir");
    assert_eq!(fields.health, "healthy");
    assert!(fields.error.is_none());

    let unhealthy = VkLdapServer::new(
        url,
        1,
        VkLdapServerStatus::UNHEALTHY("connect refused".to_string()),
    );
    let fields = status_fields(&unhealthy);
    assert_eq!(fields.health, "unhealthy");
    assert_eq!(fields.error.as_deref(), Some("connect refused"));

    // The mapping form of the report: host to one health string.
    assert_eq!(health_value(&healthy), "healthy");
    assert_eq!(health_value(&unhealthy), "unhealthy: connect refused");
}

#[test]
fn ping_time_renders_in_milliseconds() {
    assert_eq!(ping_time_ms_string(0), "0");
    assert_eq!(ping_time_ms_string(1000), "1");
    assert_eq!(ping_time_ms_string(1234), "1.234");
    assert_eq!(ping_time_ms_string(1500), "1.5");
    assert_eq!(ping_time_ms_string(1450), "1.45");
    assert_eq!(ping_time_ms_string(45), "0.045");
    assert_eq!(ping_time_ms_string(2000500), "2000.5");
}

#[test]
fn config_strings_and_password_mask() {
    assert_eq!(config_string_to_option(String::new()), None);
    assert_eq!(
        config_string_to_option("uid".to_string()),
        Some("uid".to_string())
    );

    // The secret is kept as set; only the mask stays externally visible.
    let (secret, visible) = mask_password_config("s3cret".to_string());
    assert_eq!(secret, "s3cret");
    assert_eq!(visible, "*********");
}

#[test]
fn log_level_names() {
    assert_eq!(ValkeyLogLevel::Debug.as_str(), "debug");
    assert_eq!(ValkeyLogLevel::Notice.as_str(), "notice");
    assert_eq!(ValkeyLogLevel::Verbose.as_str(), "verbose");
    assert_eq!(ValkeyLogLevel::Warning.as_str(), "warning");
}
