use vkldap::errors::VkLdapError;
use vkldap::orchestrator::{
    admin_bind_credentials, build_search_filter, compose_bind_dn, effective_search_base,
    evaluate_search_result, LdapEntry,
};
use vkldap::settings::{LdapSearchScope, VkLdapSettings};

fn search_settings() -> VkLdapSettings {
    VkLdapSettings::new(
        "cn=".to_string(),
        ",dc=example,dc=org".to_string(),
        Some("ou=people,dc=example,dc=org".to_string()),
        LdapSearchScope::SubTree,
        Some("objectClass=inetOrgPerson".to_string()),
        Some("uid".to_string()),
        Some("cn=admin,dc=example,dc=org".to_string()),
        Some("s3cret".to_string()),
        "entryDN".to_string(),
    )
}

#[test]
fn bind_dn_is_prefix_name_suffix() {
    let settings = search_settings();
    assert_eq!(
        compose_bind_dn(&settings, "alice"),
        "cn=alice,dc=example,dc=org"
    );
}

#[test]
fn search_filter_combines_filter_and_attribute() {
    let settings = search_settings();
    assert_eq!(
        build_search_filter(&settings, "alice"),
        "(&(objectClass=inetOrgPerson)(uid=alice))"
    );
}

#[test]
fn search_filter_defaults() {
    let settings = VkLdapSettings::default();
    assert_eq!(
        build_search_filter(&settings, "alice"),
        "(&(objectClass=*)(uid=alice))"
    );
    assert_eq!(effective_search_base(&settings), "");
}

#[test]
fn admin_bind_needs_both_credentials() {
    let settings = search_settings();
    let creds = admin_bind_credentials(&settings).expect("both are configured");
    assert_eq!(creds.0, "cn=admin,dc=example,dc=org");
    assert_eq!(creds.1, "s3cret");

    let mut no_pw = search_settings();
    no_pw.search_bind_passwd = None;
    assert!(admin_bind_credentials(&no_pw).is_none());

    let mut no_dn = search_settings();
    no_dn.search_bind_dn = None;
    assert!(admin_bind_credentials(&no_dn).is_none());
}

fn entry_with_dn(dn: &str) -> LdapEntry {
    LdapEntry {
        attrs: vec![
            ("cn".to_string(), vec!["alice".to_string()]),
            ("entryDN".to_string(), vec![dn.to_string()]),
        ],
    }
}

#[test]
fn single_entry_yields_its_dn() {
    let rs = vec![entry_with_dn("uid=alice,ou=people,dc=example,dc=org")];
    let dn = evaluate_search_result(&rs, &"entryDN".to_string(), "(f)".to_string())
        .expect("one entry with the attribute");
    assert_eq!(dn, "uid=alice,ou=people,dc=example,dc=org");
}

#[test]
fn no_entry_is_an_error_with_the_filter() {
    let rs: Vec<LdapEntry> = Vec::new();
    let res = evaluate_search_result(
        &rs,
        &"entryDN".to_string(),
        "(&(objectClass=*)(uid=nobody))".to_string(),
    );
    match res {
        Err(VkLdapError::NoLdapEntryFound(filter)) => {
            assert_eq!(filter, "(&(objectClass=*)(uid=nobody))")
        }
        _ => panic!("zero entries must give NoLdapEntryFound"),
    }
}

#[test]
fn two_entries_are_an_error() {
    let rs = vec![entry_with_dn("uid=a,dc=x"), entry_with_dn("uid=b,dc=x")];
    let res = evaluate_search_result(&rs, &"entryDN".to_string(), "(f)".to_string());
    match res {
        Err(VkLdapError::MultipleEntryFound(filter)) => assert_eq!(filter, "(f)"),
        _ => panic!("two entries must give MultipleEntryFound"),
    }
}

#[test]
fn missing_dn_attribute_is_an_error() {
    let rs = vec![LdapEntry {
        attrs: vec![("cn".to_string(), vec!["alice".to_string()])],
    }];
    let res = evaluate_search_result(&rs, &"entryDN".to_string(), "(f)".to_string());
    match res {
        Err(VkLdapError::InvalidDNAttribute(attr)) => assert_eq!(attr, "entryDN"),
        _ => panic!("a missing attribute must give InvalidDNAttribute"),
    }
}
