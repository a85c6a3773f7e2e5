use vkldap::text::split_string;
use vkldap::urls::{parse_ldap_url, parse_server_list};

#[test]
fn split_keeps_empty_tokens() {
    let toks = split_string("a b", ' ');
    assert_eq!(toks, vec!["a".to_string(), "b".to_string()]);

    let toks = split_string("a  b", ' ');
    assert_eq!(toks, vec!["a".to_string(), "".to_string(), "b".to_string()]);

    let toks = split_string("", ' ');
    assert_eq!(toks, vec!["".to_string()]);

    let toks = split_string("1.0.0", '.');
    assert_eq!(toks, vec!["1".to_string(), "0".to_string(), "0".to_string()]);
}

#[test]
fn url_parse_extracts_parts() {
    let url = parse_ldap_url("ldap://dir:389").expect("should parse");
    assert_eq!(url.scheme, "ldap");
    assert_eq!(url.host.as_deref(), Some("dir"));
    assert_eq!(url.port, Some(389));

    let url = parse_ldap_url("ldaps://secure.example.org").expect("should parse");
    assert_eq!(url.scheme, "ldaps");
    assert_eq!(url.host.as_deref(), Some("secure.example.org"));
    assert_eq!(url.port, None);
}

#[test]
fn url_parse_rejects_garbage() {
    assert!(parse_ldap_url("not a url").is_err());
    assert!(parse_ldap_url("").is_err());
}

#[test]
fn server_list_parses_all_or_nothing() {
    let urls = parse_server_list("ldap://a ldap://b:1389").expect("both parse");
    assert_eq!(urls.len(), 2);
    assert_eq!(urls[0].host.as_deref(), Some("a"));
    assert_eq!(urls[1].port, Some(1389));

    assert!(parse_server_list("ldap://a %%bad ldap://b").is_err());
    // A double space makes an empty token, which does not parse.
    assert!(parse_server_list("ldap://a  ldap://b").is_err());
}
