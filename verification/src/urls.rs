//! Parsed server URLs.
//!
//! A server address is configured as a URL string (`ldap://host:port` or
//! `ldaps://host:port`).  Parsing is delegated to the `url` crate through a
//! trusted wrapper; the parts the rest of the library reads (scheme, host,
//! port, normalized text) are held as plain values in [`LdapUrl`].

use vstd::prelude::*;

use crate::text::{split_on_char, split_string};

verus! {

/// The parts of a parsed server URL that the library's logic reads.
#[derive(Debug)]
pub struct LdapUrl {
    /// URL scheme, e.g. `ldap` or `ldaps`.
    pub scheme: String,
    /// Host component, if the URL has one.
    pub host: Option<String>,
    /// Explicit port, if one was given.
    pub port: Option<u16>,
    /// The whole URL in its normalized textual form.
    pub text: String,
}

/// View of an optional string as an optional character sequence.
pub open spec fn opt_str_view(o: &Option<String>) -> Option<Seq<char>> {
    match o {
        Some(s) => Some(s@),
        None => None,
    }
}

/// What `url::Url::parse` returns for a given input: on success the scheme,
/// host, port and normalized text of the URL; on failure the parse-error
/// description.
pub uninterp spec fn url_parse_spec(s: Seq<char>) -> Result<
    (Seq<char>, Option<Seq<char>>, Option<u16>, Seq<char>),
    Seq<char>,
>;

impl LdapUrl {
    /// True when this value holds exactly the parts that parsing `s` yields.
    pub open spec fn is_parse_of(&self, s: Seq<char>) -> bool {
        match url_parse_spec(s) {
            Ok(p) => self.scheme@ == p.0 && opt_str_view(&self.host) == p.1 && self.port == p.2
                && self.text@ == p.3,
            Err(_) => false,
        }
    }

    /// True when the URL requires TLS from the start (an `ldaps` scheme).
    pub open spec fn is_ldaps(&self) -> bool {
        self.scheme@ == "ldaps"@
    }
}

impl Clone for LdapUrl {
    fn clone(&self) -> (r: Self)
        ensures
            r == *self,
    {
        LdapUrl {
            scheme: self.scheme.clone(),
            host: match &self.host {
                Some(h) => Some(h.clone()),
                None => None,
            },
            port: self.port,
            text: self.text.clone(),
        }
    }
}

/// Relies on `url::Url::parse`: whether a string parses as an absolute URL,
/// and the scheme (`Url::scheme`), host (`Url::host_str`), port (`Url::port`)
/// and normalized text of the result, are functions of the input string
/// alone, as is the parse-error description on failure.
#[verifier::external_body]
pub fn parse_ldap_url(s: &str) -> (r: Result<LdapUrl, String>)
    ensures
        r is Ok <==> url_parse_spec(s@) is Ok,
        (r matches Ok(u) ==> u.is_parse_of(s@)),
        (r matches Err(m) ==> m@ == url_parse_spec(s@)->Err_0),
{
    match url::Url::parse(s) {
        Ok(u) => Ok(LdapUrl {
            scheme: u.scheme().to_string(),
            host: match u.host_str() {
                Some(h) => Some(h.to_string()),
                None => None,
            },
            port: u.port(),
            text: u.to_string(),
        }),
        Err(e) => Err(e.to_string()),
    }
}

/// True when every token of `l` parses as a URL.
pub open spec fn all_tokens_parse(l: Seq<Seq<char>>) -> bool {
    forall|i: int| 0 <= i < l.len() ==> url_parse_spec(#[trigger] l[i]) is Ok
}

/// True when `urls` holds, in order, the parse of every token of `l`.
pub open spec fn urls_match_tokens(urls: Seq<LdapUrl>, l: Seq<Seq<char>>) -> bool {
    &&& urls.len() == l.len()
    &&& forall|i: int| 0 <= i < l.len() ==> (#[trigger] urls[i]).is_parse_of(l[i])
}

/// Splits `server_list` on single spaces and parses every token as a URL.
/// Fails on the first token that does not parse, with that token's
/// parse-error description.
pub fn parse_server_list(server_list: &str) -> (r: Result<Vec<LdapUrl>, String>)
    ensures
        r is Ok <==> all_tokens_parse(split_on_char(server_list@, ' ')),
        (r matches Ok(urls) ==> urls_match_tokens(urls@, split_on_char(server_list@, ' '))),
        (r matches Err(m) ==> exists|i: int| #![trigger split_on_char(server_list@, ' ')[i]]
            {
                let toks = split_on_char(server_list@, ' ');
                &&& 0 <= i < toks.len()
                &&& url_parse_spec(toks[i]) is Err
                &&& (forall|j: int| 0 <= j < i ==> url_parse_spec(#[trigger] toks[j]) is Ok)
                &&& m@ == url_parse_spec(toks[i])->Err_0
            }),
{
    let ghost toks: Seq<Seq<char>> = split_on_char(server_list@, ' ');
    let tokens = split_string(server_list, ' ');
    let n = tokens.len();
    let mut urls: Vec<LdapUrl> = Vec::new();
    let mut i: usize = 0;
    while i < n
        invariant
            i <= n,
            toks == split_on_char(server_list@, ' '),
            n == toks.len(),
            tokens@.len() == n,
            forall|k: int| 0 <= k < n ==> (#[trigger] tokens@[k])@ == toks[k],
            urls@.len() == i,
            forall|k: int| 0 <= k < i ==> (#[trigger] urls@[k]).is_parse_of(toks[k]),
            forall|k: int| 0 <= k < i ==> url_parse_spec(#[trigger] toks[k]) is Ok,
        decreases n - i,
    {
        match parse_ldap_url(tokens[i].as_str()) {
            Ok(u) => {
                urls.push(u);
            },
            Err(m) => {
                return Err(m);
            },
        }
        i = i + 1;
    }
    Ok(urls)
}

} // verus!
