//! Request parameters for each endpoint and the URLs they compose to.

use vstd::prelude::*;
use vstd::string::*;
use crate::records::opt_str_view;

verus! {

/// The account-breach endpoint; the account follows.
pub const BREACHED_ACCOUNT_URL: &'static str = "https://haveibeenpwned.com/api/v2/breachedaccount/";

/// The all-breaches endpoint.
pub const BREACHES_URL: &'static str = "https://haveibeenpwned.com/api/v2/breaches";

/// The single-breach endpoint; the breach's name follows.
pub const BREACH_URL: &'static str = "https://haveibeenpwned.com/api/v2/breach/";

/// The data-class endpoint.
pub const DATA_CLASSES_URL: &'static str = "https://haveibeenpwned.com/api/v2/dataclasses";

/// The paste endpoint; the account follows.
pub const PASTE_ACCOUNT_URL: &'static str = "https://haveibeenpwned.com/api/v2/pasteaccount/";

/// The URL that the url crate parses a text into, serialised, or `None`
/// where the text is no URL.
pub uninterp spec fn parsed_url(text: Seq<char>) -> Option<Seq<char>>;

/// The URL `url` with the query pair `name=value` appended by the url
/// crate, serialised, or `None` where `url` is no URL.
pub uninterp spec fn url_with_pair(url: Seq<char>, name: Seq<char>, value: Seq<char>) -> Option<
    Seq<char>,
>;

/// Relies on url::Url::parse, and on `From<Url> for String` for the
/// serialisation.
#[verifier::external_body]
fn parse_url(text: &str) -> (r: Option<String>)
    ensures
        opt_str_view(r) == parsed_url(text@),
{
    url::Url::parse(text).ok().map(String::from)
}

/// Relies on url::Url::query_pairs_mut and its `append_pair`, which adds
/// `name=value`, form-urlencoded, to the URL's query.
#[verifier::external_body]
fn append_query_pair(url: &str, name: &str, value: &str) -> (r: Option<String>)
    ensures
        opt_str_view(r) == url_with_pair(url@, name@, value@),
{
    let mut parsed = url::Url::parse(url).ok()?;
    parsed.query_pairs_mut().append_pair(name, value);
    Some(String::from(parsed))
}

/// `url` with `name=value` appended to its query, where `url` is there.
pub open spec fn and_pair(url: Option<Seq<char>>, name: Seq<char>, value: Seq<char>) -> Option<
    Seq<char>,
> {
    match url {
        Some(u) => url_with_pair(u, name, value),
        None => None,
    }
}

/// The account-breach URL: the account as a path segment, then the domain
/// filter where one is given, then the truncation flag where it is set.
pub open spec fn account_breach_url(
    account: Seq<char>,
    domain: Option<Seq<char>>,
    truncate: bool,
) -> Option<Seq<char>> {
    let base = parsed_url(BREACHED_ACCOUNT_URL@ + account);
    let filtered = match domain {
        Some(d) => and_pair(base, "domain"@, d),
        None => base,
    };
    if truncate {
        and_pair(filtered, "truncateResponse"@, "true"@)
    } else {
        filtered
    }
}

/// The all-breaches URL, with the domain filter where one is given.
pub open spec fn all_breaches_url(domain: Option<Seq<char>>) -> Option<Seq<char>> {
    let base = parsed_url(BREACHES_URL@);
    match domain {
        Some(d) => and_pair(base, "domain"@, d),
        None => base,
    }
}

/// Appends `name=value` to the query of `url`, where `url` is there.
fn then_pair(url: Option<String>, name: &str, value: &str) -> (r: Option<String>)
    ensures
        opt_str_view(r) == and_pair(opt_str_view(url), name@, value@),
{
    match url {
        Some(u) => append_query_pair(u.as_str(), name, value),
        None => None,
    }
}

/// A lookup of the breaches an account appears in.
#[derive(Debug, Clone)]
pub struct AccountBreachRequest {
    pub user_agent: String,
    pub account: String,
    pub truncate: bool,
    pub domain: Option<String>,
}

impl AccountBreachRequest {
    /// Asks for names only, or for full records.
    pub fn set_truncate(&mut self, t: bool) -> (r: &mut Self)
        ensures
            r.truncate == t,
            r.user_agent == old(self).user_agent,
            r.account == old(self).account,
            r.domain == old(self).domain,
            *final(self) == *final(r),
    {
        self.truncate = t;
        self
    }

    /// Keeps only the breaches of one domain.
    pub fn set_domain(&mut self, d: &str) -> (r: &mut Self)
        ensures
            opt_str_view(r.domain) == Some(d@),
            r.truncate == old(self).truncate,
            r.user_agent == old(self).user_agent,
            r.account == old(self).account,
            *final(self) == *final(r),
    {
        self.domain = Some(String::from_str(d));
        self
    }

    /// The request's URL, or `None` where the url crate refuses the account.
    pub fn build_url(&self) -> (r: Option<String>)
        ensures
            opt_str_view(r) == account_breach_url(
                self.account@,
                opt_str_view(self.domain),
                self.truncate,
            ),
    {
        let base = parse_url(String::from_str(BREACHED_ACCOUNT_URL).concat(self.account.as_str()).as_str());
        let filtered = match &self.domain {
            Some(d) => then_pair(base, "domain", d.as_str()),
            None => base,
        };
        if self.truncate {
            then_pair(filtered, "truncateResponse", "true")
        } else {
            filtered
        }
    }
}

/// A lookup of every breach the service knows of.
#[derive(Debug, Clone)]
pub struct AllBreachesRequest {
    pub user_agent: String,
    pub domain: Option<String>,
}

impl AllBreachesRequest {
    /// Keeps only the breaches of one domain.
    pub fn set_domain(&mut self, d: &str) -> (r: &mut Self)
        ensures
            opt_str_view(r.domain) == Some(d@),
            r.user_agent == old(self).user_agent,
            *final(self) == *final(r),
    {
        self.domain = Some(String::from_str(d));
        self
    }

    /// The request's URL, or `None` where the url crate refuses it.
    pub fn build_url(&self) -> (r: Option<String>)
        ensures
            opt_str_view(r) == all_breaches_url(opt_str_view(self.domain)),
    {
        let base = parse_url(BREACHES_URL);
        match &self.domain {
            Some(d) => then_pair(base, "domain", d.as_str()),
            None => base,
        }
    }
}

/// A lookup of one breach by its name.
#[derive(Debug, Clone)]
pub struct BreachRequest {
    pub user_agent: String,
    pub name: String,
}

impl BreachRequest {
    /// The request's URL: the breach's name, as it is, after the endpoint.
    pub fn build_url(&self) -> (r: String)
        ensures
            r@ == BREACH_URL@ + self.name@,
    {
        String::from_str(BREACH_URL).concat(self.name.as_str())
    }
}

/// A listing of every data class.
#[derive(Debug, Clone)]
pub struct DataClassRequest {
    pub user_agent: String,
}

impl DataClassRequest {
    /// The request's URL, which takes no parameters.
    pub fn build_url(&self) -> (r: String)
        ensures
            r@ == DATA_CLASSES_URL@,
    {
        String::from_str(DATA_CLASSES_URL)
    }
}

/// A lookup of the pastes an account appears in.
#[derive(Debug, Clone)]
pub struct PasteRequest {
    pub user_agent: String,
    pub account: String,
}

impl PasteRequest {
    /// The request's URL, or `None` where the url crate refuses the account.
    pub fn build_url(&self) -> (r: Option<String>)
        ensures
            opt_str_view(r) == parsed_url(PASTE_ACCOUNT_URL@ + self.account@),
    {
        parse_url(String::from_str(PASTE_ACCOUNT_URL).concat(self.account.as_str()).as_str())
    }
}

/// The entry point: it holds the identification that every request sends,
/// and makes the requests.
#[derive(Debug, Clone)]
pub struct Clientv2 {
    pub user_agent: String,
}

impl Clientv2 {
    /// A client that sends `user_agent` with each request.
    pub fn new(user_agent: &str) -> (r: Clientv2)
        ensures
            r.user_agent@ == user_agent@,
    {
        Clientv2 { user_agent: String::from_str(user_agent) }
    }

    /// A lookup of the breaches `acct` appears in, untruncated and unfiltered.
    pub fn get_breaches_acct(&self, acct: &str) -> (r: AccountBreachRequest)
        ensures
            r.user_agent == self.user_agent,
            r.account@ == acct@,
            !r.truncate,
            r.domain is None,
    {
        AccountBreachRequest {
            user_agent: self.user_agent.clone(),
            account: String::from_str(acct),
            truncate: false,
            domain: None,
        }
    }

    /// A lookup of every breach, unfiltered.
    pub fn get_breaches(&self) -> (r: AllBreachesRequest)
        ensures
            r.user_agent == self.user_agent,
            r.domain is None,
    {
        AllBreachesRequest { user_agent: self.user_agent.clone(), domain: None }
    }

    /// A lookup of the breach called `name`.
    pub fn get_breach(&self, name: &str) -> (r: BreachRequest)
        ensures
            r.user_agent == self.user_agent,
            r.name@ == name@,
    {
        BreachRequest { user_agent: self.user_agent.clone(), name: String::from_str(name) }
    }

    /// A listing of every data class.
    pub fn get_data_classes(&self) -> (r: DataClassRequest)
        ensures
            r.user_agent == self.user_agent,
    {
        DataClassRequest { user_agent: self.user_agent.clone() }
    }

    /// A lookup of the pastes `account` appears in.
    pub fn get_pastes(&self, account: &str) -> (r: PasteRequest)
        ensures
            r.user_agent == self.user_agent,
            r.account@ == account@,
    {
        PasteRequest { user_agent: self.user_agent.clone(), account: String::from_str(account) }
    }
}

} // verus!
