//! The requests the pipeline issues: endpoint URLs, query parameters, and
//! the credentials-grant body, each built exactly as its spec says.

use vstd::prelude::*;

use crate::text::{dec_str_of, u32_dec};

verus! {

/// Users are fetched twenty to a page.
pub const PAGE_SIZE: u32 = 20;

/// Up to one hundred login entries are fetched per user.
pub const LOGS_PER_USER: u32 = 100;

/// The fixed delay between successive requests, to stay under the
/// provider's rate limit.
pub const RATE_LIMIT_SLEEP_MS: u64 = 2000;

/// The token endpoint for a domain.
pub open spec fn token_url_of(domain: Seq<char>) -> Seq<char> {
    "https://"@ + domain + ".auth0.com/oauth/token"@
}

/// Build the token endpoint URL for a domain.
pub fn token_url(domain: &str) -> (r: String)
    ensures
        r@ == token_url_of(domain@),
{
    let mut s = "https://".to_owned();
    s.append(domain);
    s.append(".auth0.com/oauth/token");
    proof {
        assert(s@ =~= token_url_of(domain@));
    }
    s
}

/// The audience named in the credentials grant for a domain.
pub open spec fn audience_of(domain: Seq<char>) -> Seq<char> {
    "https://"@ + domain + ".auth0.com/api/v2/"@
}

/// Build the audience for a domain.
pub fn audience(domain: &str) -> (r: String)
    ensures
        r@ == audience_of(domain@),
{
    let mut s = "https://".to_owned();
    s.append(domain);
    s.append(".auth0.com/api/v2/");
    proof {
        assert(s@ =~= audience_of(domain@));
    }
    s
}

/// The user-list endpoint for a domain.
pub open spec fn users_url_of(domain: Seq<char>) -> Seq<char> {
    "https://"@ + domain + ".auth0.com/api/v2/users"@
}

/// Build the user-list endpoint URL for a domain.
pub fn users_url(domain: &str) -> (r: String)
    ensures
        r@ == users_url_of(domain@),
{
    let mut s = "https://".to_owned();
    s.append(domain);
    s.append(".auth0.com/api/v2/users");
    proof {
        assert(s@ =~= users_url_of(domain@));
    }
    s
}

/// The login-log endpoint for one user of a domain.
pub open spec fn user_logs_url_of(domain: Seq<char>, user_id: Seq<char>) -> Seq<char> {
    "https://"@ + domain + ".auth0.com/api/v2/users/"@ + user_id + "/logs"@
}

/// Build the login-log endpoint URL for one user of a domain.
pub fn user_logs_url(domain: &str, user_id: &str) -> (r: String)
    ensures
        r@ == user_logs_url_of(domain@, user_id@),
{
    let mut s = "https://".to_owned();
    s.append(domain);
    s.append(".auth0.com/api/v2/users/");
    s.append(user_id);
    s.append("/logs");
    proof {
        assert(s@ =~= user_logs_url_of(domain@, user_id@));
    }
    s
}

/// Build the credentials-grant body: the client pair, the audience of the
/// domain, and the grant type, as key-value fields.
pub fn token_request_fields(client_id: &String, client_secret: &String, domain: &str) -> (r: Vec<
    (String, String),
>)
    ensures
        r@.len() == 4,
        r@[0].0@ == "client_id"@ && r@[0].1 == *client_id,
        r@[1].0@ == "client_secret"@ && r@[1].1 == *client_secret,
        r@[2].0@ == "audience"@ && r@[2].1@ == audience_of(domain@),
        r@[3].0@ == "grant_type"@ && r@[3].1@ == "client_credentials"@,
{
    let mut r: Vec<(String, String)> = Vec::new();
    r.push(("client_id".to_owned(), client_id.clone()));
    r.push(("client_secret".to_owned(), client_secret.clone()));
    r.push(("audience".to_owned(), audience(domain)));
    r.push(("grant_type".to_owned(), "client_credentials".to_owned()));
    r
}

/// Build the query for one user page: the fixed page size, the zero-based
/// page index, and the sort by last login, most recent first.
pub fn users_page_query(page: u32) -> (r: Vec<(String, String)>)
    ensures
        r@.len() == 3,
        r@[0].0@ == "per_page"@ && r@[0].1@ == "20"@,
        r@[1].0@ == "page"@ && r@[1].1@ == dec_str_of(page as int),
        r@[2].0@ == "sort"@ && r@[2].1@ == "last_login:-1"@,
{
    let mut r: Vec<(String, String)> = Vec::new();
    r.push(("per_page".to_owned(), "20".to_owned()));
    r.push(("page".to_owned(), u32_dec(page)));
    r.push(("sort".to_owned(), "last_login:-1".to_owned()));
    r
}

/// Build the query for one user's login log: sorted by date, most recent
/// first, up to the fixed page size.
pub fn user_logs_query() -> (r: Vec<(String, String)>)
    ensures
        r@.len() == 2,
        r@[0].0@ == "sort"@ && r@[0].1@ == "date:-1"@,
        r@[1].0@ == "per_page"@ && r@[1].1@ == "100"@,
{
    let mut r: Vec<(String, String)> = Vec::new();
    r.push(("sort".to_owned(), "date:-1".to_owned()));
    r.push(("per_page".to_owned(), "100".to_owned()));
    r
}

} // verus!
