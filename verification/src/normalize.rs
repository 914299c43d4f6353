//! The normalizer: maps a raw [`User`] into a [`NewAuthUser`], applying the
//! company-rewrite rules to the free-text company field.

use vstd::prelude::*;

use crate::text::{ends_with, str_ends_with, str_eq, trim, trim_of};
use crate::types::{AuthUserView, NewAuthUser, SyncError, User, UserView};

verus! {

/// The company value after the rewrite rules, evaluated in priority order:
/// an organizational email domain or company name wins first, then the
/// manufacturing partner's domain, then one known company cleanup, then the
/// empty/placeholder cleanup; anything else passes through trimmed.
pub open spec fn company_of(email: Seq<char>, company: Seq<char>) -> Seq<char> {
    let t = trim_of(company);
    if ends_with(email, "@oxidecomputer.com"@) || ends_with(email, "@oxide.computer"@)
        || t == "Oxide Computer Company"@ {
        "@oxidecomputer"@
    } else if ends_with(email, "@bench.com"@) {
        "@bench"@
    } else if t == "Algolia"@ {
        "@algolia"@
    } else if t == "0xF9BA143B95FF6D82"@ || t.len() == 0 || t == "TBD"@ {
        Seq::<char>::empty()
    } else {
        t
    }
}

/// Apply the company-rewrite rules to a raw company and email pair.
pub fn normalize_company(email: &str, company: &str) -> (r: String)
    ensures
        r@ == company_of(email@, company@),
{
    let t = trim(company);
    if str_ends_with(email, "@oxidecomputer.com") || str_ends_with(email, "@oxide.computer")
        || str_eq(t, "Oxide Computer Company") {
        "@oxidecomputer".to_owned()
    } else if str_ends_with(email, "@bench.com") {
        "@bench".to_owned()
    } else if str_eq(t, "Algolia") {
        "@algolia".to_owned()
    } else if str_eq(t, "0xF9BA143B95FF6D82") || t.is_empty() || str_eq(t, "TBD") {
        String::new()
    } else {
        t.to_owned()
    }
}

/// The normalized record a user maps to, defined over the models alone.
/// Meaningful only when the user has at least one identity entry.
pub open spec fn spec_normalize(u: UserView) -> AuthUserView {
    AuthUserView {
        user_id: u.user_id,
        name: u.name,
        nickname: u.nickname,
        username: u.username,
        email: u.email,
        email_verified: u.email_verified,
        picture: u.picture,
        company: company_of(u.email, u.company),
        blog: u.blog,
        phone: u.phone_number,
        phone_verified: u.phone_verified,
        locale: u.locale,
        login_provider: u.identities[0].provider,
        created_at: u.created_at,
        updated_at: u.updated_at,
        last_login: u.last_login,
        last_ip: u.last_ip,
        logins_count: u.logins_count,
        link_to_people: Seq::empty(),
        last_application_accessed: Seq::empty(),
        link_to_auth_user_logins: Seq::empty(),
        link_to_page_views: Seq::empty(),
    }
}

impl User {
    /// Convert this raw user into a normalized record.
    ///
    /// Succeeds exactly when the user carries at least one identity entry
    /// (the login provider is read from the first one); a user without any
    /// is reported as [`SyncError::MissingIdentity`].
    pub fn to_auth_user(&self) -> (r: Result<NewAuthUser, SyncError>)
        ensures
            r is Ok <==> self.identities@.len() > 0,
            r is Err <==> r == Result::<NewAuthUser, SyncError>::Err(SyncError::MissingIdentity)
                && self.identities@.len() == 0,
            r matches Ok(a) ==> a@ == spec_normalize(self@),
    {
        if self.identities.len() == 0 {
            return Err(SyncError::MissingIdentity);
        }
        let a = NewAuthUser {
            user_id: self.user_id.clone(),
            name: self.name.clone(),
            nickname: self.nickname.clone(),
            username: self.username.clone(),
            email: self.email.clone(),
            email_verified: self.email_verified,
            picture: self.picture.clone(),
            company: normalize_company(self.email.as_str(), self.company.as_str()),
            blog: self.blog.clone(),
            phone: self.phone_number.clone(),
            phone_verified: self.phone_verified,
            locale: self.locale.clone(),
            login_provider: self.identities[0].provider.clone(),
            created_at: self.created_at,
            updated_at: self.updated_at,
            last_login: self.last_login,
            last_ip: self.last_ip.clone(),
            logins_count: self.logins_count,
            link_to_people: Vec::new(),
            last_application_accessed: String::new(),
            link_to_auth_user_logins: Vec::new(),
            link_to_page_views: Vec::new(),
        };
        proof {
            assert(self.identities@.map_values(|i: crate::types::Identity| i@)[0]
                == self.identities@[0]@);
            assert(a.link_to_people@.map_values(|s: String| s@)
                =~= Seq::<Seq<char>>::empty());
            assert(a.link_to_auth_user_logins@.map_values(|s: String| s@)
                =~= Seq::<Seq<char>>::empty());
            assert(a.link_to_page_views@.map_values(|s: String| s@)
                =~= Seq::<Seq<char>>::empty());
            assert(a@ == spec_normalize(self@));
        }
        Ok(a)
    }
}

/// Law: the company rewrite is a pure function. Two calls on equal company
/// and email pairs yield the same company value.
pub proof fn lemma_company_rewrite_pure(
    email1: Seq<char>,
    company1: Seq<char>,
    email2: Seq<char>,
    company2: Seq<char>,
)
    requires
        email1 == email2,
        company1 == company2,
    ensures
        company_of(email1, company1) == company_of(email2, company2),
{
}

/// Law: the rewrite rules are evaluated in their documented priority order.
/// Each clause applies exactly when its rule matches and every earlier rule
/// does not.
pub proof fn lemma_company_rewrite_priority(email: Seq<char>, company: Seq<char>)
    ensures
        (ends_with(email, "@oxidecomputer.com"@) || ends_with(email, "@oxide.computer"@)
            || trim_of(company) == "Oxide Computer Company"@)
            ==> company_of(email, company) == "@oxidecomputer"@,
        (!(ends_with(email, "@oxidecomputer.com"@) || ends_with(email, "@oxide.computer"@)
            || trim_of(company) == "Oxide Computer Company"@)
            && ends_with(email, "@bench.com"@))
            ==> company_of(email, company) == "@bench"@,
        (!(ends_with(email, "@oxidecomputer.com"@) || ends_with(email, "@oxide.computer"@)
            || trim_of(company) == "Oxide Computer Company"@)
            && !ends_with(email, "@bench.com"@)
            && trim_of(company) == "Algolia"@)
            ==> company_of(email, company) == "@algolia"@,
        (!(ends_with(email, "@oxidecomputer.com"@) || ends_with(email, "@oxide.computer"@)
            || trim_of(company) == "Oxide Computer Company"@)
            && !ends_with(email, "@bench.com"@)
            && trim_of(company) != "Algolia"@
            && (trim_of(company) == "0xF9BA143B95FF6D82"@ || trim_of(company).len() == 0
                || trim_of(company) == "TBD"@))
            ==> company_of(email, company) == Seq::<char>::empty(),
        (!(ends_with(email, "@oxidecomputer.com"@) || ends_with(email, "@oxide.computer"@)
            || trim_of(company) == "Oxide Computer Company"@)
            && !ends_with(email, "@bench.com"@)
            && trim_of(company) != "Algolia"@
            && !(trim_of(company) == "0xF9BA143B95FF6D82"@ || trim_of(company).len() == 0
                || trim_of(company) == "TBD"@))
            ==> company_of(email, company) == trim_of(company),
{
}

} // verus!
