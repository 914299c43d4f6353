use auth_sync::normalize::normalize_company;
use auth_sync::types::{Identity, SyncError, User};

fn mk_identity(provider: &str) -> Identity {
    Identity {
        access_token: String::new(),
        provider: provider.to_string(),
        user_id: "auth0|123".to_string(),
        connection: "Username-Password-Authentication".to_string(),
        is_social: false,
    }
}

fn mk_user(email: &str, company: &str, identities: Vec<Identity>) -> User {
    User {
        user_id: "auth0|123".to_string(),
        email: email.to_string(),
        email_verified: true,
        username: "user".to_string(),
        family_name: "Family".to_string(),
        given_name: "Given".to_string(),
        name: "Given Family".to_string(),
        nickname: "given".to_string(),
        picture: "https://example.com/p.png".to_string(),
        phone_number: String::new(),
        phone_verified: false,
        locale: "en".to_string(),
        identities,
        created_at: 1_500_000_000,
        updated_at: 1_590_000_000,
        last_login: 1_600_000_000,
        last_ip: "203.0.113.5".to_string(),
        logins_count: 42,
        blog: "https://blog.example.com".to_string(),
        company: company.to_string(),
    }
}

#[test]
fn company_oxide_email() {
    let user = mk_user("a@oxidecomputer.com", "whatever", vec![mk_identity("google-oauth2")]);
    let record = user.to_auth_user().unwrap();
    assert_eq!(record.company, "@oxidecomputer");
}

#[test]
fn company_oxide_alt_domain() {
    assert_eq!(normalize_company("b@oxide.computer", "anything"), "@oxidecomputer");
}

#[test]
fn company_oxide_by_name() {
    assert_eq!(normalize_company("x@gmail.com", "  Oxide Computer Company  "), "@oxidecomputer");
}

#[test]
fn company_bench_email() {
    assert_eq!(normalize_company("y@bench.com", "Benchmark"), "@bench");
}

#[test]
fn company_algolia() {
    assert_eq!(normalize_company("z@example.com", " Algolia "), "@algolia");
}

#[test]
fn company_tbd_becomes_empty() {
    let user = mk_user("d@example.com", "TBD", vec![mk_identity("github")]);
    let record = user.to_auth_user().unwrap();
    assert_eq!(record.company, "");
}

#[test]
fn company_garbage_becomes_empty() {
    assert_eq!(normalize_company("d@example.com", "0xF9BA143B95FF6D82"), "");
}

#[test]
fn company_whitespace_becomes_empty() {
    assert_eq!(normalize_company("d@example.com", "   "), "");
    assert_eq!(normalize_company("d@example.com", ""), "");
}

#[test]
fn company_passthrough_is_trimmed() {
    assert_eq!(normalize_company("z@acme.com", "  Acme Corp  "), "Acme Corp");
}

#[test]
fn company_rewrite_is_deterministic() {
    let a = normalize_company("a@oxidecomputer.com", "whatever");
    let b = normalize_company("a@oxidecomputer.com", "whatever");
    assert_eq!(a, b);
    let c = normalize_company("z@acme.com", " Acme ");
    let d = normalize_company("z@acme.com", " Acme ");
    assert_eq!(c, d);
}

#[test]
fn missing_identity_is_reported() {
    let user = mk_user("a@example.com", "Acme", vec![]);
    assert_eq!(user.to_auth_user(), Err(SyncError::MissingIdentity));
}

#[test]
fn to_auth_user_carries_fields_over() {
    let user = mk_user("a@example.com", "Acme", vec![mk_identity("github"), mk_identity("google-oauth2")]);
    let record = user.to_auth_user().unwrap();
    assert_eq!(record.user_id, "auth0|123");
    assert_eq!(record.email, "a@example.com");
    assert_eq!(record.name, "Given Family");
    assert_eq!(record.nickname, "given");
    assert_eq!(record.username, "user");
    assert!(record.email_verified);
    assert_eq!(record.picture, "https://example.com/p.png");
    assert_eq!(record.company, "Acme");
    assert_eq!(record.blog, "https://blog.example.com");
    assert_eq!(record.phone, "");
    assert!(!record.phone_verified);
    assert_eq!(record.locale, "en");
    assert_eq!(record.login_provider, "github");
    assert_eq!(record.created_at, 1_500_000_000);
    assert_eq!(record.updated_at, 1_590_000_000);
    assert_eq!(record.last_login, 1_600_000_000);
    assert_eq!(record.last_ip, "203.0.113.5");
    assert_eq!(record.logins_count, 42);
    assert!(record.link_to_people.is_empty());
    assert_eq!(record.last_application_accessed, "");
    assert!(record.link_to_auth_user_logins.is_empty());
    assert!(record.link_to_page_views.is_empty());
}
