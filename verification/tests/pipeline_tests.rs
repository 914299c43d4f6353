use auth_sync::pipeline::{process_user, process_users, set_last_application, stamp_emails};
use auth_sync::types::{Identity, NewAuthUserLogin, SyncError, User};

fn mk_user(n: u32, email: &str) -> User {
    User {
        user_id: format!("auth0|{}", n),
        email: email.to_string(),
        email_verified: true,
        username: String::new(),
        family_name: String::new(),
        given_name: String::new(),
        name: format!("User {}", n),
        nickname: format!("user{}", n),
        picture: String::new(),
        phone_number: String::new(),
        phone_verified: false,
        locale: String::new(),
        identities: vec![Identity {
            access_token: String::new(),
            provider: "github".to_string(),
            user_id: format!("{}", n),
            connection: "github".to_string(),
            is_social: true,
        }],
        created_at: 0,
        updated_at: 0,
        last_login: 0,
        last_ip: String::new(),
        logins_count: 1,
        blog: String::new(),
        company: String::new(),
    }
}

fn mk_login(n: u32, client_name: &str) -> NewAuthUserLogin {
    NewAuthUserLogin {
        user_id: format!("auth0|{}", n),
        date: 1_600_000_000 + i64::from(n),
        client_name: client_name.to_string(),
        email: String::new(),
    }
}

#[test]
fn last_application_comes_from_first_log_entry() {
    let user = mk_user(1, "a@example.com");
    let logs = vec![mk_login(1, "Console")];
    let (record, stamped) = process_user(&user, logs).unwrap();
    assert_eq!(record.last_application_accessed, "Console");
    assert_eq!(stamped.len(), 1);
    assert_eq!(stamped[0].email, "a@example.com");
    assert_eq!(stamped[0].client_name, "Console");
}

#[test]
fn no_logs_leaves_last_application_empty() {
    let user = mk_user(1, "a@example.com");
    let (record, stamped) = process_user(&user, Vec::new()).unwrap();
    assert_eq!(record.last_application_accessed, "");
    assert!(stamped.is_empty());
}

#[test]
fn set_last_application_prefers_the_most_recent() {
    let user = mk_user(1, "a@example.com");
    let mut record = user.to_auth_user().unwrap();
    let logs = vec![mk_login(1, "Console"), mk_login(1, "API")];
    set_last_application(&mut record, &logs);
    assert_eq!(record.last_application_accessed, "Console");
}

#[test]
fn stamp_emails_touches_only_the_email() {
    let mut logs = vec![mk_login(1, "Console"), mk_login(1, "API")];
    stamp_emails(&mut logs, &"a@example.com".to_string());
    assert_eq!(logs.len(), 2);
    for l in &logs {
        assert_eq!(l.email, "a@example.com");
    }
    assert_eq!(logs[0].client_name, "Console");
    assert_eq!(logs[1].client_name, "API");
    assert_eq!(logs[0].user_id, "auth0|1");
}

#[test]
fn process_users_handles_a_whole_run() {
    let users = vec![mk_user(1, "a@example.com"), mk_user(2, "b@oxidecomputer.com")];
    let logs = vec![vec![mk_login(1, "Console")], Vec::new()];
    let (records, entries) = process_users(users, logs).unwrap();
    assert_eq!(records.len(), 2);
    assert_eq!(records[0].last_application_accessed, "Console");
    assert_eq!(records[1].last_application_accessed, "");
    assert_eq!(records[1].company, "@oxidecomputer");
    assert_eq!(entries.len(), 1);
    assert_eq!(entries[0].email, "a@example.com");
}

#[test]
fn process_users_runs_identically_twice() {
    let users = vec![mk_user(1, "a@example.com"), mk_user(2, "b@oxidecomputer.com")];
    let logs = vec![vec![mk_login(1, "Console"), mk_login(1, "API")], Vec::new()];
    let first = process_users(users.clone(), logs.clone()).unwrap();
    let second = process_users(users, logs).unwrap();
    assert_eq!(first, second);
}

#[test]
fn process_users_reports_a_user_without_identities() {
    let mut orphan = mk_user(3, "c@example.com");
    orphan.identities = Vec::new();
    let users = vec![mk_user(1, "a@example.com"), orphan];
    let logs = vec![Vec::new(), Vec::new()];
    assert_eq!(process_users(users, logs), Err(SyncError::MissingIdentity));
}
