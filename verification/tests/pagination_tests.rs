use auth_sync::pagination::{collect_all, Pagination};
use auth_sync::types::{Identity, User};

fn mk_user(n: u32) -> User {
    User {
        user_id: format!("auth0|{}", n),
        email: format!("user{}@example.com", n),
        email_verified: true,
        username: String::new(),
        family_name: String::new(),
        given_name: String::new(),
        name: format!("User {}", n),
        nickname: format!("user{}", n),
        picture: String::new(),
        phone_number: String::new(),
        phone_verified: false,
        locale: String::new(),
        identities: vec![Identity {
            access_token: String::new(),
            provider: "github".to_string(),
            user_id: format!("{}", n),
            connection: "github".to_string(),
            is_social: true,
        }],
        created_at: 0,
        updated_at: 0,
        last_login: 0,
        last_ip: String::new(),
        logins_count: 1,
        blog: String::new(),
        company: String::new(),
    }
}

fn page_of(count: u32) -> Vec<User> {
    (0..count).map(mk_user).collect()
}

#[test]
fn full_page_then_empty_page() {
    let mut st = Pagination::new();
    assert_eq!(st.current_request(), Some(0));
    st.on_page(page_of(20));
    assert_eq!(st.current_request(), Some(1));
    assert!(!st.done);
    st.on_page(Vec::new());
    assert_eq!(st.current_request(), None);
    assert!(st.done);
    assert_eq!(st.users.len(), 20);
    assert_eq!(st.next_page, 2);
}

#[test]
fn collect_all_stops_at_first_empty_page() {
    let st = collect_all(vec![page_of(2), Vec::new(), page_of(4)]);
    assert!(st.done);
    assert_eq!(st.users.len(), 2);
    assert_eq!(st.next_page, 2);
}

#[test]
fn collect_all_consumes_every_page() {
    let st = collect_all(vec![page_of(2), page_of(3)]);
    assert!(!st.done);
    assert_eq!(st.users.len(), 5);
    assert_eq!(st.next_page, 2);
}

#[test]
fn collect_all_of_nothing_collects_nothing() {
    let st = collect_all(Vec::new());
    assert!(!st.done);
    assert_eq!(st.users.len(), 0);
    assert_eq!(st.next_page, 0);
}

#[test]
fn pages_are_requested_contiguously() {
    let mut st = Pagination::new();
    let mut requested = Vec::new();
    let pages = vec![page_of(3), page_of(1), Vec::new()];
    for page in pages {
        match st.current_request() {
            Some(i) => requested.push(i),
            None => break,
        }
        st.on_page(page);
    }
    assert_eq!(requested, vec![0, 1, 2]);
    assert_eq!(st.users.len(), 4);
}
