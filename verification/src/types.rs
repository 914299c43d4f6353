use vstd::prelude::*;

verus! {

/// One authentication method bound to a user: the provider that vouches for
/// them, the provider-specific subject id, and the connection it came through.
#[derive(Clone, Debug, PartialEq)]
pub struct Identity {
    pub access_token: String,
    pub provider: String,
    pub user_id: String,
    pub connection: String,
    pub is_social: bool,
}

/// Mathematical model of an [`Identity`].
pub ghost struct IdentityView {
    pub access_token: Seq<char>,
    pub provider: Seq<char>,
    pub user_id: Seq<char>,
    pub connection: Seq<char>,
    pub is_social: bool,
}

impl View for Identity {
    type V = IdentityView;

    open spec fn view(&self) -> IdentityView {
        IdentityView {
            access_token: self.access_token@,
            provider: self.provider@,
            user_id: self.user_id@,
            connection: self.connection@,
            is_social: self.is_social,
        }
    }
}

/// A raw user record as the identity provider hands it out.
///
/// Timestamps are whole seconds since the Unix epoch.
#[derive(Clone, Debug, PartialEq)]
pub struct User {
    pub user_id: String,
    pub email: String,
    pub email_verified: bool,
    pub username: String,
    pub family_name: String,
    pub given_name: String,
    pub name: String,
    pub nickname: String,
    pub picture: String,
    pub phone_number: String,
    pub phone_verified: bool,
    pub locale: String,
    pub identities: Vec<Identity>,
    pub created_at: i64,
    pub updated_at: i64,
    pub last_login: i64,
    pub last_ip: String,
    pub logins_count: i32,
    pub blog: String,
    pub company: String,
}

/// Mathematical model of a [`User`].
pub ghost struct UserView {
    pub user_id: Seq<char>,
    pub email: Seq<char>,
    pub email_verified: bool,
    pub username: Seq<char>,
    pub family_name: Seq<char>,
    pub given_name: Seq<char>,
    pub name: Seq<char>,
    pub nickname: Seq<char>,
    pub picture: Seq<char>,
    pub phone_number: Seq<char>,
    pub phone_verified: bool,
    pub locale: Seq<char>,
    pub identities: Seq<IdentityView>,
    pub created_at: int,
    pub updated_at: int,
    pub last_login: int,
    pub last_ip: Seq<char>,
    pub logins_count: int,
    pub blog: Seq<char>,
    pub company: Seq<char>,
}

impl View for User {
    type V = UserView;

    open spec fn view(&self) -> UserView {
        UserView {
            user_id: self.user_id@,
            email: self.email@,
            email_verified: self.email_verified,
            username: self.username@,
            family_name: self.family_name@,
            given_name: self.given_name@,
            name: self.name@,
            nickname: self.nickname@,
            picture: self.picture@,
            phone_number: self.phone_number@,
            phone_verified: self.phone_verified,
            locale: self.locale@,
            identities: self.identities@.map_values(|i: Identity| i@),
            created_at: self.created_at as int,
            updated_at: self.updated_at as int,
            last_login: self.last_login as int,
            last_ip: self.last_ip@,
            logins_count: self.logins_count as int,
            blog: self.blog@,
            company: self.company@,
        }
    }
}

/// An ephemeral bearer credential, good for one sync run.
#[derive(Clone, Debug, PartialEq)]
pub struct Token {
    pub access_token: String,
    pub token_type: String,
}

/// The normalized internal record derived from a [`User`].
///
/// The link fields stay empty here: they are filled by later enrichment
/// outside this pipeline.
#[derive(Clone, Debug, PartialEq)]
pub struct NewAuthUser {
    pub user_id: String,
    pub name: String,
    pub nickname: String,
    pub username: String,
    pub email: String,
    pub email_verified: bool,
    pub picture: String,
    pub company: String,
    pub blog: String,
    pub phone: String,
    pub phone_verified: bool,
    pub locale: String,
    pub login_provider: String,
    pub created_at: i64,
    pub updated_at: i64,
    pub last_login: i64,
    pub last_ip: String,
    pub logins_count: i32,
    pub link_to_people: Vec<String>,
    pub last_application_accessed: String,
    pub link_to_auth_user_logins: Vec<String>,
    pub link_to_page_views: Vec<String>,
}

/// Mathematical model of a [`NewAuthUser`].
pub ghost struct AuthUserView {
    pub user_id: Seq<char>,
    pub name: Seq<char>,
    pub nickname: Seq<char>,
    pub username: Seq<char>,
    pub email: Seq<char>,
    pub email_verified: bool,
    pub picture: Seq<char>,
    pub company: Seq<char>,
    pub blog: Seq<char>,
    pub phone: Seq<char>,
    pub phone_verified: bool,
    pub locale: Seq<char>,
    pub login_provider: Seq<char>,
    pub created_at: int,
    pub updated_at: int,
    pub last_login: int,
    pub last_ip: Seq<char>,
    pub logins_count: int,
    pub link_to_people: Seq<Seq<char>>,
    pub last_application_accessed: Seq<char>,
    pub link_to_auth_user_logins: Seq<Seq<char>>,
    pub link_to_page_views: Seq<Seq<char>>,
}

impl View for NewAuthUser {
    type V = AuthUserView;

    open spec fn view(&self) -> AuthUserView {
        AuthUserView {
            user_id: self.user_id@,
            name: self.name@,
            nickname: self.nickname@,
            username: self.username@,
            email: self.email@,
            email_verified: self.email_verified,
            picture: self.picture@,
            company: self.company@,
            blog: self.blog@,
            phone: self.phone@,
            phone_verified: self.phone_verified,
            locale: self.locale@,
            login_provider: self.login_provider@,
            created_at: self.created_at as int,
            updated_at: self.updated_at as int,
            last_login: self.last_login as int,
            last_ip: self.last_ip@,
            logins_count: self.logins_count as int,
            link_to_people: self.link_to_people@.map_values(|s: String| s@),
            last_application_accessed: self.last_application_accessed@,
            link_to_auth_user_logins: self.link_to_auth_user_logins@.map_values(|s: String| s@),
            link_to_page_views: self.link_to_page_views@.map_values(|s: String| s@),
        }
    }
}

/// One login occurrence for a user: when it happened, through which
/// application, and (stamped in at processing time) the user's email.
#[derive(Clone, Debug, PartialEq)]
pub struct NewAuthUserLogin {
    pub user_id: String,
    pub date: i64,
    pub client_name: String,
    pub email: String,
}

/// Mathematical model of a [`NewAuthUserLogin`].
pub ghost struct LoginView {
    pub user_id: Seq<char>,
    pub date: int,
    pub client_name: Seq<char>,
    pub email: Seq<char>,
}

impl View for NewAuthUserLogin {
    type V = LoginView;

    open spec fn view(&self) -> LoginView {
        LoginView {
            user_id: self.user_id@,
            date: self.date as int,
            client_name: self.client_name@,
            email: self.email@,
        }
    }
}

/// The one failure the normalizer can report: a user record without any
/// identity entry, whose login provider therefore cannot be read.
#[derive(Clone, Copy, Debug, PartialEq, Eq)]
pub enum SyncError {
    MissingIdentity,
}

} // verus!
