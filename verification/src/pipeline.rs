//! Per-user processing: normalize each fetched user, take the last
//! application accessed from the most recent login entry, and stamp each
//! login entry with the user's email before it is handed to the sink.

use vstd::prelude::*;

use crate::normalize::spec_normalize;
use crate::types::{AuthUserView, LoginView, NewAuthUser, NewAuthUserLogin, SyncError, User, UserView};

verus! {

/// The views of a list of login entries.
pub open spec fn login_views(s: Seq<NewAuthUserLogin>) -> Seq<LoginView> {
    s.map_values(|l: NewAuthUserLogin| l@)
}

/// The views of a list of users.
pub open spec fn user_views(s: Seq<User>) -> Seq<UserView> {
    s.map_values(|u: User| u@)
}

/// The views of a list of normalized records.
pub open spec fn auth_user_views(s: Seq<NewAuthUser>) -> Seq<AuthUserView> {
    s.map_values(|a: NewAuthUser| a@)
}

/// What processing one user with their login entries produces: the
/// normalized record (with the last application accessed taken from the
/// first, most recent, login entry when there is one), and the login
/// entries stamped with the user's email. Meaningful only when the user has
/// at least one identity entry.
pub open spec fn spec_process_user(u: UserView, logs: Seq<LoginView>) -> (AuthUserView, Seq<
    LoginView,
>) {
    let base = spec_normalize(u);
    let record = if logs.len() > 0 {
        AuthUserView { last_application_accessed: logs[0].client_name, ..base }
    } else {
        base
    };
    let stamped = logs.map_values(|l: LoginView| LoginView { email: u.email, ..l });
    (record, stamped)
}

/// Set the last application accessed from the first (most recent) login
/// entry, when there is one; leave the record as it is otherwise.
pub fn set_last_application(record: &mut NewAuthUser, logins: &Vec<NewAuthUserLogin>)
    ensures
        logins@.len() > 0 ==> final(record)@ == (AuthUserView {
            last_application_accessed: logins@[0]@.client_name,
            ..old(record)@
        }),
        logins@.len() == 0 ==> *final(record) == *old(record),
{
    if logins.len() > 0 {
        record.last_application_accessed = logins[0].client_name.clone();
    }
}

/// Stamp every login entry with the user's email; nothing else changes.
pub fn stamp_emails(logins: &mut Vec<NewAuthUserLogin>, email: &String)
    ensures
        final(logins)@.len() == old(logins)@.len(),
        forall|i: int|
            0 <= i < old(logins)@.len() ==> final(logins)@[i]@ == (LoginView {
                email: email@,
                ..old(logins)@[i]@
            }),
{
    let mut out: Vec<NewAuthUserLogin> = Vec::new();
    let mut k: usize = 0;
    while k < logins.len()
        invariant
            0 <= k <= logins@.len(),
            out@.len() == k,
            forall|i: int|
                0 <= i < k ==> out@[i]@ == (LoginView { email: email@, ..logins@[i]@ }),
        decreases logins@.len() - k,
    {
        let l = &logins[k];
        out.push(
            NewAuthUserLogin {
                user_id: l.user_id.clone(),
                date: l.date,
                client_name: l.client_name.clone(),
                email: email.clone(),
            },
        );
        k = k + 1;
    }
    *logins = out;
}

/// Process one fetched user: normalize, pick up the last application
/// accessed, and stamp the login entries with the user's email.
///
/// Succeeds exactly when the user carries at least one identity entry.
pub fn process_user(user: &User, logins: Vec<NewAuthUserLogin>) -> (r: Result<
    (NewAuthUser, Vec<NewAuthUserLogin>),
    SyncError,
>)
    ensures
        r is Ok <==> user.identities@.len() > 0,
        r matches Ok(p) ==> p.0@ == spec_process_user(user@, login_views(logins@)).0,
        r matches Ok(p) ==> login_views(p.1@) == spec_process_user(
            user@,
            login_views(logins@),
        ).1,
        r is Err ==> r == Result::<(NewAuthUser, Vec<NewAuthUserLogin>), SyncError>::Err(
            SyncError::MissingIdentity,
        ),
{
    let ghost orig_logins = logins@;
    let mut record = match user.to_auth_user() {
        Ok(a) => a,
        Err(e) => {
            return Err(e);
        },
    };
    set_last_application(&mut record, &logins);
    let mut logs = logins;
    stamp_emails(&mut logs, &user.email);
    proof {
        assert(login_views(logs@) =~= spec_process_user(user@, login_views(orig_logins)).1);
        if orig_logins.len() > 0 {
            assert(login_views(orig_logins)[0] == orig_logins[0]@);
        }
        assert(record@ == spec_process_user(user@, login_views(orig_logins)).0);
    }
    Ok((record, logs))
}

/// Every user carries at least one identity entry.
pub open spec fn all_have_identity(users: Seq<UserView>) -> bool {
    forall|i: int| 0 <= i < users.len() ==> users[i].identities.len() > 0
}

/// What processing a whole run's users produces, user by user in fetch
/// order: the normalized records, and all stamped login entries
/// concatenated in the same order. `logs[i]` holds the login entries
/// fetched for `users[i]`. Meaningful only when every user has at least one
/// identity entry.
pub open spec fn spec_process_users(users: Seq<UserView>, logs: Seq<Seq<LoginView>>) -> (Seq<
    AuthUserView,
>, Seq<LoginView>)
    decreases users.len(),
{
    if users.len() == 0 {
        (Seq::empty(), Seq::empty())
    } else {
        let head = spec_process_user(users[0], logs[0]);
        let rest = spec_process_users(users.drop_first(), logs.drop_first());
        (seq![head.0] + rest.0, head.1 + rest.1)
    }
}

/// The views of a list of lists of login entries.
pub open spec fn login_page_views(s: Seq<Vec<NewAuthUserLogin>>) -> Seq<Seq<LoginView>> {
    s.map_values(|v: Vec<NewAuthUserLogin>| login_views(v@))
}

/// Process a whole run: each fetched user with their fetched login entries,
/// in order. Succeeds exactly when every user carries at least one identity
/// entry; the first user without one is reported and nothing is returned.
#[verifier::loop_isolation(false)]
pub fn process_users(users: Vec<User>, logs: Vec<Vec<NewAuthUserLogin>>) -> (r: Result<
    (Vec<NewAuthUser>, Vec<NewAuthUserLogin>),
    SyncError,
>)
    requires
        users@.len() == logs@.len(),
    ensures
        r is Ok <==> all_have_identity(user_views(users@)),
        r matches Ok(p) ==> auth_user_views(p.0@) == spec_process_users(
            user_views(users@),
            login_page_views(logs@),
        ).0,
        r matches Ok(p) ==> login_views(p.1@) == spec_process_users(
            user_views(users@),
            login_page_views(logs@),
        ).1,
        r is Err ==> r == Result::<(Vec<NewAuthUser>, Vec<NewAuthUserLogin>), SyncError>::Err(
            SyncError::MissingIdentity,
        ),
{
    let ghost all_users = user_views(users@);
    let ghost all_logs = login_page_views(logs@);
    let mut rest_users = users;
    let mut rest_logs = logs;
    let mut records: Vec<NewAuthUser> = Vec::new();
    let mut entries: Vec<NewAuthUserLogin> = Vec::new();
    while rest_users.len() > 0
        invariant
            rest_users@.len() == rest_logs@.len(),
            all_have_identity(all_users) <==> all_have_identity(user_views(rest_users@)),
            spec_process_users(all_users, all_logs).0 == auth_user_views(records@)
                + spec_process_users(user_views(rest_users@), login_page_views(rest_logs@)).0,
            spec_process_users(all_users, all_logs).1 == login_views(entries@)
                + spec_process_users(user_views(rest_users@), login_page_views(rest_logs@)).1,
        decreases rest_users@.len(),
    {
        let ghost ru_before = user_views(rest_users@);
        let ghost rl_before = login_page_views(rest_logs@);
        let user = rest_users.remove(0);
        let user_logs = rest_logs.remove(0);
        proof {
            assert(user_views(rest_users@) =~= ru_before.drop_first());
            assert(login_page_views(rest_logs@) =~= rl_before.drop_first());
            assert(ru_before[0] == user@);
            assert(rl_before[0] == login_views(user_logs@));
        }
        let (record, mut stamped) = match process_user(&user, user_logs) {
            Ok(p) => p,
            Err(e) => {
                proof {
                    assert(ru_before[0].identities.len() == 0);
                    assert(!all_have_identity(ru_before));
                }
                return Err(e);
            },
        };
        proof {
            assert(user@.identities.len() > 0);
            if all_have_identity(ru_before.drop_first()) {
                assert forall|i: int|
                    0 <= i < ru_before.len() implies ru_before[i].identities.len() > 0 by {
                    if i > 0 {
                        assert(ru_before.drop_first()[i - 1] == ru_before[i]);
                    }
                }
                assert(all_have_identity(ru_before));
            }
            if all_have_identity(ru_before) {
                assert forall|i: int|
                    0 <= i < ru_before.drop_first().len()
                        implies ru_before.drop_first()[i].identities.len() > 0 by {
                    assert(ru_before.drop_first()[i] == ru_before[i + 1]);
                }
                assert(all_have_identity(ru_before.drop_first()));
            }
        }
        let ghost records_before = auth_user_views(records@);
        let ghost entries_before = login_views(entries@);
        let ghost head = spec_process_user(ru_before[0], rl_before[0]);
        records.push(record);
        entries.append(&mut stamped);
        proof {
            assert(auth_user_views(records@) =~= records_before + seq![head.0]);
            assert(records_before + (seq![head.0] + spec_process_users(
                user_views(rest_users@),
                login_page_views(rest_logs@),
            ).0) =~= (records_before + seq![head.0]) + spec_process_users(
                user_views(rest_users@),
                login_page_views(rest_logs@),
            ).0);
            assert(login_views(entries@) =~= entries_before + head.1);
            assert(entries_before + (head.1 + spec_process_users(
                user_views(rest_users@),
                login_page_views(rest_logs@),
            ).1) =~= (entries_before + head.1) + spec_process_users(
                user_views(rest_users@),
                login_page_views(rest_logs@),
            ).1);
        }
    }
    proof {
        assert(user_views(rest_users@) =~= Seq::<UserView>::empty());
        assert(login_page_views(rest_logs@) =~= Seq::<Seq<LoginView>>::empty());
        assert(auth_user_views(records@) =~= spec_process_users(all_users, all_logs).0);
        assert(login_views(entries@) =~= spec_process_users(all_users, all_logs).1);
    }
    Ok((records, entries))
}

/// Law: the pipeline is idempotent over an unchanged dataset. Two runs over
/// the same fetched users and login entries produce identical normalized
/// records and identical stamped login entries, so the second run's upserts
/// rewrite what the first already wrote.
pub proof fn lemma_run_twice_identical(
    users: Seq<UserView>,
    logs: Seq<Seq<LoginView>>,
    first: (Seq<AuthUserView>, Seq<LoginView>),
    second: (Seq<AuthUserView>, Seq<LoginView>),
)
    requires
        first == spec_process_users(users, logs),
        second == spec_process_users(users, logs),
    ensures
        first == second,
{
}

} // verus!
