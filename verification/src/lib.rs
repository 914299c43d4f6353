//! A verified core for syncing user-identity records out of an identity
//! provider: pagination over fixed-size user pages, per-user login logs
//! with rate-limit handling, normalization of the fetched records, and the
//! requests the pipeline issues. Network transport and the upsert sink
//! stay outside; every decision the pipeline takes is specified and proved
//! here.

use vstd::prelude::*;

pub mod normalize;
pub mod pagination;
pub mod pipeline;
pub mod ratelimit;
pub mod requests;
pub mod text;
pub mod types;

pub use types::{
    AuthUserView, Identity, IdentityView, LoginView, NewAuthUser, NewAuthUserLogin, SyncError,
    Token, User, UserView,
};

verus! {

} // verus!
