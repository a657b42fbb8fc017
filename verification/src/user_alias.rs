//! What the callers of the user alias service hand in and get back.

use vstd::prelude::*;

verus! {

/// A request for another name of a user.
#[derive(Debug)]
pub struct CreateUserAlias {
    pub slug: String,
    pub target_user_id: i64,
    pub created_by_user_id: i64,
    pub bypass_filter: bool,
}

/// What the creation of an alias is answered with.
#[derive(Debug)]
pub struct CreateUserAliasOutput {
    pub alias_id: i64,
    pub slug: String,
}

} // verus!
