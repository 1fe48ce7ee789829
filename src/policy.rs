use crate::entities::{account_by_id_and_token, accounts_well_formed, StoreError, User};
use crate::jwt::Jwt;
use vstd::prelude::*;

verus! {

/// The answer to "may this token act for this account".
#[derive(Clone, Debug, PartialEq, Eq)]
pub enum Authorization {
    /// The token is on file for the account, which is carried along.
    Authorized(User),
    /// The token does not verify, or is not the one on file for the account.
    Unauthorized,
    /// The store failed.
    Internal,
}

/// The decision once the token has verified: `found` is what the store gave
/// for the claimed owner and the token. Only an account under that very id
/// with that very token on file authorizes.
pub open spec fn settled(owner_id: i32, token: Seq<char>, found: Result<Option<User>, StoreError>) -> Authorization {
    match found {
        Err(_) => Authorization::Internal,
        Ok(Some(user)) => if user.id == owner_id && user.jwt@ == token {
            Authorization::Authorized(user)
        } else {
            Authorization::Unauthorized
        },
        Ok(None) => Authorization::Unauthorized,
    }
}

/// The whole decision: a token that does not verify is turned away before the
/// store is asked.
pub open spec fn authorization(
    subject: Option<Seq<char>>,
    owner_id: i32,
    token: Seq<char>,
    found: Result<Option<User>, StoreError>,
) -> Authorization {
    if subject is None {
        Authorization::Unauthorized
    } else {
        settled(owner_id, token, found)
    }
}

/// Decides on what the store gave for `owner_id` and `token`, once `token` has
/// verified. The stored row is compared again, so a lookup that matched
/// loosely cannot authorize.
pub fn conclude(owner_id: i32, token: &String, found: Result<Option<User>, StoreError>) -> (r: Authorization)
    ensures
        r == settled(owner_id, token@, found),
{
    match found {
        Err(_) => Authorization::Internal,
        Ok(Some(user)) => {
            if user.id == owner_id && user.jwt == *token {
                Authorization::Authorized(user)
            } else {
                Authorization::Unauthorized
            }
        },
        Ok(None) => Authorization::Unauthorized,
    }
}

/// A token authorizes acting for an account exactly when it verifies and it is
/// the token on file for that account: the store being asked for the account
/// under `owner_id` with `token`, as it answers from `accounts`.
pub proof fn authorized_iff_verified_and_on_file(
    jwt: Jwt,
    token: Seq<char>,
    owner_id: i32,
    now: int,
    accounts: Map<i32, User>,
)
    requires
        accounts_well_formed(accounts),
    ensures
        authorization(
            jwt.verified_subject(token, now),
            owner_id,
            token,
            Ok(account_by_id_and_token(accounts, owner_id, token)),
        ) is Authorized <==> (jwt.verified_subject(token, now) is Some && accounts.contains_key(
            owner_id,
        ) && accounts[owner_id].jwt@ == token),
{
}

} // verus!
