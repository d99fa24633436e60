//! What holds of the flows together, over every store and every input.

use vstd::prelude::*;

use crate::auth_handler::{user_found, user_not_found};
use crate::clock::CONFIRMATION_LIFETIME;
use crate::errors::AuthErrorView;
use crate::models::{can_issue_at, issued, ConfirmationView, SessionUserView, UserView};
use crate::password_handler::{activation, invalid_confirmation, redeemed};
use crate::register_handler::record_insertion;
use crate::store::{
    confirmation_with_id, lemma_inserts_keep_store_valid_confirmation,
    lemma_inserts_keep_store_valid_user, rows_of, store_valid, user_with_email, user_with_id,
    StoreView,
};

verus! {

/// A registration followed by an activation with the identifier it gave
/// succeeds exactly once. The first activation before the expiry, with a
/// hashed password and for an email address that has no account yet, gives
/// the identity of the new account; every later one before the expiry,
/// whatever its password, is refused with a duplicate value and changes
/// nothing.
pub proof fn lemma_activation_succeeds_once(
    store: StoreView,
    email: Seq<char>,
    token: u128,
    issued_at: i64,
    first_hash: Seq<char>,
    first_id: u128,
    first_at: i64,
    second_hash: Seq<char>,
    second_id: u128,
    second_at: i64,
)
    requires
        can_issue_at(issued_at),
        record_insertion(store, email, token, issued_at).1 is Ok,
        user_with_email(store.users, email) is None,
        user_with_id(store.users, first_id) is None,
        first_at < issued_at + CONFIRMATION_LIFETIME,
        second_at < issued_at + CONFIRMATION_LIFETIME,
        first_hash.len() > 0,
        second_hash.len() > 0,
    ensures
        ({
            let registered = record_insertion(store, email, token, issued_at).0;
            let (activated, first) = activation(
                registered,
                token,
                Some(first_hash),
                first_id,
                first_at,
            );
            let (after, second) = activation(
                activated,
                token,
                Some(second_hash),
                second_id,
                second_at,
            );
            &&& first == Ok::<SessionUserView, AuthErrorView>(
                SessionUserView { id: first_id, email },
            )
            &&& second is Err
            &&& second->Err_0 is DuplicateValue
            &&& after == activated
        }),
{
    let registered = record_insertion(store, email, token, issued_at).0;
    assert(registered.confirmations.last() == issued(token, email, issued_at));
    assert(registered.confirmations.drop_last() =~= store.confirmations);
    let activated = activation(registered, token, Some(first_hash), first_id, first_at).0;
    assert(activated.users.drop_last() =~= store.users);
}

/// An activation under an identifier that no confirmation has is refused
/// and changes nothing.
pub proof fn lemma_unknown_token_refused(
    store: StoreView,
    token: u128,
    hashed: Option<Seq<char>>,
    id: u128,
    at: i64,
)
    requires
        confirmation_with_id(store.confirmations, token) is None,
    ensures
        activation(store, token, hashed, id, at) == (
            store,
            Err::<SessionUserView, AuthErrorView>(invalid_confirmation()),
        ),
{
}

/// An activation with a confirmation that has expired fails as one with a
/// confirmation that is not there: with the same error, and nothing changes.
/// So does every other lookup of a confirmation: it finds an expired one as
/// little as one that is not there.
pub proof fn lemma_expired_token_as_unknown(
    store: StoreView,
    other: StoreView,
    token: u128,
    hashed: Option<Seq<char>>,
    id: u128,
    at: i64,
)
    requires
        confirmation_with_id(store.confirmations, token) matches Some(found) && found.expires_at
            <= at,
        confirmation_with_id(other.confirmations, token) is None,
    ensures
        activation(store, token, hashed, id, at).0 == store,
        activation(other, token, hashed, id, at).0 == other,
        activation(store, token, hashed, id, at).1 == activation(other, token, hashed, id, at).1,
        activation(store, token, hashed, id, at).1 == Err::<SessionUserView, AuthErrorView>(
            invalid_confirmation(),
        ),
        redeemed(Ok(rows_of(confirmation_with_id(store.confirmations, token))), at) == redeemed(
            Ok(rows_of(confirmation_with_id(other.confirmations, token))),
            at,
        ),
        redeemed(Ok(rows_of(confirmation_with_id(store.confirmations, token))), at) == Err::<
            ConfirmationView,
            AuthErrorView,
        >(invalid_confirmation()),
{
}

/// After an activation that went through, a sign-in with the account's email
/// address and a password that the verifier accepts gives the identity that
/// the activation gave: the account's identifier and email address.
pub proof fn lemma_sign_in_after_activation(
    store: StoreView,
    token: u128,
    hashed: Option<Seq<char>>,
    id: u128,
    at: i64,
)
    requires
        activation(store, token, hashed, id, at).1 is Ok,
    ensures
        ({
            let (after, activated) = activation(store, token, hashed, id, at);
            let identity = activated->Ok_0;
            &&& identity.id == id
            &&& user_with_email(after.users, identity.email) matches Some(account)
                && account.id == id && account.email == identity.email
            &&& user_found(Ok(rows_of(user_with_email(after.users, identity.email))), Some(true))
                == activated
        }),
{
}

/// A sign-in with a password that the verifier does not accept and a sign-in
/// with an email address that no account has fail with one and the same
/// error.
pub proof fn lemma_sign_in_failures_alike(
    store: StoreView,
    known: Seq<char>,
    unknown: Seq<char>,
    verdict: Option<bool>,
    any: Option<bool>,
)
    requires
        user_with_email(store.users, known) is Some,
        user_with_email(store.users, unknown) is None,
        verdict != Some(true),
    ensures
        user_found(Ok(rows_of(user_with_email(store.users, known))), verdict) == user_found(
            Ok(rows_of(user_with_email(store.users, unknown))),
            any,
        ),
        user_found(Ok(rows_of(user_with_email(store.users, unknown))), any) == Err::<
            SessionUserView,
            AuthErrorView,
        >(user_not_found()),
{
}

/// Of two activations with different confirmations for one email address,
/// in whichever order the store takes them, the first gives the account and
/// the second is refused with a duplicate value.
pub proof fn lemma_one_account_per_email(
    store: StoreView,
    first_token: u128,
    second_token: u128,
    first_hash: Seq<char>,
    second_hash: Seq<char>,
    first_id: u128,
    second_id: u128,
    first_at: i64,
    second_at: i64,
)
    requires
        first_token != second_token,
        confirmation_with_id(store.confirmations, first_token) matches Some(first)
            && confirmation_with_id(store.confirmations, second_token) matches Some(second)
            && first.email == second.email && first.expires_at > first_at && second.expires_at
            > second_at && user_with_email(store.users, first.email) is None,
        user_with_id(store.users, first_id) is None,
        first_hash.len() > 0,
        second_hash.len() > 0,
    ensures
        ({
            let (activated, first) = activation(
                store,
                first_token,
                Some(first_hash),
                first_id,
                first_at,
            );
            let (after, second) = activation(
                activated,
                second_token,
                Some(second_hash),
                second_id,
                second_at,
            );
            &&& first is Ok
            &&& second is Err
            &&& second->Err_0 is DuplicateValue
            &&& after == activated
        }),
{
    let activated = activation(store, first_token, Some(first_hash), first_id, first_at).0;
    assert(activated.users.drop_last() =~= store.users);
}

/// No flow ever leaves two accounts with one email address: a store that
/// keeps its constraints keeps them through a registration and through an
/// activation.
pub proof fn lemma_flows_keep_store_valid(
    store: StoreView,
    email: Seq<char>,
    token: u128,
    hashed: Option<Seq<char>>,
    id: u128,
    at: i64,
)
    requires
        store_valid(store),
    ensures
        store_valid(record_insertion(store, email, id, at).0),
        store_valid(activation(store, token, hashed, id, at).0),
{
    lemma_inserts_keep_store_valid_confirmation(store, issued(id, email, at));
    let after = activation(store, token, hashed, id, at).0;
    if after != store {
        let confirmation = confirmation_with_id(store.confirmations, token)->0;
        let account = UserView { id, email: confirmation.email, hash: hashed->0, created_at: at };
        lemma_inserts_keep_store_valid_user(store, account);
    }
}

} // verus!
