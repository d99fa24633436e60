//! A store in memory that keeps the two constraints the flows rely on: no
//! two records of a kind share an identifier, and no two accounts share an
//! email address. An insert that would break one is refused as a store
//! refuses it, with a unique violation.

use vstd::prelude::*;
use vstd::string::*;

use crate::errors::{StorageErrorKind, StorageFailure, StorageFailureView};
use crate::ids::{format_uuid, id_text};
use crate::models::{Confirmation, ConfirmationView, User, UserView};

verus! {

/// The records that a store holds, oldest first.
pub struct StoreView {
    pub users: Seq<UserView>,
    pub confirmations: Seq<ConfirmationView>,
}

/// The confirmation under an identifier, if the rows hold one.
pub open spec fn confirmation_with_id(rows: Seq<ConfirmationView>, id: u128) -> Option<
    ConfirmationView,
>
    decreases rows.len(),
{
    if rows.len() == 0 {
        None
    } else if rows.last().id == id {
        Some(rows.last())
    } else {
        confirmation_with_id(rows.drop_last(), id)
    }
}

/// The account under an identifier, if the rows hold one.
pub open spec fn user_with_id(rows: Seq<UserView>, id: u128) -> Option<UserView>
    decreases rows.len(),
{
    if rows.len() == 0 {
        None
    } else if rows.last().id == id {
        Some(rows.last())
    } else {
        user_with_id(rows.drop_last(), id)
    }
}

/// The account with an email address, if the rows hold one.
pub open spec fn user_with_email(rows: Seq<UserView>, email: Seq<char>) -> Option<UserView>
    decreases rows.len(),
{
    if rows.len() == 0 {
        None
    } else if rows.last().email == email {
        Some(rows.last())
    } else {
        user_with_email(rows.drop_last(), email)
    }
}

/// The rows that a query gives for what a lookup found: one row or none.
pub open spec fn rows_of<T>(found: Option<T>) -> Seq<T> {
    match found {
        Some(row) => seq![row],
        None => Seq::empty(),
    }
}

/// The constraints of the store: identifiers are unique among confirmations
/// and among accounts, and so are the email addresses of accounts.
pub open spec fn store_valid(store: StoreView) -> bool {
    &&& forall|i: int, j: int|
        0 <= i < j < store.confirmations.len() ==> store.confirmations[i].id
            != store.confirmations[j].id
    &&& forall|i: int, j: int|
        0 <= i < j < store.users.len() ==> store.users[i].id != store.users[j].id
    &&& forall|i: int, j: int|
        0 <= i < j < store.users.len() ==> store.users[i].email != store.users[j].email
}

/// The refusal of a second record under one key.
pub open spec fn unique_violation(
    column: Seq<char>,
    value: Seq<char>,
    constraint: Seq<char>,
) -> StorageFailureView {
    StorageFailureView::Database {
        kind: StorageErrorKind::UniqueViolation,
        details: Some("Key ("@ + column + ")=("@ + value + ") already exists."@),
        message: "duplicate key value violates unique constraint \""@ + constraint + "\""@,
    }
}

/// The store after an insert of a confirmation, and what the insert gives:
/// the row, or a unique violation where its identifier is taken.
pub open spec fn after_insert_confirmation(store: StoreView, row: ConfirmationView) -> (
    StoreView,
    Result<ConfirmationView, StorageFailureView>,
) {
    if confirmation_with_id(store.confirmations, row.id) is Some {
        (store, Err(unique_violation("id"@, id_text(row.id), "confirmations_pkey"@)))
    } else {
        (
            StoreView { users: store.users, confirmations: store.confirmations.push(row) },
            Ok(row),
        )
    }
}

/// The store after an insert of an account, and what the insert gives: the
/// row, or a unique violation where its identifier or its email is taken.
pub open spec fn after_insert_user(store: StoreView, row: UserView) -> (
    StoreView,
    Result<UserView, StorageFailureView>,
) {
    if user_with_id(store.users, row.id) is Some {
        (store, Err(unique_violation("id"@, id_text(row.id), "users_pkey"@)))
    } else if user_with_email(store.users, row.email) is Some {
        (store, Err(unique_violation("email"@, row.email, "users_email_key"@)))
    } else {
        (StoreView { users: store.users.push(row), confirmations: store.confirmations }, Ok(row))
    }
}

/// The rows of confirmations, each as its view.
pub open spec fn confirmation_views(rows: Seq<Confirmation>) -> Seq<ConfirmationView> {
    rows.map_values(|row: Confirmation| row@)
}

/// The rows of accounts, each as its view.
pub open spec fn user_views(rows: Seq<User>) -> Seq<UserView> {
    rows.map_values(|row: User| row@)
}

/// What an insert gave, by its view.
pub open spec fn inserted_view<T: View>(result: Result<T, StorageFailure>) -> Result<
    T::V,
    StorageFailureView,
> {
    match result {
        Ok(row) => Ok(row@),
        Err(failure) => Err(failure@),
    }
}

/// Where no confirmation is found under an identifier, no row has it.
pub proof fn lemma_no_confirmation_with_id(rows: Seq<ConfirmationView>, id: u128)
    requires
        confirmation_with_id(rows, id) is None,
    ensures
        forall|i: int| 0 <= i < rows.len() ==> rows[i].id != id,
    decreases rows.len(),
{
    if rows.len() > 0 {
        lemma_no_confirmation_with_id(rows.drop_last(), id);
        assert forall|i: int| 0 <= i < rows.len() implies rows[i].id != id by {
            if i < rows.len() - 1 {
                assert(rows[i] == rows.drop_last()[i]);
            }
        }
    }
}

/// Where no account is found under an identifier, no row has it.
pub proof fn lemma_no_user_with_id(rows: Seq<UserView>, id: u128)
    requires
        user_with_id(rows, id) is None,
    ensures
        forall|i: int| 0 <= i < rows.len() ==> rows[i].id != id,
    decreases rows.len(),
{
    if rows.len() > 0 {
        lemma_no_user_with_id(rows.drop_last(), id);
        assert forall|i: int| 0 <= i < rows.len() implies rows[i].id != id by {
            if i < rows.len() - 1 {
                assert(rows[i] == rows.drop_last()[i]);
            }
        }
    }
}

/// Where no account is found with an email address, no row has it.
pub proof fn lemma_no_user_with_email(rows: Seq<UserView>, email: Seq<char>)
    requires
        user_with_email(rows, email) is None,
    ensures
        forall|i: int| 0 <= i < rows.len() ==> rows[i].email != email,
    decreases rows.len(),
{
    if rows.len() > 0 {
        lemma_no_user_with_email(rows.drop_last(), email);
        assert forall|i: int| 0 <= i < rows.len() implies rows[i].email != email by {
            if i < rows.len() - 1 {
                assert(rows[i] == rows.drop_last()[i]);
            }
        }
    }
}

/// A store that keeps its constraints keeps them through the insert of a
/// confirmation.
pub proof fn lemma_inserts_keep_store_valid_confirmation(store: StoreView, row: ConfirmationView)
    requires
        store_valid(store),
    ensures
        store_valid(after_insert_confirmation(store, row).0),
{
    if confirmation_with_id(store.confirmations, row.id) is None {
        lemma_no_confirmation_with_id(store.confirmations, row.id);
    }
}

/// A store that keeps its constraints keeps them through the insert of an
/// account: no two accounts ever share an email address.
pub proof fn lemma_inserts_keep_store_valid_user(store: StoreView, row: UserView)
    requires
        store_valid(store),
    ensures
        store_valid(after_insert_user(store, row).0),
{
    if user_with_id(store.users, row.id) is None {
        lemma_no_user_with_id(store.users, row.id);
        if user_with_email(store.users, row.email) is None {
            lemma_no_user_with_email(store.users, row.email);
        }
    }
}

fn copy_confirmation(row: &Confirmation) -> (r: Confirmation)
    ensures
        r@ == row@,
{
    Confirmation { id: row.id, email: row.email.clone(), expires_at: row.expires_at }
}

fn copy_user(row: &User) -> (r: User)
    ensures
        r@ == row@,
{
    User {
        id: row.id,
        email: row.email.clone(),
        hash: row.hash.clone(),
        created_at: row.created_at,
    }
}

/// The refusal of a second record under one key: which column holds the
/// key, the key as text, and the name of the constraint.
pub fn violation(column: &str, value: &str, constraint: &str) -> (r: StorageFailure)
    ensures
        r@ == unique_violation(column@, value@, constraint@),
{
    let details = String::from_str("Key (").concat(column).concat(")=(").concat(value).concat(
        ") already exists.",
    );
    let message = String::from_str("duplicate key value violates unique constraint \"").concat(
        constraint,
    ).concat("\"");
    StorageFailure::Database {
        kind: StorageErrorKind::UniqueViolation,
        details: Some(details),
        message,
    }
}

/// The store in memory.
pub struct MemoryStore {
    users: Vec<User>,
    confirmations: Vec<Confirmation>,
}

impl View for MemoryStore {
    type V = StoreView;

    closed spec fn view(&self) -> StoreView {
        StoreView {
            users: user_views(self.users@),
            confirmations: confirmation_views(self.confirmations@),
        }
    }
}

impl MemoryStore {
    /// A store without records.
    pub fn new() -> (store: MemoryStore)
        ensures
            store@.users.len() == 0,
            store@.confirmations.len() == 0,
            store_valid(store@),
    {
        MemoryStore { users: Vec::new(), confirmations: Vec::new() }
    }

    /// The confirmations under an identifier: one row or none.
    pub fn find_confirmation(&self, id: u128) -> (rows: Vec<Confirmation>)
        ensures
            confirmation_views(rows@) == rows_of(confirmation_with_id(self@.confirmations, id)),
    {
        let ghost all = confirmation_views(self.confirmations@);
        let mut rows: Vec<Confirmation> = Vec::new();
        let mut i: usize = self.confirmations.len();
        proof {
            assert(all.take(i as int) =~= all);
        }
        while i > 0
            invariant
                i <= self.confirmations.len(),
                all == confirmation_views(self.confirmations@),
                rows@.len() == 0,
                confirmation_with_id(all, id) == confirmation_with_id(all.take(i as int), id),
            decreases i,
        {
            i = i - 1;
            proof {
                let upto = all.take(i + 1);
                assert(upto.drop_last() =~= all.take(i as int));
                assert(upto.last() == self.confirmations@[i as int]@);
            }
            if self.confirmations[i].id == id {
                rows.push(copy_confirmation(&self.confirmations[i]));
                proof {
                    assert(confirmation_views(rows@) =~= seq![self.confirmations@[i as int]@]);
                }
                return rows;
            }
        }
        proof {
            assert(confirmation_views(rows@) =~= Seq::<ConfirmationView>::empty());
        }
        rows
    }

    /// The accounts with an email address: one row or none.
    pub fn find_users_by_email(&self, email: &str) -> (rows: Vec<User>)
        ensures
            user_views(rows@) == rows_of(user_with_email(self@.users, email@)),
    {
        let ghost all = user_views(self.users@);
        let wanted: String = String::from_str(email);
        let mut rows: Vec<User> = Vec::new();
        let mut i: usize = self.users.len();
        proof {
            assert(all.take(i as int) =~= all);
        }
        while i > 0
            invariant
                i <= self.users.len(),
                all == user_views(self.users@),
                wanted@ == email@,
                rows@.len() == 0,
                user_with_email(all, email@) == user_with_email(all.take(i as int), email@),
            decreases i,
        {
            i = i - 1;
            proof {
                let upto = all.take(i + 1);
                assert(upto.drop_last() =~= all.take(i as int));
                assert(upto.last() == self.users@[i as int]@);
            }
            if self.users[i].email == wanted {
                rows.push(copy_user(&self.users[i]));
                proof {
                    assert(user_views(rows@) =~= seq![self.users@[i as int]@]);
                }
                return rows;
            }
        }
        proof {
            assert(user_views(rows@) =~= Seq::<UserView>::empty());
        }
        rows
    }

    fn has_user_id(&self, id: u128) -> (r: bool)
        ensures
            r == (user_with_id(self@.users, id) is Some),
    {
        let ghost all = user_views(self.users@);
        let mut i: usize = self.users.len();
        proof {
            assert(all.take(i as int) =~= all);
        }
        while i > 0
            invariant
                i <= self.users.len(),
                all == user_views(self.users@),
                user_with_id(all, id) == user_with_id(all.take(i as int), id),
            decreases i,
        {
            i = i - 1;
            proof {
                let upto = all.take(i + 1);
                assert(upto.drop_last() =~= all.take(i as int));
                assert(upto.last() == self.users@[i as int]@);
            }
            if self.users[i].id == id {
                return true;
            }
        }
        false
    }

    /// Stores a confirmation and gives the row back, or refuses it with a
    /// unique violation where its identifier is taken.
    pub fn insert_confirmation(&mut self, row: Confirmation) -> (r: Result<
        Confirmation,
        StorageFailure,
    >)
        ensures
            (final(self)@, inserted_view(r)) == after_insert_confirmation(old(self)@, row@),
            store_valid(old(self)@) ==> store_valid(final(self)@),
    {
        let found = self.find_confirmation(row.id);
        if found.len() > 0 {
            proof {
                assert(confirmation_views(found@).len() == found@.len());
            }
            let key = format_uuid(row.id);
            return Err(violation("id", key.as_str(), "confirmations_pkey"));
        }
        proof {
            assert(confirmation_views(found@).len() == found@.len());
            if store_valid(self@) {
                lemma_inserts_keep_store_valid_confirmation(self@, row@);
            }
        }
        let copy = copy_confirmation(&row);
        let ghost before = self.confirmations@;
        self.confirmations.push(row);
        proof {
            assert(confirmation_views(self.confirmations@) =~= confirmation_views(before).push(
                row@,
            ));
        }
        Ok(copy)
    }

    /// Stores an account and gives the row back, or refuses it with a unique
    /// violation where its identifier or its email address is taken.
    pub fn insert_user(&mut self, row: User) -> (r: Result<User, StorageFailure>)
        ensures
            (final(self)@, inserted_view(r)) == after_insert_user(old(self)@, row@),
            store_valid(old(self)@) ==> store_valid(final(self)@),
    {
        if self.has_user_id(row.id) {
            let key = format_uuid(row.id);
            return Err(violation("id", key.as_str(), "users_pkey"));
        }
        let found = self.find_users_by_email(row.email.as_str());
        if found.len() > 0 {
            proof {
                assert(user_views(found@).len() == found@.len());
            }
            return Err(violation("email", row.email.as_str(), "users_email_key"));
        }
        proof {
            assert(user_views(found@).len() == found@.len());
            if store_valid(self@) {
                lemma_inserts_keep_store_valid_user(self@, row@);
            }
        }
        let copy = copy_user(&row);
        let ghost before = self.users@;
        self.users.push(row);
        proof {
            assert(user_views(self.users@) =~= user_views(before).push(row@));
        }
        Ok(copy)
    }
}

} // verus!
