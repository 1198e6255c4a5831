//! The table of stored users: a mathematical model of its rows, the laws
//! that provisioning obeys on it, and a table in memory that follows the
//! model.

use crate::users::{
    ensure_view, found_view, insert_view, InsertError, InsertErrorView, NewUser, NewUserView,
    RepoError, RepoErrorView, User, UserView,
};
use vstd::prelude::*;

verus! {

/// The rows of a table as mathematical values.
pub open spec fn user_views(rows: Seq<User>) -> Seq<UserView> {
    rows.map_values(|user: User| user@)
}

/// True where some row has the username.
pub open spec fn has_user(rows: Seq<UserView>, username: Seq<char>) -> bool {
    exists|i: int| 0 <= i < rows.len() && (#[trigger] rows[i]).username == username
}

/// The number of rows that have the username.
pub open spec fn occurrences(rows: Seq<UserView>, username: Seq<char>) -> nat
    decreases rows.len(),
{
    if rows.len() == 0 {
        0
    } else {
        let before = occurrences(rows.drop_last(), username);
        if rows.last().username == username {
            before + 1
        } else {
            before
        }
    }
}

/// The first row that has the username.
pub open spec fn find_user(rows: Seq<UserView>, username: Seq<char>) -> Option<UserView>
    decreases rows.len(),
{
    if rows.len() == 0 {
        None
    } else {
        match find_user(rows.drop_last(), username) {
            Some(user) => Some(user),
            None => if rows.last().username == username {
                Some(rows.last())
            } else {
                None
            },
        }
    }
}

/// No two rows have the same username.
pub open spec fn unique_usernames(rows: Seq<UserView>) -> bool {
    forall|i: int, j: int|
        0 <= i < j < rows.len() ==> (#[trigger] rows[i]).username != (#[trigger] rows[j]).username
}

/// Each row's identity is its place in the table, counted from one.
pub open spec fn serial_ids(rows: Seq<UserView>) -> bool {
    forall|i: int| 0 <= i < rows.len() ==> (#[trigger] rows[i]).id == i + 1
}

/// What holds of every table: usernames are unique and identities serial.
pub open spec fn valid_rows(rows: Seq<UserView>) -> bool {
    unique_usernames(rows) && serial_ids(rows)
}

/// The row that stores a new user under an identity.
pub open spec fn stored(user: NewUserView, id: i32) -> UserView {
    UserView {
        id,
        username: user.username,
        access_token_github: user.access_token_github,
        profile_picture_url: user.profile_picture_url,
    }
}

/// The table with a new user in a row of its own, after all others.
pub open spec fn with_user(rows: Seq<UserView>, user: NewUserView) -> Seq<UserView> {
    rows.push(stored(user, (rows.len() + 1) as i32))
}

/// The new user that a login name, a token and an avatar describe.
pub open spec fn new_user_view(
    login: Seq<char>,
    token: Seq<char>,
    avatar_url: Seq<char>,
) -> NewUserView {
    NewUserView { username: login, access_token_github: token, profile_picture_url: avatar_url }
}

/// The message of the failure to give a new row an identity.
pub open spec fn ids_exhausted_text() -> Seq<char> {
    "no user id is left"@
}

/// What an insert does to a table and what it answers: a username that is
/// stored already is a unique violation, a table that has used up its
/// identities fails, and otherwise the user is stored in a new row.
pub open spec fn insert_result(rows: Seq<UserView>, user: NewUserView) -> (
    Seq<UserView>,
    Result<UserView, InsertErrorView>,
) {
    if has_user(rows, user.username) {
        (rows, Err(InsertErrorView::UniqueViolation))
    } else if rows.len() >= i32::MAX {
        (rows, Err(InsertErrorView::Other(RepoErrorView::Query(ids_exhausted_text()))))
    } else {
        (with_user(rows, user), Ok(stored(user, (rows.len() + 1) as i32)))
    }
}

/// What provisioning does to a table and what it answers: a user that is
/// stored already is left as it is, and a missing one is stored in a new
/// row, unless the table has used up its identities.
pub open spec fn ensure_result(rows: Seq<UserView>, user: NewUserView) -> (
    Seq<UserView>,
    Result<(), RepoErrorView>,
) {
    if has_user(rows, user.username) {
        (rows, Ok(()))
    } else if rows.len() >= i32::MAX {
        (rows, Err(RepoErrorView::Query(ids_exhausted_text())))
    } else {
        (with_user(rows, user), Ok(()))
    }
}

/// A username occurs in no row exactly where its count is zero.
pub proof fn lemma_occurrences_zero(rows: Seq<UserView>, username: Seq<char>)
    ensures
        occurrences(rows, username) == 0 <==> !has_user(rows, username),
    decreases rows.len(),
{
    if rows.len() > 0 {
        let front = rows.drop_last();
        lemma_occurrences_zero(front, username);
        if has_user(front, username) {
            let i = choose|i: int|
                0 <= i < front.len() && (#[trigger] front[i]).username == username;
            assert(rows[i].username == username);
        }
        if has_user(rows, username) && rows.last().username != username {
            let i = choose|i: int|
                0 <= i < rows.len() && (#[trigger] rows[i]).username == username;
            assert(front[i].username == username);
        }
        if rows.last().username == username {
            assert(rows[rows.len() - 1].username == username);
        }
    }
}

/// In a table with unique usernames no username occurs twice.
pub proof fn lemma_unique_occurs_once(rows: Seq<UserView>, username: Seq<char>)
    requires
        unique_usernames(rows),
    ensures
        occurrences(rows, username) <= 1,
    decreases rows.len(),
{
    if rows.len() > 0 {
        let front = rows.drop_last();
        assert(unique_usernames(front)) by {
            assert forall|i: int, j: int| 0 <= i < j < front.len() implies (#[trigger] front[i])
                .username != (#[trigger] front[j]).username by {
                assert(rows[i].username != rows[j].username);
            }
        }
        lemma_unique_occurs_once(front, username);
        if rows.last().username == username {
            lemma_occurrences_zero(front, username);
            if has_user(front, username) {
                let i = choose|i: int|
                    0 <= i < front.len() && (#[trigger] front[i]).username == username;
                assert(rows[i].username != rows[rows.len() - 1].username);
            }
        }
    }
}

/// A lookup finds a row of the table with the username, and finds none
/// only where no row has it.
pub proof fn lemma_find_user(rows: Seq<UserView>, username: Seq<char>)
    ensures
        match find_user(rows, username) {
            Some(user) => user.username == username && rows.contains(user),
            None => !has_user(rows, username),
        },
    decreases rows.len(),
{
    if rows.len() > 0 {
        let front = rows.drop_last();
        lemma_find_user(front, username);
        match find_user(front, username) {
            Some(user) => {
                let i = choose|i: int| 0 <= i < front.len() && front[i] == user;
                assert(rows[i] == user);
            },
            None => {
                if rows.last().username == username {
                    assert(rows[rows.len() - 1] == rows.last());
                } else if has_user(rows, username) {
                    let i = choose|i: int|
                        0 <= i < rows.len() && (#[trigger] rows[i]).username == username;
                    assert(front[i].username == username);
                }
            },
        }
    }
}

/// A lookup finds the row before which no row has the username.
pub proof fn lemma_find_first(rows: Seq<UserView>, username: Seq<char>, at: int)
    requires
        0 <= at < rows.len(),
        rows[at].username == username,
        forall|j: int| 0 <= j < at ==> (#[trigger] rows[j]).username != username,
    ensures
        find_user(rows, username) == Some(rows[at]),
    decreases rows.len(),
{
    let front = rows.drop_last();
    if at == rows.len() - 1 {
        lemma_find_user(front, username);
        if has_user(front, username) {
            let i = choose|i: int|
                0 <= i < front.len() && (#[trigger] front[i]).username == username;
            assert(rows[i].username != username);
        }
    } else {
        assert(front[at] == rows[at]);
        assert forall|j: int| 0 <= j < at implies (#[trigger] front[j]).username != username by {
            assert(rows[j].username != username);
        }
        lemma_find_first(front, username, at);
    }
}

/// An insert leaves a table valid.
pub proof fn lemma_insert_keeps_valid(rows: Seq<UserView>, user: NewUserView)
    requires
        valid_rows(rows),
    ensures
        valid_rows(insert_result(rows, user).0),
{
    let after = insert_result(rows, user).0;
    if after != rows {
        assert forall|i: int, j: int| 0 <= i < j < after.len() implies (#[trigger] after[i])
            .username != (#[trigger] after[j]).username by {
            if j == rows.len() {
                assert(rows[i].username != user.username);
            } else {
                assert(rows[i].username != rows[j].username);
            }
        }
        assert forall|i: int| 0 <= i < after.len() implies (#[trigger] after[i]).id == i + 1 by {
            if i < rows.len() {
                assert(rows[i].id == i + 1);
            }
        }
    }
}

/// An insert leaves the table that provisioning leaves; the two differ
/// only in what they answer. Lookups change nothing, so whatever the table
/// calls of any number of logins are and in whatever order they come, the
/// table is left as by a series of provisionings.
pub proof fn lemma_insert_stores_as_ensure(rows: Seq<UserView>, user: NewUserView)
    ensures
        insert_result(rows, user).0 == ensure_result(rows, user).0,
{
}

/// Provisioning leaves a table valid.
pub proof fn lemma_ensure_keeps_valid(rows: Seq<UserView>, user: NewUserView)
    requires
        valid_rows(rows),
    ensures
        valid_rows(ensure_result(rows, user).0),
{
    lemma_insert_keeps_valid(rows, user);
}

/// In a valid table a username that some row has occurs exactly once.
pub proof fn lemma_stored_once(rows: Seq<UserView>, username: Seq<char>)
    requires
        valid_rows(rows),
        has_user(rows, username),
    ensures
        occurrences(rows, username) == 1,
{
    lemma_occurrences_zero(rows, username);
    lemma_unique_occurs_once(rows, username);
}

/// Provisioning removes no row: a username that is stored stays stored.
pub proof fn lemma_ensure_keeps_users(rows: Seq<UserView>, user: NewUserView, username: Seq<char>)
    requires
        has_user(rows, username),
    ensures
        has_user(ensure_result(rows, user).0, username),
{
    let after = ensure_result(rows, user).0;
    let i = choose|i: int| 0 <= i < rows.len() && (#[trigger] rows[i]).username == username;
    assert(after[i].username == username);
}

/// After provisioning has succeeded, exactly one row has the username,
/// whether the user was stored before or not.
pub proof fn lemma_ensure_stores_once(rows: Seq<UserView>, user: NewUserView)
    requires
        valid_rows(rows),
        ensure_result(rows, user).1 is Ok,
    ensures
        occurrences(ensure_result(rows, user).0, user.username) == 1,
{
    let after = ensure_result(rows, user).0;
    lemma_ensure_keeps_valid(rows, user);
    if !has_user(rows, user.username) {
        assert(after[rows.len() as int].username == user.username);
    }
    lemma_stored_once(after, user.username);
}

/// Provisioning the same identity again changes nothing and succeeds,
/// whatever token and avatar the later login brings.
pub proof fn lemma_ensure_again(rows: Seq<UserView>, first: NewUserView, second: NewUserView)
    requires
        first.username == second.username,
        ensure_result(rows, first).1 is Ok,
    ensures
        ensure_result(ensure_result(rows, first).0, second) == (
            ensure_result(rows, first).0,
            Ok::<(), RepoErrorView>(()),
        ),
{
    let after = ensure_result(rows, first).0;
    if has_user(rows, first.username) {
    } else {
        assert(after[rows.len() as int].username == second.username);
    }
}

/// The table after a series of provisionings, each done on what the ones
/// before it left.
pub open spec fn ensure_all(rows: Seq<UserView>, users: Seq<NewUserView>) -> Seq<UserView>
    decreases users.len(),
{
    if users.len() == 0 {
        rows
    } else {
        ensure_result(ensure_all(rows, users.drop_last()), users.last()).0
    }
}

/// Any series of provisionings leaves a table valid and keeps every
/// username that it held.
pub proof fn lemma_ensure_all_keeps(
    rows: Seq<UserView>,
    users: Seq<NewUserView>,
    username: Seq<char>,
)
    requires
        valid_rows(rows),
    ensures
        valid_rows(ensure_all(rows, users)),
        has_user(rows, username) ==> has_user(ensure_all(rows, users), username),
    decreases users.len(),
{
    if users.len() > 0 {
        let before = ensure_all(rows, users.drop_last());
        lemma_ensure_all_keeps(rows, users.drop_last(), username);
        lemma_ensure_keeps_valid(before, users.last());
        if has_user(rows, username) {
            lemma_ensure_keeps_users(before, users.last(), username);
        }
    }
}

/// However many users are provisioned, in whatever order, and however
/// often the same one: once the provisioning of a user has succeeded,
/// exactly one row has its username at the end.
pub proof fn lemma_ensure_all_stores_once(rows: Seq<UserView>, users: Seq<NewUserView>, turn: int)
    requires
        valid_rows(rows),
        0 <= turn < users.len(),
        ensure_result(ensure_all(rows, users.take(turn)), users[turn]).1 is Ok,
    ensures
        valid_rows(ensure_all(rows, users)),
        occurrences(ensure_all(rows, users), users[turn].username) == 1,
    decreases users.len(),
{
    let username = users[turn].username;
    lemma_ensure_all_keeps(rows, users, username);
    let front = users.drop_last();
    let before = ensure_all(rows, front);
    lemma_ensure_all_keeps(rows, front, username);
    if turn == users.len() - 1 {
        assert(users.take(turn) =~= front);
        lemma_ensure_stores_once(before, users[turn]);
    } else {
        assert(front.take(turn) =~= users.take(turn));
        lemma_ensure_all_stores_once(rows, front, turn);
        lemma_occurrences_zero(before, username);
        lemma_ensure_keeps_users(before, users.last(), username);
        lemma_stored_once(ensure_all(rows, users), username);
    }
}

/// A table of users in memory. It keeps usernames unique and gives each
/// row the next identity, as the stored table does.
#[derive(Debug)]
pub struct UserTable {
    rows: Vec<User>,
}

impl View for UserTable {
    type V = Seq<UserView>;

    closed spec fn view(&self) -> Seq<UserView> {
        user_views(self.rows@)
    }
}

impl UserTable {
    /// What every table keeps: usernames are unique and identities serial.
    #[verifier::type_invariant]
    pub open spec fn well_formed(&self) -> bool {
        valid_rows(self@)
    }

    /// Makes a table without rows.
    pub fn new() -> (table: UserTable)
        ensures
            table@ == Seq::<UserView>::empty(),
    {
        let table = UserTable { rows: Vec::new() };
        assert(table@ =~= Seq::<UserView>::empty());
        table
    }

    /// The rows of the table, in the order in which they were stored.
    pub fn rows(&self) -> (rows: &Vec<User>)
        ensures
            user_views(rows@) == self@,
            valid_rows(self@),
    {
        proof {
            use_type_invariant(self);
        }
        &self.rows
    }

    /// Looks up the user with a username.
    pub fn find(&self, username: &str) -> (found: Option<User>)
        ensures
            found_view(found) == find_user(self@, username@),
    {
        let name = username.to_owned();
        let mut at: usize = 0;
        while at < self.rows.len()
            invariant
                at <= self.rows.len(),
                name@ == username@,
                forall|j: int| 0 <= j < at ==> (#[trigger] self@[j]).username != username@,
            decreases self.rows.len() - at,
        {
            if self.rows[at].username == name {
                proof {
                    lemma_find_first(self@, username@, at as int);
                }
                return Some(self.rows[at].clone());
            }
            at += 1;
        }
        proof {
            lemma_find_user(self@, username@);
        }
        None
    }

    /// Stores a new user, unless its username is stored already or no
    /// identity is left for it.
    pub fn insert(&mut self, user: NewUser) -> (reply: Result<User, InsertError>)
        ensures
            (final(self)@, insert_view(reply)) == insert_result(old(self)@, user@),
            valid_rows(final(self)@),
    {
        proof {
            use_type_invariant(&*self);
            lemma_find_user(self@, user@.username);
        }
        if self.find(user.username.as_str()).is_some() {
            return Err(InsertError::UniqueViolation);
        }
        if self.rows.len() >= i32::MAX as usize {
            return Err(
                InsertError::Other(RepoError::Query("no user id is left".to_owned())),
            );
        }
        let id: i32 = (self.rows.len() + 1) as i32;
        let row = User {
            id,
            username: user.username,
            access_token_github: user.access_token_github,
            profile_picture_url: user.profile_picture_url,
        };
        let copy = row.clone();
        proof {
            lemma_insert_keeps_valid(self@, user@);
            assert(user_views(self.rows@.push(row)) =~= with_user(self@, user@));
        }
        let mut rows: Vec<User> = Vec::new();
        assert(user_views(rows@) =~= Seq::<UserView>::empty());
        std::mem::swap(&mut rows, &mut self.rows);
        rows.push(row);
        self.rows = rows;
        Ok(copy)
    }

    /// Makes sure that the user with the login name is stored: a stored
    /// user is left as it is, a missing one is stored with the token and
    /// the avatar. After success the table holds exactly one row with the
    /// login name.
    pub fn ensure_user(&mut self, login: &str, token: &str, avatar_url: &str) -> (reply: Result<
        (),
        RepoError,
    >)
        ensures
            (final(self)@, ensure_view(reply)) == ensure_result(
                old(self)@,
                new_user_view(login@, token@, avatar_url@),
            ),
            valid_rows(final(self)@),
            reply is Ok ==> occurrences(final(self)@, login@) == 1,
    {
        proof {
            use_type_invariant(&*self);
            lemma_find_user(self@, login@);
            let user = new_user_view(login@, token@, avatar_url@);
            if ensure_result(self@, user).1 is Ok {
                lemma_ensure_stores_once(self@, user);
            }
        }
        if self.find(login).is_some() {
            return Ok(());
        }
        let user = NewUser {
            username: login.to_owned(),
            access_token_github: token.to_owned(),
            profile_picture_url: avatar_url.to_owned(),
        };
        match self.insert(user) {
            Ok(_) => Ok(()),
            Err(InsertError::UniqueViolation) => Ok(()),
            Err(InsertError::Other(error)) => Err(error),
        }
    }
}

} // verus!
