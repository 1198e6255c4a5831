//! The user records that a login provisions, and the table that holds one
//! record for each provider identity.

use vstd::prelude::*;

verus! {

/// A stored user.
#[derive(Debug, PartialEq, Eq)]
pub struct User {
    pub id: i32,
    pub username: String,
    pub access_token_github: String,
    pub profile_picture_url: String,
}

/// Mathematical value of a [`User`].
pub struct UserView {
    pub id: i32,
    pub username: Seq<char>,
    pub access_token_github: Seq<char>,
    pub profile_picture_url: Seq<char>,
}

impl View for User {
    type V = UserView;

    open spec fn view(&self) -> UserView {
        UserView {
            id: self.id,
            username: self.username@,
            access_token_github: self.access_token_github@,
            profile_picture_url: self.profile_picture_url@,
        }
    }
}

impl Clone for User {
    fn clone(&self) -> (copy: User)
        ensures
            copy@ == self@,
    {
        User {
            id: self.id,
            username: self.username.clone(),
            access_token_github: self.access_token_github.clone(),
            profile_picture_url: self.profile_picture_url.clone(),
        }
    }
}

/// A user that is not stored yet: a record without its identity.
#[derive(Debug, PartialEq, Eq)]
pub struct NewUser {
    pub username: String,
    pub access_token_github: String,
    pub profile_picture_url: String,
}

/// Mathematical value of a [`NewUser`].
pub struct NewUserView {
    pub username: Seq<char>,
    pub access_token_github: Seq<char>,
    pub profile_picture_url: Seq<char>,
}

impl View for NewUser {
    type V = NewUserView;

    open spec fn view(&self) -> NewUserView {
        NewUserView {
            username: self.username@,
            access_token_github: self.access_token_github@,
            profile_picture_url: self.profile_picture_url@,
        }
    }
}

/// Why the user store could not do what it was asked.
#[derive(Debug, PartialEq, Eq)]
pub enum RepoError {
    /// No connection to the store could be had.
    Connection(String),
    /// The store refused or failed a query.
    Query(String),
}

/// Mathematical value of a [`RepoError`].
pub enum RepoErrorView {
    Connection(Seq<char>),
    Query(Seq<char>),
}

impl View for RepoError {
    type V = RepoErrorView;

    open spec fn view(&self) -> RepoErrorView {
        match self {
            RepoError::Connection(message) => RepoErrorView::Connection(message@),
            RepoError::Query(message) => RepoErrorView::Query(message@),
        }
    }
}

/// The message that reports a store failure: the failure's own text.
pub open spec fn repo_error_text(error: RepoErrorView) -> Seq<char> {
    match error {
        RepoErrorView::Connection(message) => message,
        RepoErrorView::Query(message) => message,
    }
}

impl RepoError {
    /// The message that reports this failure.
    pub fn message(self) -> (text: String)
        ensures
            text@ == repo_error_text(self@),
    {
        match self {
            RepoError::Connection(message) => message,
            RepoError::Query(message) => message,
        }
    }
}

/// Why an insert stored nothing.
#[derive(Debug, PartialEq, Eq)]
pub enum InsertError {
    /// A record with the same username is stored already.
    UniqueViolation,
    /// The store failed.
    Other(RepoError),
}

/// Mathematical value of an [`InsertError`].
pub enum InsertErrorView {
    UniqueViolation,
    Other(RepoErrorView),
}

impl View for InsertError {
    type V = InsertErrorView;

    open spec fn view(&self) -> InsertErrorView {
        match self {
            InsertError::UniqueViolation => InsertErrorView::UniqueViolation,
            InsertError::Other(error) => InsertErrorView::Other(error@),
        }
    }
}

/// Mathematical value of what a lookup found.
pub open spec fn found_view(found: Option<User>) -> Option<UserView> {
    match found {
        Some(user) => Some(user@),
        None => None,
    }
}

/// Mathematical value of what a lookup answers.
pub open spec fn lookup_view(reply: Result<Option<User>, RepoError>) -> Result<
    Option<UserView>,
    RepoErrorView,
> {
    match reply {
        Ok(found) => Ok(found_view(found)),
        Err(error) => Err(error@),
    }
}

/// Mathematical value of what an insert answers.
pub open spec fn insert_view(reply: Result<User, InsertError>) -> Result<
    UserView,
    InsertErrorView,
> {
    match reply {
        Ok(user) => Ok(user@),
        Err(error) => Err(error@),
    }
}

/// Mathematical value of what provisioning answers.
pub open spec fn ensure_view(reply: Result<(), RepoError>) -> Result<(), RepoErrorView> {
    match reply {
        Ok(_) => Ok(()),
        Err(error) => Err(error@),
    }
}

} // verus!
