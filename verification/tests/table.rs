use backend::table::UserTable;
use backend::users::{InsertError, NewUser, User};

fn new_user(username: &str, token: &str, avatar_url: &str) -> NewUser {
    NewUser {
        username: username.to_string(),
        access_token_github: token.to_string(),
        profile_picture_url: avatar_url.to_string(),
    }
}

fn rows_named(table: &UserTable, username: &str) -> usize {
    table.rows().iter().filter(|row| row.username == username).count()
}

#[test]
fn new_table_is_empty() {
    let table = UserTable::new();
    assert!(table.rows().is_empty());
    assert_eq!(table.find("alice"), None);
}

#[test]
fn insert_stores_the_user_under_the_next_id() {
    let mut table = UserTable::new();
    let alice = table.insert(new_user("alice", "tok1", "http://x/a.png"));
    assert_eq!(
        alice,
        Ok(User {
            id: 1,
            username: "alice".to_string(),
            access_token_github: "tok1".to_string(),
            profile_picture_url: "http://x/a.png".to_string(),
        })
    );
    let bob = table.insert(new_user("bob", "tok2", "http://x/b.png"));
    assert_eq!(bob.map(|row| row.id), Ok(2));
    assert_eq!(table.rows().len(), 2);
    assert_eq!(table.rows()[0].username, "alice");
    assert_eq!(table.rows()[1].username, "bob");
}

#[test]
fn insert_refuses_a_stored_username() {
    let mut table = UserTable::new();
    assert!(table.insert(new_user("alice", "tok1", "http://x/a.png")).is_ok());
    assert_eq!(
        table.insert(new_user("alice", "tok2", "http://x/b.png")),
        Err(InsertError::UniqueViolation)
    );
    assert_eq!(table.rows().len(), 1);
    assert_eq!(table.rows()[0].access_token_github, "tok1");
}

#[test]
fn find_gives_the_stored_row() {
    let mut table = UserTable::new();
    assert!(table.insert(new_user("alice", "tok1", "http://x/a.png")).is_ok());
    assert!(table.insert(new_user("bob", "tok2", "http://x/b.png")).is_ok());
    assert_eq!(
        table.find("bob"),
        Some(User {
            id: 2,
            username: "bob".to_string(),
            access_token_github: "tok2".to_string(),
            profile_picture_url: "http://x/b.png".to_string(),
        })
    );
    assert_eq!(table.find("carol"), None);
    assert_eq!(table.find("Bob"), None);
    assert_eq!(table.find(""), None);
}

#[test]
fn ensure_user_stores_a_missing_user() {
    let mut table = UserTable::new();
    assert_eq!(table.ensure_user("alice", "tok1", "http://x/a.png"), Ok(()));
    assert_eq!(
        table.rows(),
        &vec![User {
            id: 1,
            username: "alice".to_string(),
            access_token_github: "tok1".to_string(),
            profile_picture_url: "http://x/a.png".to_string(),
        }]
    );
}

#[test]
fn ensure_user_leaves_a_stored_user_as_it_is() {
    let mut table = UserTable::new();
    assert_eq!(table.ensure_user("alice", "tok1", "http://x/a.png"), Ok(()));
    assert_eq!(table.ensure_user("alice", "tok2", "http://x/new.png"), Ok(()));
    assert_eq!(table.rows().len(), 1);
    assert_eq!(table.rows()[0].id, 1);
    assert_eq!(table.rows()[0].access_token_github, "tok1");
    assert_eq!(table.rows()[0].profile_picture_url, "http://x/a.png");
}

#[test]
fn ensure_user_many_times_keeps_one_row_for_each_username() {
    let mut table = UserTable::new();
    let logins = ["alice", "bob", "alice", "carol", "bob", "alice", "alice"];
    for (turn, login) in logins.iter().enumerate() {
        let token = format!("tok{}", turn);
        assert_eq!(table.ensure_user(login, &token, "http://x/p.png"), Ok(()));
    }
    assert_eq!(table.rows().len(), 3);
    assert_eq!(rows_named(&table, "alice"), 1);
    assert_eq!(rows_named(&table, "bob"), 1);
    assert_eq!(rows_named(&table, "carol"), 1);
    let ids: Vec<i32> = table.rows().iter().map(|row| row.id).collect();
    assert_eq!(ids, vec![1, 2, 3]);
    assert_eq!(table.find("carol").map(|row| row.access_token_github), Some("tok3".to_string()));
}

#[test]
fn user_clone_keeps_every_field() {
    let row = User {
        id: 7,
        username: "alice".to_string(),
        access_token_github: "tok1".to_string(),
        profile_picture_url: "http://x/a.png".to_string(),
    };
    assert_eq!(row.clone(), row);
}
