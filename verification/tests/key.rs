use tallii_users::models::directory::Directory;
use tallii_users::models::key::Key;
use tallii_users::models::user::{NewUserForm, User};
use tallii_users::utils::errors::DatabaseError;

fn fresh_key() -> u128 {
    uuid::Uuid::new_v4().as_u128()
}

#[test]
fn it_returns_false_for_missing_key() {
    let conn = Directory::new();

    let random_uuid = fresh_key();

    let has_key = Key::has_key(&random_uuid, &conn).expect("failed to get key");

    assert!(!has_key)
}

#[test]
fn it_returns_true_for_existing_key() {
    let mut conn = Directory::new();

    let random_uuid = fresh_key();

    let new_key = Key { id: random_uuid };

    conn.insert_key(new_key).expect("failed to insert key");

    let has_key = Key::has_key(&random_uuid, &conn).expect("failed to get key");

    assert!(has_key);
}

#[test]
fn it_returns_false_for_valid_but_taken_key() {
    let mut conn = Directory::new();

    let random_uuid = fresh_key();

    let new_key = Key { id: random_uuid };

    conn.insert_key(new_key).expect("failed to insert key");

    let new_user = NewUserForm {
        email: "foo1@bar.com".to_string(),
        password: "password".to_string(),
        key_id: random_uuid,
    };

    new_user.create(&mut conn, 1_600_000_000).expect("failed to create user");

    let is_available = Key::is_available(&random_uuid, &conn).unwrap();

    assert!(!is_available);
}

#[test]
fn key_is_available_until_a_user_refers_to_it() {
    let mut conn = Directory::new();
    conn.insert_key(Key { id: 11 }).unwrap();
    conn.insert_key(Key { id: 12 }).unwrap();

    assert_eq!(Key::is_available(&11, &conn), Ok(true));
    assert_eq!(Key::is_available(&12, &conn), Ok(true));
    assert_eq!(Key::is_available(&13, &conn), Ok(false));

    let row = NewUserForm { email: "a@b.com".to_string(), password: "h".to_string(), key_id: 11 };
    conn.insert_user(&row, 5).unwrap();

    assert_eq!(Key::is_available(&11, &conn), Ok(false));
    assert_eq!(Key::is_available(&12, &conn), Ok(true));
    assert_eq!(Key::has_key(&11, &conn), Ok(true));
    assert_eq!(Key::has_key(&13, &conn), Ok(false));
}

#[test]
fn redeemable_needs_a_key_and_no_user() {
    let key = Some(Key { id: 1 });
    let user = Some(User {
        id: 1,
        email: "a@b.com".to_string(),
        password: "h".to_string(),
        key_id: 1,
        created_at: 0,
    });
    assert!(Key::redeemable(&None, &key));
    assert!(!Key::redeemable(&user, &key));
    assert!(!Key::redeemable(&None, &None));
    assert!(!Key::redeemable(&user, &None));
}

#[test]
fn directory_refuses_a_key_twice() {
    let mut conn = Directory::new();
    assert_eq!(conn.insert_key(Key { id: 7 }), Ok(()));
    assert_eq!(conn.insert_key(Key { id: 7 }), Err(DatabaseError::UniqueViolation));
    assert_eq!(conn.find_key(7), Some(Key { id: 7 }));
    assert_eq!(conn.find_key(8), None);
}

#[test]
fn directory_numbers_users_and_keeps_its_constraints() {
    let mut conn = Directory::new();
    conn.insert_key(Key { id: 1 }).unwrap();
    conn.insert_key(Key { id: 2 }).unwrap();

    let first = NewUserForm { email: "a@b.com".to_string(), password: "h1".to_string(), key_id: 1 };
    let user = conn.insert_user(&first, 42).unwrap();
    assert_eq!(
        user,
        User {
            id: 1,
            email: "a@b.com".to_string(),
            password: "h1".to_string(),
            key_id: 1,
            created_at: 42,
        }
    );

    // the same key again
    let again = NewUserForm { email: "c@d.com".to_string(), password: "h2".to_string(), key_id: 1 };
    assert_eq!(conn.insert_user(&again, 43), Err(DatabaseError::UniqueViolation));

    // the same email again
    let same = NewUserForm { email: "a@b.com".to_string(), password: "h2".to_string(), key_id: 2 };
    assert_eq!(conn.insert_user(&same, 43), Err(DatabaseError::UniqueViolation));

    // a key that was never issued
    let none = NewUserForm { email: "e@f.com".to_string(), password: "h3".to_string(), key_id: 3 };
    assert_eq!(conn.insert_user(&none, 43), Err(DatabaseError::Database));

    let second = NewUserForm { email: "c@d.com".to_string(), password: "h2".to_string(), key_id: 2 };
    assert_eq!(conn.insert_user(&second, 44).unwrap().id, 2);

    assert_eq!(conn.find_user_by_key(1), Some(user));
    assert_eq!(conn.find_user_by_key(3), None);
    assert_eq!(conn.find_user_by_email(&"c@d.com".to_string()).unwrap().id, 2);
    assert_eq!(conn.find_user_by_email(&"C@d.com".to_string()), None);
    assert_eq!(conn.all_users().len(), 2);
}
