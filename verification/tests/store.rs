use user_crud::users::model::UpsertUser;
use user_crud::users::store::{UserStore, LAST_ID};

fn request(email: &str, password: &str, fullname: &str, role: &str) -> UpsertUser {
    UpsertUser {
        email: email.to_string(),
        password: password.to_string(),
        fullname: fullname.to_string(),
        role: role.to_string(),
    }
}

#[test]
fn new_store_is_empty() {
    let store = UserStore::new();
    assert_eq!(store.len(), 0);
    assert!(!store.contains("a@x.com"));
    assert!(store.lookup("a@x.com").is_none());
}

#[test]
fn create_assigns_id_one_and_keeps_the_fields() {
    let mut store = UserStore::new();
    let user = store.insert_if_absent(request("a@x.com", "p", "A", "r")).unwrap();
    assert_eq!(user.id, 1);
    assert_eq!(user.email, "a@x.com");
    assert_eq!(user.password, "p");
    assert_eq!(user.fullname, "A");
    assert_eq!(user.role, "r");
    assert_eq!(store.len(), 1);
    assert!(store.contains("a@x.com"));
}

#[test]
fn create_of_a_taken_email_changes_nothing() {
    let mut store = UserStore::new();
    store.insert_if_absent(request("a@x.com", "p", "A", "r")).unwrap();
    let again = store.insert_if_absent(request("a@x.com", "other", "Other", "other"));
    assert!(again.is_none());
    assert_eq!(store.len(), 1);
    let kept = store.lookup("a@x.com").unwrap();
    assert_eq!(kept.id, 1);
    assert_eq!(kept.password, "p");
    assert_eq!(kept.fullname, "A");
    assert_eq!(kept.role, "r");
}

#[test]
fn read_returns_the_created_record() {
    let mut store = UserStore::new();
    store.insert_if_absent(request("a@x.com", "p", "A", "r")).unwrap();
    let read = store.lookup("a@x.com").unwrap();
    assert_eq!(read.id, 1);
    assert_eq!(read.email, "a@x.com");
    assert_eq!(read.password, "p");
    assert_eq!(read.fullname, "A");
    assert_eq!(read.role, "r");
    assert_eq!(store.len(), 1);
}

#[test]
fn update_replaces_password_name_and_role_only() {
    let mut store = UserStore::new();
    store.insert_if_absent(request("a@x.com", "p", "A", "r")).unwrap();
    let updated =
        store.replace_if_present("a@x.com", request("z@x.com", "p2", "A2", "r2")).unwrap();
    assert_eq!(updated.id, 1);
    assert_eq!(updated.email, "a@x.com");
    assert_eq!(updated.password, "p2");
    assert_eq!(updated.fullname, "A2");
    assert_eq!(updated.role, "r2");
    assert_eq!(store.len(), 1);
    assert!(!store.contains("z@x.com"));
    let read = store.lookup("a@x.com").unwrap();
    assert_eq!(read.id, 1);
    assert_eq!(read.email, "a@x.com");
    assert_eq!(read.password, "p2");
    assert_eq!(read.fullname, "A2");
    assert_eq!(read.role, "r2");
}

#[test]
fn update_leaves_other_records_alone() {
    let mut store = UserStore::new();
    store.insert_if_absent(request("a@x.com", "pa", "A", "ra")).unwrap();
    store.insert_if_absent(request("b@x.com", "pb", "B", "rb")).unwrap();
    store.replace_if_present("a@x.com", request("a@x.com", "new", "New", "new")).unwrap();
    let other = store.lookup("b@x.com").unwrap();
    assert_eq!(other.id, 2);
    assert_eq!(other.password, "pb");
    assert_eq!(other.fullname, "B");
    assert_eq!(other.role, "rb");
    assert_eq!(store.len(), 2);
}

#[test]
fn delete_returns_the_record_and_removes_it() {
    let mut store = UserStore::new();
    store.insert_if_absent(request("a@x.com", "p", "A", "r")).unwrap();
    store.insert_if_absent(request("b@x.com", "p", "B", "r")).unwrap();
    let deleted = store.remove_if_present("a@x.com").unwrap();
    assert_eq!(deleted.id, 1);
    assert_eq!(deleted.email, "a@x.com");
    assert_eq!(deleted.password, "p");
    assert_eq!(deleted.fullname, "A");
    assert_eq!(deleted.role, "r");
    assert!(store.lookup("a@x.com").is_none());
    assert!(!store.contains("a@x.com"));
    assert_eq!(store.len(), 1);
    assert_eq!(store.lookup("b@x.com").unwrap().id, 2);
}

#[test]
fn deleted_email_stays_absent_until_created_again() {
    let mut store = UserStore::new();
    store.insert_if_absent(request("a@x.com", "p", "A", "r")).unwrap();
    store.insert_if_absent(request("b@x.com", "p", "B", "r")).unwrap();
    store.remove_if_present("a@x.com").unwrap();

    assert!(store.lookup("a@x.com").is_none());
    assert!(store.replace_if_present("a@x.com", request("a@x.com", "q", "Q", "q")).is_none());
    assert!(store.lookup("a@x.com").is_none());
    store.replace_if_present("b@x.com", request("b@x.com", "q", "Q", "q")).unwrap();
    assert!(store.lookup("a@x.com").is_none());
    store.insert_if_absent(request("c@x.com", "p", "C", "r")).unwrap();
    assert!(store.lookup("a@x.com").is_none());
    assert!(store.remove_if_present("a@x.com").is_none());
    assert!(store.lookup("a@x.com").is_none());

    let back = store.insert_if_absent(request("a@x.com", "again", "A again", "r again")).unwrap();
    assert_eq!(back.email, "a@x.com");
    let read = store.lookup("a@x.com").unwrap();
    assert_eq!(read.password, "again");
    assert_eq!(read.id, back.id);
}

#[test]
fn operations_on_a_missing_email_find_nothing() {
    let mut store = UserStore::new();
    store.insert_if_absent(request("a@x.com", "p", "A", "r")).unwrap();
    for _ in 0..4 {
        assert!(store.lookup("never@created.com").is_none());
        assert!(store
            .replace_if_present("never@created.com", request("never@created.com", "x", "y", "z"))
            .is_none());
        assert!(store.remove_if_present("never@created.com").is_none());
        assert_eq!(store.len(), 1);
        assert!(!store.contains("never@created.com"));
        let kept = store.lookup("a@x.com").unwrap();
        assert_eq!(kept.id, 1);
        assert_eq!(kept.password, "p");
    }
}

#[test]
fn growth_gives_the_ids_one_to_n() {
    let mut store = UserStore::new();
    for n in 1..=200 {
        let email = format!("user{}@example.com", n);
        let user = store.insert_if_absent(request(&email, "p", "N", "r")).unwrap();
        assert_eq!(user.id, n);
        assert_eq!(store.len(), n as usize);
    }
    for n in 1..=200 {
        let email = format!("user{}@example.com", n);
        assert_eq!(store.lookup(&email).unwrap().id, n);
    }
}

#[test]
fn one_record_per_email_after_mixed_operations() {
    let mut store = UserStore::new();
    let emails = ["a@x.com", "b@x.com", "c@x.com"];
    for round in 0..5 {
        for email in emails {
            store.insert_if_absent(request(email, "p", "N", "r"));
            store.insert_if_absent(request(email, "q", "M", "s"));
            store.replace_if_present(email, request("d@x.com", "u", "U", "u"));
        }
        assert_eq!(store.len(), 3);
        if round % 2 == 0 {
            store.remove_if_present("b@x.com");
            assert_eq!(store.len(), 2);
            assert!(store.remove_if_present("b@x.com").is_none());
        }
        for email in emails {
            if let Some(user) = store.lookup(email) {
                assert_eq!(user.email, email);
            }
        }
        assert!(!store.contains("d@x.com"));
    }
}

#[test]
fn ids_are_never_given_out_twice() {
    let mut store = UserStore::new();
    assert_eq!(store.insert_if_absent(request("a@x.com", "p", "A", "r")).unwrap().id, 1);
    assert_eq!(store.insert_if_absent(request("b@x.com", "p", "B", "r")).unwrap().id, 2);
    assert_eq!(store.insert_if_absent(request("c@x.com", "p", "C", "r")).unwrap().id, 3);
    store.remove_if_present("a@x.com").unwrap();
    assert_eq!(store.len(), 2);
    assert_eq!(store.insert_if_absent(request("d@x.com", "p", "D", "r")).unwrap().id, 4);
    assert_eq!(store.lookup("c@x.com").unwrap().id, 3);
    store.remove_if_present("b@x.com").unwrap();
    store.remove_if_present("c@x.com").unwrap();
    store.remove_if_present("d@x.com").unwrap();
    assert_eq!(store.len(), 0);
    assert_eq!(store.insert_if_absent(request("a@x.com", "p", "A", "r")).unwrap().id, 5);
    assert_eq!(store.assigned(), 5);
}

#[test]
fn new_id_differs_from_every_stored_id_after_a_delete() {
    let mut store = UserStore::new();
    store.insert_if_absent(request("a@x.com", "p", "A", "r")).unwrap();
    store.insert_if_absent(request("b@x.com", "p", "B", "r")).unwrap();
    store.remove_if_present("a@x.com").unwrap();
    let third = store.insert_if_absent(request("c@x.com", "p", "C", "r")).unwrap();
    assert_eq!(third.id, 3);
    assert_eq!(store.lookup("b@x.com").unwrap().id, 2);
    assert_eq!(store.lookup("c@x.com").unwrap().id, 3);
    assert_eq!(store.len(), 2);
}

#[test]
fn ids_strictly_increase_over_mixed_operations() {
    let mut store = UserStore::new();
    let mut last = 0;
    for round in 0..20 {
        let email = format!("user{}@example.com", round % 7);
        if let Some(user) = store.insert_if_absent(request(&email, "p", "N", "r")) {
            assert!(user.id > last);
            assert_eq!(user.id, last + 1);
            last = user.id;
        }
        store.replace_if_present(&email, request("other@example.com", "q", "M", "s"));
        if round % 3 == 0 {
            store.remove_if_present(&email);
        }
        assert_eq!(store.assigned(), last);
    }
    assert_eq!(last, 12);
    assert_eq!(store.len(), 5);
}

#[test]
fn only_a_create_that_succeeds_assigns_an_id() {
    let mut store = UserStore::new();
    assert_eq!(store.assigned(), 0);
    store.insert_if_absent(request("a@x.com", "p", "A", "r")).unwrap();
    assert_eq!(store.assigned(), 1);
    assert!(store.insert_if_absent(request("a@x.com", "q", "B", "s")).is_none());
    assert_eq!(store.assigned(), 1);
    store.lookup("a@x.com").unwrap();
    assert_eq!(store.assigned(), 1);
    store.replace_if_present("a@x.com", request("a@x.com", "q", "B", "s")).unwrap();
    assert_eq!(store.assigned(), 1);
    assert!(store.replace_if_present("z@x.com", request("z@x.com", "q", "B", "s")).is_none());
    assert_eq!(store.assigned(), 1);
    store.remove_if_present("a@x.com").unwrap();
    assert_eq!(store.assigned(), 1);
    assert!(store.remove_if_present("a@x.com").is_none());
    assert_eq!(store.assigned(), 1);
    assert_eq!(store.len(), 0);
}

#[test]
fn emails_are_compared_exactly() {
    let mut store = UserStore::new();
    store.insert_if_absent(request("a@x.com", "p", "A", "r")).unwrap();
    assert!(store.lookup("A@x.com").is_none());
    assert!(store.lookup("a@x.com ").is_none());
    assert!(store.lookup("").is_none());
    let upper = store.insert_if_absent(request("A@x.com", "p", "A", "r")).unwrap();
    assert_eq!(upper.id, 2);
    let empty = store.insert_if_absent(request("", "p", "A", "r")).unwrap();
    assert_eq!(empty.id, 3);
    assert_eq!(store.lookup("").unwrap().email, "");
}

#[test]
fn last_id_is_the_largest_i32() {
    assert_eq!(LAST_ID, 2147483647);
    assert_eq!(LAST_ID, i32::MAX);
}
