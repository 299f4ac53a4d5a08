use zockervols::mounts::MountTable;
use zockervols::pool::chown_owner;

fn s(x: &str) -> String {
    x.to_string()
}

#[test]
fn table_tracks_owners_per_name() {
    let mut t = MountTable::new();
    assert!(t.is_empty(&s("foo")));
    t.add(&s("foo"), &s("c1"));
    t.add(&s("foo"), &s("c2"));
    t.add(&s("bar"), &s("c3"));
    assert!(!t.is_empty(&s("foo")));
    let mut owners = t.owners_list(&s("foo"));
    owners.sort();
    assert_eq!(owners, vec![s("c1"), s("c2")]);
    assert_eq!(t.owners_list(&s("bar")), vec![s("c3")]);
    assert!(t.owners_list(&s("baz")).is_empty());
}

#[test]
fn table_add_is_idempotent_per_caller() {
    let mut t = MountTable::new();
    t.add(&s("foo"), &s("c1"));
    t.add(&s("foo"), &s("c1"));
    assert_eq!(t.owners_list(&s("foo")), vec![s("c1")]);
}

#[test]
fn table_remove_leaves_an_empty_set() {
    let mut t = MountTable::new();
    t.add(&s("foo"), &s("c1"));
    t.remove(&s("foo"), &s("c1"));
    assert!(t.is_empty(&s("foo")));
    assert!(t.owners_list(&s("foo")).is_empty());
    // Removing a caller that never mounted changes nothing.
    t.remove(&s("foo"), &s("nobody"));
    assert!(t.is_empty(&s("foo")));
}

#[test]
fn chown_owner_is_user_and_group() {
    let owner = chown_owner();
    assert!(owner.contains(':'));
    assert!(!owner.starts_with(':'));
    assert!(!owner.ends_with(':'));
}
