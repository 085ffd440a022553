use apple_native_keyring_store::attributes::keys_are_distinct;

#[test]
fn no_entries_have_distinct_keys() {
    assert!(keys_are_distinct(&[]));
}

#[test]
fn one_entry_has_distinct_keys() {
    assert!(keys_are_distinct(&[("service", "mail")]));
}

#[test]
fn different_keys_are_distinct() {
    assert!(keys_are_distinct(&[
        ("service", "mail"),
        ("user", "mail"),
        ("access-group", "mail")
    ]));
    assert!(keys_are_distinct(&[("key", "x"), ("Key", "x"), ("key ", "x"), ("", "x")]));
}

#[test]
fn a_key_that_occurs_twice_is_not_distinct() {
    assert!(!keys_are_distinct(&[("service", "mail"), ("service", "web")]));
    assert!(!keys_are_distinct(&[("service", "mail"), ("service", "mail")]));
    assert!(!keys_are_distinct(&[
        ("service", "mail"),
        ("user", "me"),
        ("service", "web")
    ]));
    assert!(!keys_are_distinct(&[
        ("a", "1"),
        ("b", "2"),
        ("c", "3"),
        ("d", "4"),
        ("c", "5")
    ]));
    assert!(!keys_are_distinct(&[("", "1"), ("", "2")]));
}
