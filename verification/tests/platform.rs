use apple_native_keyring_store::platform::FoundItem;

fn entries(pairs: &[(&str, &str)]) -> Vec<(String, String)> {
    pairs
        .iter()
        .map(|(key, value)| (key.to_string(), value.to_string()))
        .collect()
}

#[test]
fn found_item_is_read_from_its_attributes() {
    let attributes = entries(&[
        ("class", "genp"),
        ("acct", "me"),
        ("pdmn", "ak"),
        ("svce", "mail"),
        ("agrp", "TEAM.com.example.app"),
        ("sync", "0"),
    ]);
    assert_eq!(
        FoundItem::from_attributes(&attributes),
        FoundItem {
            service: Some("mail".to_string()),
            account: Some("me".to_string()),
            access_group: Some("TEAM.com.example.app".to_string()),
        }
    );
}

#[test]
fn missing_attributes_are_absent() {
    assert_eq!(
        FoundItem::from_attributes(&entries(&[("svce", "mail")])),
        FoundItem {
            service: Some("mail".to_string()),
            account: None,
            access_group: None,
        }
    );
    assert_eq!(
        FoundItem::from_attributes(&entries(&[])),
        FoundItem {
            service: None,
            account: None,
            access_group: None,
        }
    );
}

#[test]
fn attribute_names_are_matched_exactly() {
    assert_eq!(
        FoundItem::from_attributes(&entries(&[
            ("SVCE", "mail"),
            ("account", "me"),
            ("agrp ", "group")
        ])),
        FoundItem {
            service: None,
            account: None,
            access_group: None,
        }
    );
}

#[test]
fn empty_attributes_are_kept_as_they_are() {
    assert_eq!(
        FoundItem::from_attributes(&entries(&[("svce", ""), ("acct", "me")])),
        FoundItem {
            service: Some(String::new()),
            account: Some("me".to_string()),
            access_group: None,
        }
    );
}
