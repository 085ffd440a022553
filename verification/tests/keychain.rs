use apple_native_keyring_store::error::Error;
use apple_native_keyring_store::keychain::decode_error;
use apple_native_keyring_store::keychain::outcome;
use apple_native_keyring_store::keychain::Cred;
use apple_native_keyring_store::keychain::MacKeychainDomain;
use apple_native_keyring_store::keychain::SearchQuery;
use apple_native_keyring_store::keychain::Store;
use apple_native_keyring_store::persistence::CredentialPersistence;
use apple_native_keyring_store::platform::FoundItem;

fn invalid(parameter: &str, reason: &str) -> Error {
    Error::Invalid(parameter.to_string(), reason.to_string())
}

fn results(store: &Store, found: Result<Vec<FoundItem>, i32>) -> Result<Vec<Cred>, Error> {
    store.search_query(&[]).unwrap().results(found)
}

fn item(service: Option<&str>, account: Option<&str>) -> FoundItem {
    FoundItem {
        service: service.map(|s| s.to_string()),
        account: account.map(|s| s.to_string()),
        access_group: None,
    }
}

#[test]
fn keychain_domain_names_are_read_in_any_case() {
    assert_eq!(MacKeychainDomain::from_str("user"), Ok(MacKeychainDomain::User));
    assert_eq!(MacKeychainDomain::from_str("User"), Ok(MacKeychainDomain::User));
    assert_eq!(MacKeychainDomain::from_str("SYSTEM"), Ok(MacKeychainDomain::System));
    assert_eq!(MacKeychainDomain::from_str("cOmMoN"), Ok(MacKeychainDomain::Common));
    assert_eq!(MacKeychainDomain::from_str("Dynamic"), Ok(MacKeychainDomain::Dynamic));
}

#[test]
fn keychain_unknown_domain_name_is_invalid() {
    assert_eq!(
        MacKeychainDomain::from_str("login"),
        Err(invalid(
            "keychain",
            "'login' is not User, System, Common, or Dynamic"
        ))
    );
    assert_eq!(
        MacKeychainDomain::from_str(""),
        Err(invalid("keychain", "'' is not User, System, Common, or Dynamic"))
    );
    assert_eq!(
        MacKeychainDomain::from_str(" user"),
        Err(invalid(
            "keychain",
            "' user' is not User, System, Common, or Dynamic"
        ))
    );
}

#[test]
fn keychain_only_ascii_letters_are_folded() {
    // The lower-case form of U+00DC is another character; ASCII folding keeps it.
    assert_eq!(
        MacKeychainDomain::from_str("ÜSER"),
        Err(invalid(
            "keychain",
            "'ÜSER' is not User, System, Common, or Dynamic"
        ))
    );
}

#[test]
fn keychain_domain_names_are_written_capitalized() {
    assert_eq!(MacKeychainDomain::User.to_string(), "User");
    assert_eq!(MacKeychainDomain::System.to_string(), "System");
    assert_eq!(MacKeychainDomain::Common.to_string(), "Common");
    assert_eq!(MacKeychainDomain::Dynamic.to_string(), "Dynamic");
}

#[test]
fn keychain_written_domain_names_read_back() {
    for domain in [
        MacKeychainDomain::User,
        MacKeychainDomain::System,
        MacKeychainDomain::Common,
        MacKeychainDomain::Dynamic,
    ] {
        assert_eq!(MacKeychainDomain::from_str(&domain.to_string()), Ok(domain));
    }
}

#[test]
fn keychain_build_keeps_the_parts() {
    let cred = Cred::build(MacKeychainDomain::System, "service", "user").unwrap();
    assert_eq!(
        cred,
        Cred {
            domain: MacKeychainDomain::System,
            service: "service".to_string(),
            account: "user".to_string(),
        }
    );
}

#[test]
fn keychain_build_rejects_empty_service() {
    assert_eq!(
        Cred::build(MacKeychainDomain::User, "", "user"),
        Err(invalid("service", "cannot be empty"))
    );
}

#[test]
fn keychain_build_rejects_empty_user() {
    assert_eq!(
        Cred::build(MacKeychainDomain::User, "service", ""),
        Err(invalid("user", "cannot be empty"))
    );
}

#[test]
fn keychain_build_names_the_service_first_when_both_are_empty() {
    assert_eq!(
        Cred::build(MacKeychainDomain::User, "", ""),
        Err(invalid("service", "cannot be empty"))
    );
}

#[test]
fn keychain_status_codes_of_an_unreachable_keychain_are_no_storage_access() {
    assert_eq!(decode_error(-25291), Error::NoStorageAccess(-25291));
    assert_eq!(decode_error(-25292), Error::NoStorageAccess(-25292));
    assert_eq!(decode_error(-25294), Error::NoStorageAccess(-25294));
    assert_eq!(decode_error(-25295), Error::NoStorageAccess(-25295));
}

#[test]
fn keychain_status_code_of_a_missing_item_is_no_entry() {
    assert_eq!(decode_error(-25300), Error::NoEntry);
}

#[test]
fn keychain_other_status_codes_are_platform_failures() {
    assert_eq!(decode_error(-34018), Error::PlatformFailure(-34018));
    assert_eq!(decode_error(-25293), Error::PlatformFailure(-25293));
    assert_eq!(decode_error(-25299), Error::PlatformFailure(-25299));
    assert_eq!(decode_error(0), Error::PlatformFailure(0));
    assert_eq!(decode_error(25300), Error::PlatformFailure(25300));
    assert_eq!(decode_error(i32::MIN), Error::PlatformFailure(i32::MIN));
    assert_eq!(decode_error(i32::MAX), Error::PlatformFailure(i32::MAX));
}

#[test]
fn keychain_outcome_hands_the_answer_through() {
    assert_eq!(outcome(Ok(vec![1u8, 2, 3])), Ok(vec![1u8, 2, 3]));
    assert_eq!(outcome(Ok(())), Ok(()));
    assert_eq!(outcome::<Vec<u8>>(Err(-25300)), Err(Error::NoEntry));
    assert_eq!(outcome::<()>(Err(-25292)), Err(Error::NoStorageAccess(-25292)));
    assert_eq!(outcome::<()>(Err(-50)), Err(Error::PlatformFailure(-50)));
}

#[test]
fn keychain_attributes_name_the_keychain() {
    let cred = Cred::build(MacKeychainDomain::Common, "service", "user").unwrap();
    assert_eq!(
        cred.get_attributes(Ok(())),
        Ok(vec![("keychain".to_string(), "Common".to_string())])
    );
}

#[test]
fn keychain_attributes_of_a_missing_item_are_no_entry() {
    let cred = Cred::build(MacKeychainDomain::Common, "service", "user").unwrap();
    assert_eq!(cred.get_attributes(Err(-25300)), Err(Error::NoEntry));
    assert_eq!(
        cred.get_attributes(Err(-25294)),
        Err(Error::NoStorageAccess(-25294))
    );
}

#[test]
fn keychain_a_credential_that_exists_resolves_to_itself() {
    let cred = Cred::build(MacKeychainDomain::User, "service", "user").unwrap();
    assert_eq!(cred.get_credential(Ok(())), Ok(None));
}

#[test]
fn keychain_a_credential_that_is_missing_resolves_to_no_entry() {
    let cred = Cred::build(MacKeychainDomain::User, "service", "user").unwrap();
    assert_eq!(cred.get_credential(Err(-25300)), Err(Error::NoEntry));
    assert_eq!(
        cred.get_credential(Err(-25291)),
        Err(Error::NoStorageAccess(-25291))
    );
    assert_eq!(cred.get_credential(Err(-1)), Err(Error::PlatformFailure(-1)));
}

#[test]
fn keychain_specifiers_are_service_and_account() {
    let cred = Cred::build(MacKeychainDomain::User, "my service", "my user").unwrap();
    assert_eq!(
        cred.get_specifiers(),
        Some(("my service".to_string(), "my user".to_string()))
    );
}

#[test]
fn keychain_default_store_uses_the_user_keychain() {
    let store = Store::new().unwrap();
    let cred = store.build("service", "user", None).unwrap();
    assert_eq!(cred.domain, MacKeychainDomain::User);
}

#[test]
fn keychain_configuration_selects_the_keychain() {
    let store = Store::new_with_configuration(&[("keychain", "system")]).unwrap();
    let cred = store.build("service", "user", None).unwrap();
    assert_eq!(cred.domain, MacKeychainDomain::System);
    let store = Store::new_with_configuration(&[("keychain", "DYNAMIC")]).unwrap();
    let cred = store.build("service", "user", None).unwrap();
    assert_eq!(cred.domain, MacKeychainDomain::Dynamic);
}

#[test]
fn keychain_empty_configuration_gives_the_default_store() {
    let store = Store::new_with_configuration(&[]).unwrap();
    let cred = store.build("service", "user", None).unwrap();
    assert_eq!(cred.domain, MacKeychainDomain::User);
}

#[test]
fn keychain_configuration_with_an_unknown_key_is_invalid() {
    let r = Store::new_with_configuration(&[("keychian", "system")]);
    assert_eq!(r.unwrap_err(), invalid("keychian", "unknown key"));
    let r = Store::new_with_configuration(&[("keychain", "system"), ("cloud-sync", "true")]);
    assert_eq!(r.unwrap_err(), invalid("cloud-sync", "unknown key"));
}

#[test]
fn keychain_one_of_several_unknown_keys_is_named() {
    let r = Store::new_with_configuration(&[("one", "1"), ("two", "2")]);
    let e = r.unwrap_err();
    assert!(e == invalid("one", "unknown key") || e == invalid("two", "unknown key"));
}

#[test]
fn keychain_configuration_with_an_unknown_keychain_is_invalid() {
    let r = Store::new_with_configuration(&[("keychain", "mine")]);
    assert_eq!(
        r.unwrap_err(),
        invalid("keychain", "'mine' is not User, System, Common, or Dynamic")
    );
}

#[test]
fn keychain_modifier_overrides_the_keychain_of_the_store() {
    let store = Store::new_with_configuration(&[("keychain", "system")]).unwrap();
    let cred = store
        .build("service", "user", Some(&[("keychain", "Common")]))
        .unwrap();
    assert_eq!(
        cred,
        Cred {
            domain: MacKeychainDomain::Common,
            service: "service".to_string(),
            account: "user".to_string(),
        }
    );
    let cred = store.build("service", "user", Some(&[])).unwrap();
    assert_eq!(cred.domain, MacKeychainDomain::System);
}

#[test]
fn keychain_store_build_rejects_unknown_modifier() {
    let store = Store::new().unwrap();
    assert_eq!(
        store.build("service", "user", Some(&[("access-policy", "default")])),
        Err(invalid("access-policy", "unknown key"))
    );
}

#[test]
fn keychain_store_build_rejects_unknown_keychain() {
    let store = Store::new().unwrap();
    assert_eq!(
        store.build("service", "user", Some(&[("keychain", "nowhere")])),
        Err(invalid(
            "keychain",
            "'nowhere' is not User, System, Common, or Dynamic"
        ))
    );
}

#[test]
fn keychain_store_build_rejects_empty_names() {
    let store = Store::new().unwrap();
    assert_eq!(
        store.build("", "user", None),
        Err(invalid("service", "cannot be empty"))
    );
    assert_eq!(
        store.build("service", "", None),
        Err(invalid("user", "cannot be empty"))
    );
    assert_eq!(
        store.build("", "", Some(&[("keychain", "system")])),
        Err(invalid("service", "cannot be empty"))
    );
}

#[test]
fn keychain_modifiers_are_checked_before_the_names() {
    let store = Store::new().unwrap();
    assert_eq!(
        store.build("", "", Some(&[("keychain", "nowhere")])),
        Err(invalid(
            "keychain",
            "'nowhere' is not User, System, Common, or Dynamic"
        ))
    );
    assert_eq!(
        store.build("", "", Some(&[("other", "x")])),
        Err(invalid("other", "unknown key"))
    );
}

#[test]
fn keychain_vendor_is_the_same_for_every_store() {
    let one = Store::new().unwrap();
    let two = Store::new_with_configuration(&[("keychain", "system")]).unwrap();
    assert_eq!(
        one.vendor(),
        "macOS Keychain Store, https://crates.io/crates/apple-native-keyring-store"
    );
    assert_eq!(one.vendor(), two.vendor());
}

#[test]
fn keychain_id_is_stable_for_one_store_and_differs_between_stores() {
    let one = Store::new().unwrap();
    let two = Store::new().unwrap();
    assert_eq!(one.id(), one.id());
    assert_ne!(one.id(), two.id());
}

#[test]
fn keychain_id_names_the_version_and_the_moment() {
    let store = Store::new().unwrap();
    let id = store.id();
    let rest = id
        .strip_prefix("Crate version 0.2.0, Instantiated at ")
        .unwrap();
    let (seconds, nanos) = rest.split_once('.').unwrap();
    assert!(seconds.parse::<u64>().unwrap() > 1_600_000_000);
    assert_eq!(nanos.len(), 9);
    assert!(nanos.parse::<u32>().unwrap() < 1_000_000_000);
}

#[test]
fn keychain_credentials_persist_until_deleted() {
    let store = Store::new().unwrap();
    assert_eq!(store.persistence(), CredentialPersistence::UntilDelete);
}

#[test]
fn keychain_empty_search_spec_asks_for_everything_in_the_keychain() {
    let store = Store::new_with_configuration(&[("keychain", "common")]).unwrap();
    assert_eq!(
        store.search_query(&[]),
        Ok(SearchQuery {
            domain: MacKeychainDomain::Common,
            service: None,
            account: None,
        })
    );
}

#[test]
fn keychain_search_spec_gives_service_and_account() {
    let store = Store::new().unwrap();
    assert_eq!(
        store.search_query(&[("user", "Me"), ("service", "Mail")]),
        Ok(SearchQuery {
            domain: MacKeychainDomain::User,
            service: Some("Mail".to_string()),
            account: Some("Me".to_string()),
        })
    );
    assert_eq!(
        store.search_query(&[("service", "")]),
        Ok(SearchQuery {
            domain: MacKeychainDomain::User,
            service: Some(String::new()),
            account: None,
        })
    );
}

#[test]
fn keychain_search_spec_with_an_unknown_key_is_invalid() {
    let store = Store::new().unwrap();
    assert_eq!(
        store.search_query(&[("service", "Mail"), ("account", "Me")]),
        Err(invalid("account", "unknown key"))
    );
    assert_eq!(
        store.search_query(&[("access-group", "group")]),
        Err(invalid("access-group", "unknown key"))
    );
}

#[test]
fn keychain_search_wraps_each_found_item() {
    let store = Store::new_with_configuration(&[("keychain", "system")]).unwrap();
    let found = vec![
        item(Some("mail"), Some("me")),
        item(Some("web"), Some("you")),
    ];
    assert_eq!(
        results(&store, Ok(found)),
        Ok(vec![
            Cred {
                domain: MacKeychainDomain::System,
                service: "mail".to_string(),
                account: "me".to_string(),
            },
            Cred {
                domain: MacKeychainDomain::System,
                service: "web".to_string(),
                account: "you".to_string(),
            },
        ])
    );
}

#[test]
fn keychain_search_skips_items_without_a_name() {
    let store = Store::new().unwrap();
    let found = vec![
        item(None, Some("me")),
        item(Some("mail"), None),
        item(Some("web"), Some("you")),
        item(Some(""), Some("you")),
        item(Some("web"), Some("")),
        item(None, None),
    ];
    assert_eq!(
        results(&store, Ok(found)),
        Ok(vec![Cred {
            domain: MacKeychainDomain::User,
            service: "web".to_string(),
            account: "you".to_string(),
        }])
    );
}

#[test]
fn keychain_search_that_finds_nothing_is_empty() {
    let store = Store::new().unwrap();
    assert_eq!(results(&store, Ok(vec![])), Ok(vec![]));
    assert_eq!(results(&store, Err(-25300)), Ok(vec![]));
}

#[test]
fn keychain_search_that_fails_is_an_error() {
    let store = Store::new().unwrap();
    assert_eq!(
        results(&store, Err(-25294)),
        Err(Error::NoStorageAccess(-25294))
    );
    assert_eq!(
        results(&store, Err(-34018)),
        Err(Error::PlatformFailure(-34018))
    );
}

#[test]
fn keychain_search_never_reports_no_entry() {
    let store = Store::new().unwrap();
    for code in [-25300, -25291, -25294, -34018, -50, 0, 1] {
        assert_ne!(results(&store, Err(code)), Err(Error::NoEntry));
    }
}

#[test]
fn keychain_search_spec_may_name_the_keychain() {
    let store = Store::new().unwrap();
    let query = store
        .search_query(&[("keychain", "System"), ("service", "Mail")])
        .unwrap();
    assert_eq!(
        query,
        SearchQuery {
            domain: MacKeychainDomain::System,
            service: Some("Mail".to_string()),
            account: None,
        }
    );
    assert_eq!(
        query.results(Ok(vec![item(Some("Mail"), Some("me"))])),
        Ok(vec![Cred {
            domain: MacKeychainDomain::System,
            service: "Mail".to_string(),
            account: "me".to_string(),
        }])
    );
    assert_eq!(
        store.search_query(&[("keychain", "nowhere")]),
        Err(invalid(
            "keychain",
            "'nowhere' is not User, System, Common, or Dynamic"
        ))
    );
}

#[test]
fn keychain_accessor_names_the_keychain() {
    let cred = Cred::build(MacKeychainDomain::Dynamic, "service", "user").unwrap();
    assert_eq!(cred.keychain(), MacKeychainDomain::Dynamic);
}

#[test]
fn keychain_new_internal_keeps_the_keychain() {
    let store = Store::new_internal(MacKeychainDomain::Common);
    let cred = store.build("service", "user", None).unwrap();
    assert_eq!(cred.domain, MacKeychainDomain::Common);
    assert!(store
        .id()
        .starts_with("Crate version 0.2.0, Instantiated at "));
}
