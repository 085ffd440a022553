use apple_native_keyring_store::instance::fresh_instance_id;
use apple_native_keyring_store::instance::instance_id;
use apple_native_keyring_store::instance::VERSION;

#[test]
fn version_is_the_version_of_the_crate() {
    assert_eq!(VERSION, "0.2.0");
}

#[test]
fn id_of_the_epoch() {
    assert_eq!(
        instance_id(0, 0),
        "Crate version 0.2.0, Instantiated at 0.000000000"
    );
}

#[test]
fn id_writes_seconds_without_and_nanoseconds_with_leading_zeros() {
    assert_eq!(
        instance_id(1761689543, 123456789),
        "Crate version 0.2.0, Instantiated at 1761689543.123456789"
    );
    assert_eq!(
        instance_id(7, 5),
        "Crate version 0.2.0, Instantiated at 7.000000005"
    );
    assert_eq!(
        instance_id(10, 100),
        "Crate version 0.2.0, Instantiated at 10.000000100"
    );
    assert_eq!(
        instance_id(909, 999_999_999),
        "Crate version 0.2.0, Instantiated at 909.999999999"
    );
    assert_eq!(
        instance_id(1_000_000, 120_000_000),
        "Crate version 0.2.0, Instantiated at 1000000.120000000"
    );
}

#[test]
fn id_of_the_largest_moment() {
    assert_eq!(
        instance_id(u64::MAX, 999_999_999),
        "Crate version 0.2.0, Instantiated at 18446744073709551615.999999999"
    );
}

#[test]
fn id_keeps_only_nine_digits_of_the_nanoseconds() {
    assert_eq!(
        instance_id(1, u32::MAX),
        "Crate version 0.2.0, Instantiated at 1.294967295"
    );
}

#[test]
fn different_moments_have_different_ids() {
    assert_ne!(instance_id(1, 0), instance_id(0, 1));
    assert_ne!(instance_id(12, 3), instance_id(1, 23));
    assert_ne!(instance_id(1, 100_000_000), instance_id(1, 10_000_000));
}

#[test]
fn fresh_id_is_taken_from_the_clock() {
    let id = fresh_instance_id();
    let rest = id
        .strip_prefix("Crate version 0.2.0, Instantiated at ")
        .unwrap();
    let (seconds, nanos) = rest.split_once('.').unwrap();
    assert!(seconds.parse::<u64>().unwrap() > 1_600_000_000);
    assert_eq!(nanos.len(), 9);
    assert!(nanos.parse::<u32>().unwrap() < 1_000_000_000);
}

#[test]
fn fresh_ids_do_not_go_back_in_time() {
    let first = fresh_instance_id();
    let second = fresh_instance_id();
    let moment = |id: &str| -> (u64, u32) {
        let rest = id
            .strip_prefix("Crate version 0.2.0, Instantiated at ")
            .unwrap();
        let (seconds, nanos) = rest.split_once('.').unwrap();
        (seconds.parse().unwrap(), nanos.parse().unwrap())
    };
    assert!(moment(&first) <= moment(&second));
}
