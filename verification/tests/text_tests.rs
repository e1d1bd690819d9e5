use openebs_upgrade::text::{
    contains_string, join_with_commas, split_eq_arg, str_contains, str_eq, u64_to_string,
};

#[test]
fn string_equality_is_character_wise() {
    assert!(str_eq("abc", "abc"));
    assert!(str_eq("", ""));
    assert!(!str_eq("abc", "abd"));
    assert!(!str_eq("abc", "ab"));
}

#[test]
fn substring_search() {
    assert!(str_contains("openebs-upgrade", "upgrade"));
    assert!(str_contains("upgrade", "upgrade"));
    assert!(str_contains("anything", ""));
    assert!(!str_contains("upgrade", "upgrades"));
    assert!(!str_contains("upgrade", "grand"));
}

#[test]
fn membership_in_a_string_list() {
    let v = vec!["a".to_string(), "b".to_string()];
    assert!(contains_string(&v, "b"));
    assert!(!contains_string(&v, "c"));
    assert!(!contains_string(&Vec::new(), "a"));
}

#[test]
fn commas_join_between_pieces() {
    assert_eq!(join_with_commas(&Vec::new()), "");
    assert_eq!(join_with_commas(&vec!["a".to_string()]), "a");
    assert_eq!(
        join_with_commas(&vec!["a".to_string(), "b".to_string(), "c".to_string()]),
        "a,b,c"
    );
}

#[test]
fn numbers_write_in_decimal() {
    assert_eq!(u64_to_string(0), "0");
    assert_eq!(u64_to_string(7), "7");
    assert_eq!(u64_to_string(10), "10");
    assert_eq!(u64_to_string(907), "907");
    assert_eq!(u64_to_string(u64::MAX), "18446744073709551615");
}

#[test]
fn arguments_split_at_a_single_equals_sign() {
    let (k, v) = split_eq_arg("key=/tmp/file.yaml").unwrap();
    assert_eq!(k, "key");
    assert_eq!(v, "/tmp/file.yaml");

    let (k, v) = split_eq_arg("=value").unwrap();
    assert_eq!(k, "");
    assert_eq!(v, "value");

    assert!(split_eq_arg("no-sign").is_none());
    assert!(split_eq_arg("a=b=c").is_none());
}
