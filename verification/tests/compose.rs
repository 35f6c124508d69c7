use designation::compose::compose;

#[test]
fn compose_without_suffix() {
    assert_eq!(compose("AB", "1234", ""), "AB-1234");
}

#[test]
fn compose_with_suffix() {
    assert_eq!(compose("AB", "1234", "HT"), "AB-1234-HT");
}

#[test]
fn compose_with_empty_prefix_keeps_the_hyphen() {
    assert_eq!(compose("", "1234", "HT"), "-1234-HT");
    assert_eq!(compose("", "1234", ""), "-1234");
}

#[test]
fn compose_with_single_initials() {
    assert_eq!(compose("O", "4135", "K"), "O-4135-K");
}
