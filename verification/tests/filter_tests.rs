use vowel_server::filter::remove_vowels;

#[test]
fn strips_vowels_from_mixed_text() {
    let out = remove_vowels(String::from("Hello World"));
    assert_eq!(out, "Hll Wrld");
}

#[test]
fn empty_input_gives_empty_output() {
    let out = remove_vowels(String::new());
    assert_eq!(out, "");
}

#[test]
fn input_without_vowels_is_unchanged() {
    let out = remove_vowels(String::from("xyz BCD 123 !?"));
    assert_eq!(out, "xyz BCD 123 !?");
}

#[test]
fn input_of_vowels_alone_gives_empty_output() {
    let out = remove_vowels(String::from("aeiouAEIOU"));
    assert_eq!(out, "");
}

#[test]
fn repeated_single_vowel_gives_empty_output() {
    let out = remove_vowels(String::from("eeeeeee"));
    assert_eq!(out, "");
    let out = remove_vowels(String::from("UUUU"));
    assert_eq!(out, "");
}

#[test]
fn non_ascii_characters_pass_through() {
    let out = remove_vowels(String::from("h\u{e9}llo w\u{f6}rld \u{4f60}\u{597d}"));
    assert_eq!(out, "h\u{e9}ll w\u{f6}rld \u{4f60}\u{597d}");
}

#[test]
fn filtering_twice_changes_nothing() {
    let once = remove_vowels(String::from("The quick brown fox jumps over the lazy dog"));
    let twice = remove_vowels(once.clone());
    assert_eq!(twice, once);
}

#[test]
fn output_is_never_longer_than_input() {
    let input = String::from("Equality only without vowels");
    let out = remove_vowels(input.clone());
    assert!(out.chars().count() < input.chars().count());
    let plain = String::from("xyz");
    let out = remove_vowels(plain.clone());
    assert_eq!(out.chars().count(), plain.chars().count());
}
