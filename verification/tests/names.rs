use quies::{list, profile_path, validate_profile_name, NameError, MAX_NAME_LEN};

fn texts(items: &[&str]) -> Vec<String> {
    items.iter().map(|s| s.to_string()).collect()
}

#[test]
fn accepts_letters_digits_hyphen_and_underscore() {
    assert_eq!(validate_profile_name("quiet"), Ok(()));
    assert_eq!(validate_profile_name("Desk-2_b"), Ok(()));
    assert_eq!(validate_profile_name("0"), Ok(()));
    assert_eq!(validate_profile_name("-"), Ok(()));
    assert_eq!(validate_profile_name("_"), Ok(()));
    assert_eq!(validate_profile_name("azAZ09"), Ok(()));
}

#[test]
fn rejects_the_empty_name() {
    assert_eq!(validate_profile_name(""), Err(NameError::Empty));
}

#[test]
fn accepts_a_name_of_the_greatest_length() {
    assert_eq!(MAX_NAME_LEN, 64);
    let name = "a".repeat(64);
    assert_eq!(validate_profile_name(&name), Ok(()));
}

#[test]
fn rejects_a_name_that_is_one_too_long() {
    let name = "a".repeat(65);
    assert_eq!(validate_profile_name(&name), Err(NameError::TooLong));
}

#[test]
fn length_is_judged_before_the_characters() {
    let name = "!".repeat(65);
    assert_eq!(validate_profile_name(&name), Err(NameError::TooLong));
}

#[test]
fn rejects_a_name_with_a_space_and_a_bang() {
    assert_eq!(validate_profile_name("bad name!"), Err(NameError::BadCharacter));
}

#[test]
fn rejects_characters_next_to_the_allowed_ranges() {
    for name in ["a/b", "a.b", "a b", "a@", "a[", "a`", "a{", "a:", "a+", "a\\b", "..", "a\n"] {
        assert_eq!(validate_profile_name(name), Err(NameError::BadCharacter), "{name:?}");
    }
}

#[test]
fn rejects_letters_outside_ascii() {
    assert_eq!(validate_profile_name("caf\u{e9}"), Err(NameError::BadCharacter));
    assert_eq!(validate_profile_name("\u{9759}\u{304b}"), Err(NameError::BadCharacter));
}

#[test]
fn length_counts_characters() {
    // 40 characters of two bytes each: within the limit by characters.
    let name = "\u{e9}".repeat(40);
    assert_eq!(validate_profile_name(&name), Err(NameError::BadCharacter));
    let long = "\u{e9}".repeat(65);
    assert_eq!(validate_profile_name(&long), Err(NameError::TooLong));
}

#[test]
fn name_errors_in_words() {
    assert_eq!(NameError::Empty.describe(), "profile name must not be empty");
    assert_eq!(NameError::TooLong.describe(), "profile name is too long (max 64)");
    assert_eq!(
        NameError::BadCharacter.describe(),
        "profile name may contain only [A-Za-z0-9-_]"
    );
}

#[test]
fn path_joins_root_and_file_name() {
    assert_eq!(
        profile_path("/data/quies/profiles", "quiet"),
        Ok("/data/quies/profiles/quiet.json".to_string())
    );
}

#[test]
fn path_adds_no_second_separator() {
    assert_eq!(profile_path("/data/", "quiet"), Ok("/data/quiet.json".to_string()));
    assert_eq!(profile_path("/", "quiet"), Ok("/quiet.json".to_string()));
}

#[test]
fn path_in_the_empty_root_is_the_file_name() {
    assert_eq!(profile_path("", "quiet"), Ok("quiet.json".to_string()));
}

#[test]
fn path_agrees_with_the_standard_library() {
    for root in ["", "/", "/a", "/a/", "rel", "rel/x/"] {
        let expected = std::path::Path::new(root).join("n-1.json");
        assert_eq!(profile_path(root, "n-1").unwrap(), expected.to_str().unwrap());
    }
}

#[test]
fn path_refuses_an_invalid_name() {
    assert_eq!(profile_path("/data", "bad name!"), Err(NameError::BadCharacter));
    assert_eq!(profile_path("/data", ""), Err(NameError::Empty));
    assert_eq!(profile_path("/data", &"x".repeat(65)), Err(NameError::TooLong));
    assert_eq!(profile_path("/data", "../escape"), Err(NameError::BadCharacter));
}

#[test]
fn list_keeps_json_files_with_valid_names_in_ascending_order() {
    let files = texts(&[
        "work.json",
        "README.md",
        "home.json",
        "bad name!.json",
        ".json",
        "json",
        "a.b.json",
        "quiet.JSON",
        "Zed.json",
        "quiet.json.bak",
        "a.json",
    ]);
    assert_eq!(list(&files), texts(&["Zed", "a", "home", "work"]));
}

#[test]
fn list_of_nothing_is_empty() {
    assert_eq!(list(&Vec::new()), Vec::<String>::new());
}

#[test]
fn list_sorts_by_code_point_and_puts_a_prefix_first() {
    let files = texts(&["b.json", "ab.json", "a.json", "_.json", "B.json", "-.json", "0.json"]);
    assert_eq!(list(&files), texts(&["-", "0", "B", "_", "a", "ab", "b"]));
}

#[test]
fn list_keeps_a_name_as_often_as_it_occurs() {
    let files = texts(&["a.json", "b.json", "a.json"]);
    assert_eq!(list(&files), texts(&["a", "a", "b"]));
}

#[test]
fn list_drops_a_stem_that_is_too_long() {
    let long = format!("{}.json", "a".repeat(65));
    let fits = format!("{}.json", "a".repeat(64));
    assert_eq!(list(&vec![long, fits]), vec!["a".repeat(64)]);
}
