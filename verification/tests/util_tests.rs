use os_identifier::build_index::{
    windows_10_release_builds, windows_11_release_builds, BuildIndex,
};
use os_identifier::util::{contains_any_word, find_number_with_digits, is_subdivided_by_dashes_only};
use os_identifier::ParseError;

#[test]
fn test_is_subdivided_by_dashes_only() {
    let label1 = "11-24h2-iot-lts";
    let label2 = "11-24h2-iot lts";

    assert_eq!(is_subdivided_by_dashes_only(label1), true);
    assert_eq!(is_subdivided_by_dashes_only(label2), false);
}

#[test]
fn test_contains_any_word_true() {
    let label1 = "Windows 11 Professional Edition";
    let label2 = "Windows 11 Pro 24H2";
    let word = ["Professional Edition", "Professional", "Pro"];

    assert_eq!(contains_any_word(label1, &word), true);
    assert_eq!(contains_any_word(label2, &word), true);
}

#[test]
fn test_contains_any_word_false() {
    let label1 = "Windows 11 Professional Edition";
    let label2 = "Windows 11 Pro 24H2";
    let word = ["Enterprise Edition", "Enterprise"];

    assert_eq!(contains_any_word(label1, &word), false);
    assert_eq!(contains_any_word(label2, &word), false);
}

#[test]
fn test_contains_any_word_whole_words_only() {
    // `Pro` embedded in `Professional` is not a whole-word occurrence
    assert_eq!(contains_any_word("Windows Professional", &["Pro"]), false);
    assert_eq!(contains_any_word("Windows Pro", &["Pro"]), true);
}

#[test]
fn test_find_number_with_digits() {
    assert_eq!(
        find_number_with_digits("Windows 10 (Build 19045) 64 Bit", 5),
        Some(String::from("19045"))
    );
    // a longer run does not contain a five-digit one
    assert_eq!(find_number_with_digits("Build 190456 here", 5), None);
    assert_eq!(find_number_with_digits("no digits", 5), None);
    // the first qualifying run wins
    assert_eq!(
        find_number_with_digits("22000 then 26100", 5),
        Some(String::from("22000"))
    );
}

#[test]
fn mod_test_build_to_release_1() {
    let index = BuildIndex::from_correspondence(&windows_11_release_builds());
    let release = index.resolve("26100");

    assert_eq!(release, Ok(String::from("24H2")));
}

#[test]
fn windows_10_test_build_to_release_1() {
    let index = BuildIndex::from_correspondence(&windows_10_release_builds());
    let release = index.resolve("19045");

    assert_eq!(release, Ok(String::from("22H2")));
}

#[test]
fn windows_11_test_build_to_release_1() {
    let index = BuildIndex::from_correspondence(&windows_11_release_builds());
    let release = index.resolve("26100");

    assert_eq!(release, Ok(String::from("24H2")));
}

#[test]
fn test_build_to_release_unknown() {
    let index = BuildIndex::from_correspondence(&windows_11_release_builds());
    assert_eq!(index.resolve("99999"), Err(ParseError::UnknownBuild));
}

#[test]
fn test_build_index_covers_every_table_row() {
    // Build-Index totality over the compiled table: every listed build
    // resolves to the release label of its own row.
    for family in [windows_10_release_builds(), windows_11_release_builds()] {
        let index = BuildIndex::from_correspondence(&family);
        for (release, builds) in &family {
            for build in builds {
                assert_eq!(index.resolve(build), Ok(release.clone()));
            }
        }
    }
}
