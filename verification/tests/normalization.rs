use basedirs::strip_qualification;
use basedirs::trim_and_replace_spaces_with_hyphens_then_lowercase;

#[test]
fn test_strip_qualification() {
    let actual1 = strip_qualification("org.foo.BarApp");
    let expected1 = "BarApp";
    assert_eq!(actual1, expected1);

    let actual2 = strip_qualification("BarApp");
    let expected2 = "BarApp";
    assert_eq!(actual2, expected2);
}

#[test]
fn test_trim_and_replace_spaces_with_hyphens_then_lowercase() {
    let input1 = "Bar App";
    let actual1 = trim_and_replace_spaces_with_hyphens_then_lowercase(input1);
    let expected1 = "bar-app";
    assert_eq!(expected1, actual1);

    let input2 = "BarApp-Foo";
    let actual2 = trim_and_replace_spaces_with_hyphens_then_lowercase(input2);
    let expected2 = "barapp-foo";
    assert_eq!(expected2, actual2);

    let input3 = " Bar App ";
    let actual3 = trim_and_replace_spaces_with_hyphens_then_lowercase(input3);
    let expected3 = "bar-app";
    assert_eq!(expected3, actual3);

    let input4 = "  Bar  App  ";
    let actual4 = trim_and_replace_spaces_with_hyphens_then_lowercase(input4);
    let expected4 = "bar-app";
    assert_eq!(expected4, actual4);
}

#[test]
fn normalized_name_has_no_whitespace_or_uppercase() {
    let inputs = [
        "Bar App",
        "  Bar  App  ",
        "\tMANY\u{2000}Kinds\n of\u{00A0}Space ",
        "UPPER CASE NAME",
        "",
        "   ",
    ];
    for input in inputs {
        let name = trim_and_replace_spaces_with_hyphens_then_lowercase(input);
        assert!(!name.chars().any(|c| c.is_whitespace()), "whitespace in {:?}", name);
        assert!(!name.chars().any(|c| c.is_uppercase()), "uppercase in {:?}", name);
    }
}

#[test]
fn normalization_collapses_unicode_whitespace() {
    let actual = trim_and_replace_spaces_with_hyphens_then_lowercase("Bar\u{2000}\u{00A0}App");
    assert_eq!(actual, "bar-app");
}

#[test]
fn normalization_of_empty_and_all_whitespace_is_empty() {
    assert_eq!(trim_and_replace_spaces_with_hyphens_then_lowercase(""), "");
    assert_eq!(trim_and_replace_spaces_with_hyphens_then_lowercase(" \t\n "), "");
}

#[test]
fn strip_qualification_keeps_only_the_final_segment() {
    assert_eq!(strip_qualification("a.b.c.d"), "d");
    assert_eq!(strip_qualification("org.foo."), "");
    assert_eq!(strip_qualification(".leading"), "leading");
    assert_eq!(strip_qualification(""), "");
}
