use media_identity::metadata::normalize::{extract_year, infer_media_type, year_of};
use media_identity::metadata::MediaType;
use media_identity::text::{
    chars_of, joined, contains, decimal_string, ends_with, find_first, leading, same_text,
};

#[test]
fn decimal_string_writes_plain_digits() {
    assert_eq!(decimal_string(603), "603");
    assert_eq!(decimal_string(0), "0");
    assert_eq!(decimal_string(-45), "-45");
    assert_eq!(decimal_string(i32::MIN), "-2147483648");
    assert_eq!(decimal_string(i32::MAX), "2147483647");
}

#[test]
fn contains_finds_substrings() {
    assert!(contains("https://www.primevideo.com/settings/watch-history", "watch-history"));
    assert!(!contains("https://www.primevideo.com/settings", "watch-history"));
    assert!(contains("abc", ""));
    assert!(!contains("", "a"));
    assert!(ends_with("user@example.co.uk", ".co.uk"));
    assert!(!ends_with("user.de@example.com", ".de"));
    assert_eq!(find_first("2010-07-16", '-'), 4);
    assert_eq!(find_first("2010", '-'), 4);
}

#[test]
fn strings_are_taken_apart_and_put_together() {
    assert_eq!(chars_of("añb"), vec!['a', 'ñ', 'b']);
    assert_eq!(joined("Bearer ", "tok"), "Bearer tok");
    assert_eq!(leading("2010-07-16", 4), "2010");
    assert_eq!(leading("añb", 2), "añ");
    assert_eq!(leading("ab", 5), "ab");
    assert_eq!(leading("ab", 0), "");
    assert!(same_text("tv", "tv"));
    assert!(!same_text("tv", "tvs"));
    assert!(!same_text("tv", "tb"));
    assert_eq!(find_first("añ-b", '-'), 2);
    assert_eq!(find_first("", '-'), 0);
}

#[test]
fn year_is_the_start_of_a_date() {
    assert_eq!(extract_year("1999-03-30"), "1999");
    assert_eq!(extract_year("1999"), "1999");
    assert_eq!(extract_year("199-03"), "199");
    assert_eq!(extract_year("19999-03"), "1999");
    assert_eq!(year_of(&Some("2001-01-01".to_string()), &Some("1990-01-01".to_string())), Some("2001".to_string()));
    assert_eq!(year_of(&None, &Some("1990-01-01".to_string())), Some("1990".to_string()));
    assert_eq!(year_of(&None, &None), None);

    assert_eq!(infer_media_type(&Some("tv".to_string()), "Title"), MediaType::Series);
    assert_eq!(infer_media_type(&Some("movie".to_string()), ""), MediaType::Movie);
    assert_eq!(infer_media_type(&None, "Title"), MediaType::Movie);
    assert_eq!(infer_media_type(&None, ""), MediaType::Series);
}
