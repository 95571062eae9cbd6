use frontend::scan::{comma_ids_of, comma_names_of, parse_i64_chars, split_chars, split_words, trim_chars, white};
use frontend::tags::{copy_texts, eq_ignore_case, has_tag, merge_tags};
use frontend::text::{chars_of, digit_of, owned, push_chars, push_int, push_nat, push_str, same_chars, same_text, string_of};
use frontend::uri::{push_uri_component, url_encode};

fn strings(v: &[&str]) -> Vec<String> {
    v.iter().map(|s| s.to_string()).collect()
}

#[test]
fn decimal_text() {
    let mut s = String::new();
    push_nat(&mut s, 0);
    assert_eq!(s, "0");
    let mut s = String::from("n=");
    push_nat(&mut s, 1234567890);
    assert_eq!(s, "n=1234567890");
    let mut s = String::new();
    push_int(&mut s, -42);
    assert_eq!(s, "-42");
    let mut s = String::new();
    push_int(&mut s, i64::MIN);
    assert_eq!(s, "-9223372036854775808");
    let mut s = String::new();
    push_int(&mut s, i64::MAX);
    assert_eq!(s, "9223372036854775807");
    assert_eq!(digit_of(7), '7');
}

#[test]
fn text_building() {
    let mut s = String::from("é");
    push_str(&mut s, "tag");
    push_chars(&mut s, &vec!['_', 'x']);
    assert_eq!(s, "étag_x");
    assert_eq!(chars_of("aé"), vec!['a', 'é']);
    assert_eq!(string_of(&vec!['h', 'i']), "hi");
    assert_eq!(owned("copy"), "copy");
    assert!(same_text("abc", "abc"));
    assert!(!same_text("abc", "abd"));
    assert!(!same_text("abc", "ab"));
    assert!(same_chars(&vec!['a'], &vec!['a']));
    assert!(!same_chars(&vec!['a'], &vec!['b']));
}

#[test]
fn uri_component_encoding() {
    assert_eq!(url_encode(""), "");
    assert_eq!(url_encode("abc-XYZ_0.9!~*'()"), "abc-XYZ_0.9!~*'()");
    assert_eq!(url_encode("a b&c=d/e?f#g"), "a%20b%26c%3Dd%2Fe%3Ff%23g");
    assert_eq!(url_encode("tag:cat"), "tag%3Acat");
    assert_eq!(url_encode("é"), "%C3%A9");
    assert_eq!(url_encode("日"), "%E6%97%A5");
    assert_eq!(url_encode("😀"), "%F0%9F%98%80");
    let mut out = String::from("q=");
    push_uri_component(&mut out, "a+b");
    assert_eq!(out, "q=a%2Bb");
}

#[test]
fn white_space_and_trim() {
    assert!(white(' '));
    assert!(white('\t'));
    assert!(white('\u{3000}'));
    assert!(white('\u{a0}'));
    assert!(!white('a'));
    assert!(!white('\u{200b}'));
    assert_eq!(trim_chars(&chars_of("  a b \n")), chars_of("a b"));
    assert_eq!(trim_chars(&chars_of("   ")), Vec::<char>::new());
    assert_eq!(trim_chars(&chars_of("x")), vec!['x']);
}

#[test]
fn splitting() {
    assert_eq!(split_chars(&chars_of("a,b,,c"), ','), vec![chars_of("a"), chars_of("b"), vec![], chars_of("c")]);
    assert_eq!(split_chars(&chars_of(""), ','), vec![Vec::<char>::new()]);
    assert_eq!(split_chars(&chars_of(","), ','), vec![Vec::<char>::new(), vec![]]);
    assert_eq!(split_words("  one two\tthree\n "), strings(&["one", "two", "three"]));
    assert_eq!(split_words(""), Vec::<String>::new());
    assert_eq!(split_words("   "), Vec::<String>::new());
}

#[test]
fn integer_parsing() {
    assert_eq!(parse_i64_chars(&chars_of("42")), Some(42));
    assert_eq!(parse_i64_chars(&chars_of("+7")), Some(7));
    assert_eq!(parse_i64_chars(&chars_of("-15")), Some(-15));
    assert_eq!(parse_i64_chars(&chars_of("9223372036854775807")), Some(i64::MAX));
    assert_eq!(parse_i64_chars(&chars_of("-9223372036854775808")), Some(i64::MIN));
    assert_eq!(parse_i64_chars(&chars_of("9223372036854775808")), None);
    assert_eq!(parse_i64_chars(&chars_of("")), None);
    assert_eq!(parse_i64_chars(&chars_of("-")), None);
    assert_eq!(parse_i64_chars(&chars_of("+")), None);
    assert_eq!(parse_i64_chars(&chars_of("1a")), None);
    assert_eq!(parse_i64_chars(&chars_of(" 1")), None);
    assert_eq!(parse_i64_chars(&chars_of("007")), Some(7));
}

#[test]
fn comma_lists() {
    assert_eq!(comma_names_of(" a , b,,  ,c "), strings(&["a", "b", "c"]));
    assert_eq!(comma_names_of(""), Vec::<String>::new());
    assert_eq!(comma_names_of(" , "), Vec::<String>::new());
    assert_eq!(comma_ids_of("1, 2 ,3"), Some(vec![1, 2, 3]));
    assert_eq!(comma_ids_of("1,x"), None);
    assert_eq!(comma_ids_of("1,,2"), None);
    assert_eq!(comma_ids_of("-4"), Some(vec![-4]));
}

#[test]
fn tag_case_matching() {
    assert!(eq_ignore_case("Cat", "cAT"));
    assert!(!eq_ignore_case("cat", "cats"));
    assert!(!eq_ignore_case("É", "é"));
    let list = strings(&["Blue_Sky", "cat"]);
    assert!(has_tag(&list, "blue_sky"));
    assert!(has_tag(&list, "CAT"));
    assert!(!has_tag(&list, "dog"));
    assert_eq!(copy_texts(&list), list);
}

#[test]
fn merging_tags() {
    let base = strings(&["cat", "Dog"]);
    let extra = strings(&["dog", "bird", "CAT", "fish", "Bird"]);
    assert_eq!(merge_tags(&base, &extra), strings(&["cat", "Dog", "bird", "fish"]));
    assert_eq!(merge_tags(&Vec::new(), &strings(&["a", "A", "b"])), strings(&["a", "b"]));
    assert_eq!(merge_tags(&base, &Vec::new()), base);
}

#[test]
fn merge_keeps_all_law() {
    let base = strings(&["x"]);
    let extra = strings(&["y", "X", "z"]);
    let merged = merge_tags(&base, &extra);
    assert_eq!(merged[0], "x");
    for e in &extra {
        assert!(has_tag(&merged, e));
    }
    for m in &merged[1..] {
        assert!(extra.contains(m));
    }
}
