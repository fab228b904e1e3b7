use web_starter::code::{format_unique_code, insert_dashes, MAX_CODE_CHARACTERS};
use web_starter::generate_unique_code;
use web_starter::text::{delete_confirmed, slugify, str_eq, trim, validate_lang};

#[test]
fn str_eq_compares_characters() {
    assert!(str_eq("Ghoul", "Ghoul"));
    assert!(!str_eq("Ghoul", "ghoul"));
    assert!(!str_eq("Ghoul", "Ghouls"));
    assert!(str_eq("", ""));
}

#[test]
fn trim_removes_surrounding_white_space() {
    assert_eq!(trim("  Ghoul  "), "Ghoul");
    assert_eq!(trim("\t\nGhoul King\r\n"), "Ghoul King");
    assert_eq!(trim("\u{3000}Esparaga\u{a0}"), "Esparaga");
    assert_eq!(trim("   "), "");
    assert_eq!(trim(""), "");
    assert_eq!(trim("a b"), "a b");
}

#[test]
fn trim_twice_is_trim_once() {
    for s in ["  x ", "\u{2003}y z\u{2028}", "", " \t "] {
        assert_eq!(trim(trim(s)), trim(s));
    }
}

#[test]
fn lang_is_french_or_english() {
    assert_eq!(validate_lang("fr"), "fr");
    assert_eq!(validate_lang("en"), "en");
    assert_eq!(validate_lang("de"), "en");
    assert_eq!(validate_lang(""), "en");
    assert_eq!(validate_lang("FR"), "en");
}

#[test]
fn slug_is_snake_case_of_trimmed_name() {
    assert_eq!(slugify("  Ghoul King "), "ghoul_king");
    assert_eq!(slugify("FooBar"), "foo_bar");
    assert_eq!(slugify("Copy of Ghoul-abc12"), "copy_of_ghoul_abc_12");
    assert_eq!(slugify("Esparaga"), "esparaga");
}

#[test]
fn slug_ignores_surrounding_space() {
    assert_eq!(slugify("  Cadaverman\t"), slugify("Cadaverman"));
}

#[test]
fn delete_needs_the_exact_name() {
    assert!(delete_confirmed("  Ghoul ", "Ghoul"));
    assert!(delete_confirmed("Ghoul", "Ghoul"));
    assert!(!delete_confirmed("ghoul", "Ghoul"));
    assert!(!delete_confirmed("Gh oul", "Ghoul"));
}

#[test]
fn dashes_go_before_every_fourth_position() {
    assert_eq!(insert_dashes("abcdefgh"), "abcd-efg-h");
    assert_eq!(insert_dashes("abcd"), "abcd-");
    assert_eq!(insert_dashes("abcde"), "abcd-e");
    assert_eq!(insert_dashes("abc"), "abc");
    assert_eq!(insert_dashes(""), "");
    assert_eq!(insert_dashes("ABCDEFGHIJKL"), "ABCD-EFG-HIJ-KL");
}

#[test]
fn dashed_code_of_64_characters() {
    let raw: String = std::iter::repeat('x').take(64).collect();
    let dashed = insert_dashes(&raw);
    assert_eq!(dashed.len(), 64 + 19);
    for (i, c) in dashed.chars().enumerate() {
        if i >= 4 && i % 4 == 0 && i / 4 <= 19 {
            assert_eq!(c, '-');
        } else {
            assert_eq!(c, 'x');
        }
    }
}

#[test]
fn dashes_come_out_again() {
    let raw = "q1W2e3R4t5Y6u7I8o9P0";
    let dashed = insert_dashes(raw);
    let back: String = dashed.chars().filter(|c| *c != '-').collect();
    assert_eq!(back, raw);
}

#[test]
fn format_keeps_raw_without_dashes() {
    assert_eq!(format_unique_code("abcdefgh".to_string(), false), "abcdefgh");
    assert_eq!(format_unique_code("abcdefgh".to_string(), true), "abcd-efg-h");
}

#[test]
fn unique_code_has_asked_length_and_alphabet() {
    let c = generate_unique_code(8, false);
    assert_eq!(c.chars().count(), 8);
    assert!(c.chars().all(|ch| ch.is_ascii_alphanumeric()));
    let d = generate_unique_code(0, false);
    assert_eq!(d, "");
}

#[test]
fn unique_code_is_capped_at_64() {
    assert_eq!(MAX_CODE_CHARACTERS, 64);
    let c = generate_unique_code(100, false);
    assert_eq!(c.chars().count(), 64);
    assert!(c.chars().all(|ch| ch.is_ascii_alphanumeric()));
}

#[test]
fn unique_code_with_dashes() {
    let c = generate_unique_code(12, true);
    assert_eq!(c.chars().count(), 15);
    let chars: Vec<char> = c.chars().collect();
    assert_eq!(chars[4], '-');
    assert_eq!(chars[8], '-');
    assert_eq!(chars[12], '-');
    let letters: Vec<char> = chars.iter().copied().filter(|ch| *ch != '-').collect();
    assert_eq!(letters.len(), 12);
    assert!(letters.iter().all(|ch| ch.is_ascii_alphanumeric()));
}

#[test]
fn unique_codes_differ() {
    let a = generate_unique_code(32, false);
    let b = generate_unique_code(32, false);
    assert_ne!(a, b);
}
