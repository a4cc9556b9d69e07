use scrim::lookup::{Lookup, LookupEntry};
use scrim::textbuf::{
    char_len, chars_vec, fold_string, insert_char, remove_char, split_chars, starts_with_chars,
    string_from_chars, suffix_from, trim_string,
};

fn entry(name: &str) -> LookupEntry {
    let mut e = LookupEntry::default();
    e.name = name.to_string();
    e.description_short = format!("{} (short)", name);
    e.description = format!("{} (long)", name);
    e
}

fn sample_table() -> Lookup {
    let mut l = Lookup::new();
    l.insert_entry("fireball".to_string(), entry("Fireball"));
    l.insert_entry("firebolt".to_string(), entry("Firebolt"));
    l.insert_entry("ice knife".to_string(), entry("Ice Knife"));
    l.set_loaded();
    l
}

#[test]
fn chars_round_trip() {
    let v = chars_vec("hello");
    assert_eq!(v, vec!['h', 'e', 'l', 'l', 'o']);
    let s = string_from_chars(&v);
    assert_eq!(s, "hello");
    assert_eq!(char_len("hello"), 5);
    assert_eq!(char_len(""), 0);
}

#[test]
fn in_line_editing() {
    let s = "abc".to_string();
    let s = insert_char(&s, 1, 'x');
    assert_eq!(s, "axbc");
    let s = remove_char(&s, 0);
    assert_eq!(s, "xbc");
    let (a, b) = split_chars(&"hello world".to_string(), 5);
    assert_eq!(a, "hello");
    assert_eq!(b, " world");
    assert_eq!(suffix_from(&"fireball".to_string(), 4), "ball");
}

#[test]
fn trimming_and_folding() {
    assert_eq!(trim_string(&"  Fire Ball \t".to_string()), "Fire Ball");
    assert_eq!(trim_string(&"   ".to_string()), "");
    assert_eq!(trim_string(&"x".to_string()), "x");
    assert_eq!(fold_string(&"FiRe!".to_string()), "fire!");
    assert_eq!(fold_string(&"abc".to_string()), "abc");
}

#[test]
fn prefix_test() {
    assert!(starts_with_chars(&"fireball".to_string(), &"fire".to_string()));
    assert!(starts_with_chars(&"fire".to_string(), &"".to_string()));
    assert!(!starts_with_chars(&"fire".to_string(), &"fireball".to_string()));
    assert!(!starts_with_chars(&"firfball".to_string(), &"fire".to_string()));
}

#[test]
fn get_entry_folds_the_query() {
    let l = sample_table();
    let e = l.get_entry(&"FireBall".to_string()).expect("entry");
    assert_eq!(e.name, "Fireball");
    let e = l.get_entry(&"ice knife".to_string()).expect("entry");
    assert_eq!(e.name, "Ice Knife");
    assert!(l.get_entry(&"meteor".to_string()).is_none());
    // the stored key is not folded: only the query is
    assert!(l.get_entry(&"fireball".to_string()).is_some());
}

#[test]
fn completions_match_trimmed_folded_prefixes() {
    let l = sample_table();
    let c = l.get_completions(&"  FIRE".to_string());
    assert_eq!(c.len(), 2);
    assert_eq!(c[0].name, "Fireball");
    assert_eq!(c[1].name, "Firebolt");

    let all = l.get_completions(&"".to_string());
    assert_eq!(all.len(), 3);

    let none = l.get_completions(&"zzz".to_string());
    assert_eq!(none.len(), 0);
}

#[test]
fn insert_entry_replaces_an_existing_key() {
    let mut l = Lookup::new();
    l.insert_entry("apple".to_string(), entry("Apple"));
    l.insert_entry("apple".to_string(), entry("Green Apple"));
    assert_eq!(l.len(), 1);
    let e = l.get_entry(&"apple".to_string()).expect("entry");
    assert_eq!(e.name, "Green Apple");
}
