use inferno::slug::{is_valid_char, ConvertErrorKind, Slug};
use inferno::slug_set::SlugSet;

#[test]
fn test_slugify_1() {
    let input = "Index For Winners";
    let output = Slug::new("Index_For_Winners").unwrap();

    let slug = Slug::slugify(&input);

    assert_eq!(slug, Ok(output));
}

#[test]
fn title_replaces_underscores_in_last_segment() {
    let slug = Slug::new("a/b_c").unwrap();
    assert_eq!(slug.title(), "b c");
    assert_eq!(Slug::new("Index").unwrap().title(), "Index");
    assert_eq!(Slug::new("/a_b/c_d_e/").unwrap().title(), "c d e");
}

#[test]
fn new_rejects_empty_slugs() {
    for text in ["", "/", "//"] {
        let e = Slug::new(text).unwrap_err();
        assert_eq!((e.position(), e.kind()), (0, ConvertErrorKind::Empty));
    }
    assert!(Slug::new("///").is_ok());
}

#[test]
fn new_rejects_underscores_at_the_edges_and_in_a_row() {
    let e = Slug::new("_a").unwrap_err();
    assert_eq!((e.position(), e.kind()), (0, ConvertErrorKind::InvalidChar('_')));
    let e = Slug::new("ab_").unwrap_err();
    assert_eq!((e.position(), e.kind()), (2, ConvertErrorKind::InvalidChar('_')));
    let e = Slug::new("a__b").unwrap_err();
    assert_eq!((e.position(), e.kind()), (2, ConvertErrorKind::InvalidChar('_')));
    let e = Slug::new("_ ").unwrap_err();
    assert_eq!((e.position(), e.kind()), (0, ConvertErrorKind::InvalidChar('_')));
    let e = Slug::new(" a_").unwrap_err();
    assert_eq!((e.position(), e.kind()), (2, ConvertErrorKind::InvalidChar('_')));
}

#[test]
fn new_rejects_whitespace_at_its_byte_offset() {
    let e = Slug::new("a b").unwrap_err();
    assert_eq!((e.position(), e.kind()), (1, ConvertErrorKind::InvalidChar(' ')));
    let e = Slug::new("a\tb c").unwrap_err();
    assert_eq!((e.position(), e.kind()), (1, ConvertErrorKind::InvalidChar('\t')));
    // two characters of two and three bytes stand before the space
    let e = Slug::new("\u{e9}\u{20ac} x").unwrap_err();
    assert_eq!((e.position(), e.kind()), (5, ConvertErrorKind::InvalidChar(' ')));
    let e = Slug::new("a\u{3000}b").unwrap_err();
    assert_eq!((e.position(), e.kind()), (1, ConvertErrorKind::InvalidChar('\u{3000}')));
    let e = Slug::new("\u{1F600}\u{a0}").unwrap_err();
    assert_eq!((e.position(), e.kind()), (4, ConvertErrorKind::InvalidChar('\u{a0}')));
}

#[test]
fn new_keeps_the_string_and_trims_one_slash_at_each_edge() {
    for text in ["Index", "a/b_c", "Special:Sidebar", "\u{e9}t\u{e9}", "a_b_c", "x//y"] {
        let slug = Slug::new(text).unwrap();
        assert_eq!(slug.as_str(), text);
        assert_eq!(slug.as_str_raw(), text);
    }
    let slug = Slug::new("/Index/").unwrap();
    assert_eq!(slug.as_str(), "Index");
    assert_eq!(slug.as_str_raw(), "/Index/");
    let slug = Slug::new("//Index").unwrap();
    assert_eq!(slug.as_str(), "/Index");
    let slug = Slug::new("Index//").unwrap();
    assert_eq!(slug.as_str(), "Index/");
    let slug = Slug::new("/_a").unwrap();
    assert_eq!(slug.as_str(), "_a");
}

#[test]
fn equality_ignores_the_slashes_at_the_edges() {
    assert_eq!(Slug::new("/Index/").unwrap(), Slug::new("Index").unwrap());
    assert_eq!(Slug::new("/Index").unwrap(), Slug::new("Index/").unwrap());
    assert_ne!(Slug::new("a/b").unwrap(), Slug::new("a_b").unwrap());
    assert_ne!(Slug::new("//Index").unwrap(), Slug::new("Index").unwrap());
    assert!(Slug::new("/a/").unwrap().same_path(&Slug::new("a").unwrap()));
    assert!(!Slug::new("a").unwrap().same_path(&Slug::new("b").unwrap()));
    let slug = Slug::new("/a/b/").unwrap();
    assert_eq!(slug.clone().as_str_raw(), "/a/b/");
}

#[test]
fn slugify_joins_the_words_with_single_underscores() {
    assert_eq!(Slug::slugify("  a \t b\n").unwrap().as_str_raw(), "a_b");
    assert_eq!(Slug::slugify("a  b").unwrap().as_str_raw(), "a_b");
    assert_eq!(Slug::slugify("Index").unwrap().as_str_raw(), "Index");
    assert_eq!(Slug::slugify("a\u{2003}b").unwrap().as_str_raw(), "a_b");
}

#[test]
fn slugify_fails_on_nothing_and_on_bad_underscores() {
    assert_eq!(Slug::slugify("").unwrap_err().kind(), ConvertErrorKind::Empty);
    assert_eq!(Slug::slugify(" \t ").unwrap_err().kind(), ConvertErrorKind::Empty);
    assert_eq!(Slug::slugify(" / ").unwrap_err().kind(), ConvertErrorKind::Empty);
    let e = Slug::slugify("a__b").unwrap_err();
    assert_eq!((e.position(), e.kind()), (2, ConvertErrorKind::InvalidChar('_')));
    let e = Slug::slugify(" _a").unwrap_err();
    assert_eq!((e.position(), e.kind()), (0, ConvertErrorKind::InvalidChar('_')));
    let e = Slug::slugify("a _b").unwrap_err();
    assert_eq!((e.position(), e.kind()), (2, ConvertErrorKind::InvalidChar('_')));
}

#[test]
fn join_puts_a_slash_between_the_paths() {
    let a = Slug::new("/a/").unwrap();
    let b = Slug::new("b_c").unwrap();
    let joined = a.join(&b);
    assert_eq!(joined.as_str(), "a/b_c");
    assert_eq!(joined.as_str_raw(), "a/b_c");
    assert_eq!(joined, Slug::new("a/b_c").unwrap());
}

#[test]
fn join_guards_an_edge_that_a_slug_cannot_begin_or_end_with() {
    let a = Slug::new("/_a").unwrap();
    let b = Slug::new("b_/").unwrap();
    let joined = a.join(&b);
    assert_eq!(joined.as_str(), "_a/b_");
    assert_eq!(joined.as_str_raw(), "/_a/b_/");
    let c = Slug::new("//c").unwrap();
    let joined = c.join(&c);
    assert_eq!(joined.as_str(), "/c//c");
    assert_eq!(joined, Slug::new("//c//c").unwrap());
}

#[test]
fn parent_is_what_stands_before_the_last_slash() {
    assert_eq!(Slug::new("a/b/c").unwrap().parent(), Some("a/b"));
    assert_eq!(Slug::new("/a/b/").unwrap().parent(), Some("a"));
    assert_eq!(Slug::new("Index").unwrap().parent(), None);
    assert_eq!(Slug::new("/Index/").unwrap().parent(), None);
    assert_eq!(Slug::new("//x").unwrap().parent(), Some(""));
}

#[test]
fn whitespace_is_no_valid_character() {
    for c in [' ', '\t', '\n', '\u{b}', '\u{c}', '\r', '\u{85}', '\u{a0}', '\u{1680}', '\u{2000}',
        '\u{200a}', '\u{2028}', '\u{2029}', '\u{202f}', '\u{205f}', '\u{3000}']
    {
        assert!(!is_valid_char(c));
        assert!(c.is_whitespace());
    }
    for c in ['a', '_', '/', '#', '\u{200b}', '\u{180e}', '\u{feff}', '\u{8}', '\u{e}', '\u{1f}'] {
        assert!(is_valid_char(c));
        assert!(!c.is_whitespace());
    }
}

#[test]
fn is_valid_char_agrees_with_std_on_every_character() {
    let mut c = 0u32;
    while c <= 0x10ffff {
        if let Some(ch) = char::from_u32(c) {
            assert_eq!(is_valid_char(ch), !ch.is_whitespace());
        }
        c += 1;
    }
}

#[test]
fn a_set_holds_each_path_once() {
    let mut set = SlugSet::new();
    assert!(set.insert(Slug::new("a").unwrap()));
    assert!(!set.insert(Slug::new("/a/").unwrap()));
    assert!(set.insert(Slug::new("b").unwrap()));
    assert_eq!(set.len(), 2);
    assert!(set.contains(&Slug::new("a/").unwrap()));
    assert!(!set.contains(&Slug::new("c").unwrap()));
    assert_eq!(set.get(0).as_str_raw(), "a");
    assert_eq!(set.get(1).as_str_raw(), "b");
}

#[test]
fn the_difference_of_two_sets_keeps_the_order() {
    let texts = |slugs: &Vec<Slug>| slugs.iter().map(|s| s.as_str().to_owned()).collect::<Vec<_>>();
    let old = SlugSet::from_vec(vec![Slug::new("B").unwrap(), Slug::new("C").unwrap()]);
    let new = SlugSet::from_vec(vec![
        Slug::new("A").unwrap(),
        Slug::new("/B/").unwrap(),
        Slug::new("A/").unwrap(),
    ]);
    assert_eq!(new.len(), 2);
    assert_eq!(texts(&new.difference(&old)), vec!["A"]);
    assert_eq!(texts(&old.difference(&new)), vec!["C"]);
    assert!(old.difference(&old).is_empty());
}
