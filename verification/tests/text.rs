use avm2_core::text::Avm1String;
use gc_arena::rootless_arena;

#[test]
fn owned_text_holds_the_given_characters() {
    rootless_arena(|mc| {
        let text = Avm1String::new(mc, String::from("hello"));
        assert_eq!(text.as_str(), "hello");
    });
}

#[test]
fn owned_text_is_a_copy_of_its_source() {
    rootless_arena(|mc| {
        let mut source = String::from("abc");
        let text = Avm1String::new(mc, source.clone());
        source.push('d');
        assert_eq!(text.as_str(), "abc");
        assert_eq!(source, "abcd");
    });
}

#[test]
fn static_text_holds_the_literal() {
    let text: Avm1String<'static> = Avm1String::from("constant");
    assert_eq!(text.as_str(), "constant");
}

#[test]
fn static_and_owned_text_with_the_same_characters_are_equal() {
    rootless_arena(|mc| {
        let owned = Avm1String::new(mc, String::from("same"));
        let fixed = Avm1String::from("same");
        assert!(fixed == owned);
        assert!(owned == fixed);
    });
}

#[test]
fn text_with_different_characters_is_not_equal() {
    rootless_arena(|mc| {
        let owned = Avm1String::new(mc, String::from("same"));
        let fixed = Avm1String::from("other");
        assert!(!(fixed == owned));
        assert!(!(owned == fixed));
        assert!(!(Avm1String::from("same") == Avm1String::from("sam")));
    });
}

#[test]
fn empty_text_is_equal_in_both_forms() {
    rootless_arena(|mc| {
        let owned = Avm1String::new(mc, String::new());
        let fixed = Avm1String::from("");
        assert!(owned == fixed);
        assert_eq!(owned.as_str(), "");
    });
}

#[test]
fn text_compares_with_str_and_string() {
    rootless_arena(|mc| {
        let owned = Avm1String::new(mc, String::from("name"));
        let fixed = Avm1String::from("name");
        assert!(owned == *"name");
        assert!(fixed == *"name");
        assert!(owned == String::from("name"));
        assert!(fixed == String::from("name"));
        assert!(!(owned == *"nam"));
        assert!(!(fixed == String::from("names")));
    });
}

#[test]
fn str_and_string_compare_with_text() {
    rootless_arena(|mc| {
        let owned = Avm1String::new(mc, String::from("name"));
        let fixed = Avm1String::from("name");
        assert!(*"name" == owned);
        assert!(*"name" == fixed);
        assert!(String::from("name") == owned);
        assert!(String::from("name") == fixed);
        assert!(!(*"other" == owned));
        assert!(!(String::from("other") == fixed));
    });
}

#[test]
fn text_dereferences_to_its_characters() {
    rootless_arena(|mc| {
        let owned = Avm1String::new(mc, String::from("héllo"));
        let fixed = Avm1String::from("héllo");
        assert_eq!(owned.len(), 6);
        assert_eq!(fixed.len(), 6);
        assert_eq!(&*owned, "héllo");
        assert_eq!(&*fixed, "héllo");
        let borrowed: &str = owned.as_ref();
        assert_eq!(borrowed, "héllo");
        let borrowed: &str = fixed.as_ref();
        assert_eq!(borrowed, "héllo");
    });
}

#[test]
fn a_copy_of_text_has_the_same_characters() {
    rootless_arena(|mc| {
        let owned = Avm1String::new(mc, String::from("copy me"));
        let copy = owned;
        let clone = owned.clone();
        assert_eq!(copy.as_str(), "copy me");
        assert_eq!(clone.as_str(), "copy me");
        assert!(copy == owned);
    });
}
