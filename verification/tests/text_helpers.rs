use distant_search::text::{chars_of, owned, owned_all, same_text};

#[test]
fn characters_come_in_order() {
    assert_eq!(chars_of(""), Vec::<char>::new());
    assert_eq!(chars_of("<em>"), vec!['<', 'e', 'm', '>']);
    assert_eq!(chars_of("né\n日"), vec!['n', 'é', '\n', '日']);
}

#[test]
fn copies_hold_the_same_text() {
    assert_eq!(owned("5m"), "5m".to_string());
    assert_eq!(owned(""), String::new());
    assert_eq!(owned_all(&vec!["a", "", "日本"]), vec!["a".to_string(), String::new(), "日本".to_string()]);
    assert_eq!(owned_all(&vec![]), Vec::<String>::new());
}

#[test]
fn texts_are_the_same_where_their_characters_are() {
    assert!(same_text(&"eq".to_string(), "eq"));
    assert!(!same_text(&"eq".to_string(), "gte"));
    assert!(!same_text(&"eq".to_string(), "EQ"));
    assert!(!same_text(&"eq".to_string(), "eq "));
    assert!(same_text(&String::new(), ""));
}
