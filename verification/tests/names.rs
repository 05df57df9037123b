//! Lists of optional names.

use wat_ir::names::find_repeated;
use wat_ir::names::has_name;

fn names(list: &[Option<&str>]) -> Vec<Option<String>> {
    list.iter().map(|n| n.map(str::to_string)).collect()
}

#[test]
fn repeated_names() {
    assert_eq!(find_repeated(&names(&[])), None);
    assert_eq!(find_repeated(&names(&[None, None])), None);
    assert_eq!(find_repeated(&names(&[Some("a"), None, Some("b")])), None);
    assert_eq!(find_repeated(&names(&[Some("a"), None, Some("a")])), Some("a".to_string()));
    assert_eq!(
        find_repeated(&names(&[Some("a"), Some("b"), Some("b"), Some("a")])),
        Some("b".to_string())
    );
    assert_eq!(find_repeated(&names(&[Some(""), Some("")])), Some(String::new()));
}

#[test]
fn occurring_names() {
    let list = names(&[Some("a"), None, Some("b")]);
    assert!(has_name(&list, &"a".to_string()));
    assert!(has_name(&list, &"b".to_string()));
    assert!(!has_name(&list, &"c".to_string()));
    assert!(!has_name(&list, &String::new()));
    assert!(!has_name(&names(&[]), &"a".to_string()));
}
