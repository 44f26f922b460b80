use autoclicker::text::{contains_seq, lower_ascii_char, lowered, same_text};

#[test]
fn lowering_folds_ascii_only() {
    assert_eq!(lower_ascii_char('A'), 'a');
    assert_eq!(lower_ascii_char('Z'), 'z');
    assert_eq!(lower_ascii_char('['), '[');
    assert_eq!(lower_ascii_char('É'), 'É');
    assert_eq!(lowered("USB Kbd-2"), "usb kbd-2".chars().collect::<Vec<char>>());
    assert_eq!(lowered(""), Vec::<char>::new());
}

#[test]
fn text_equality() {
    assert!(same_text("keyboard", "keyboard"));
    assert!(!same_text("keyboard", "Keyboard"));
    assert!(!same_text("kbd", "kbd2"));
    assert!(same_text("", ""));
}

#[test]
fn substring_search() {
    let hay: Vec<char> = "at translated keyboard".chars().collect();
    assert!(contains_seq(&hay, &"keyboard".chars().collect()));
    assert!(contains_seq(&hay, &"at".chars().collect()));
    assert!(!contains_seq(&hay, &"kbd".chars().collect()));
    assert!(contains_seq(&hay, &Vec::new()));
    assert!(!contains_seq(&"kb".chars().collect(), &"kbd".chars().collect()));
}
