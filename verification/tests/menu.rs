use tuigreet::menu::{pad_right, Menu, MenuItem};
use tuigreet::processing::Rect;

struct Item(&'static str);

impl MenuItem for Item {
    fn format(&self) -> String {
        self.0.to_string()
    }
}

fn menu(selected: usize) -> Menu<Item> {
    Menu { title: "Power".to_string(), options: vec![Item("Shut down"), Item("Reboot")], selected }
}

#[test]
fn selected_option_is_highlighted() {
    let m = menu(1);
    let first = m.get_option("a".to_string(), 0);
    let second = m.get_option("b".to_string(), 1);
    assert!(!first.highlighted);
    assert!(second.highlighted);
    assert_eq!(second.text, "b");
}

#[test]
fn lines_are_padded_to_the_inner_width() {
    let lines = menu(0).lines(14);
    assert_eq!(lines.len(), 2);
    assert_eq!(lines[0].text, "Shut down ");
    assert!(lines[0].highlighted);
    assert_eq!(lines[1].text, "Reboot    ");
    assert!(!lines[1].highlighted);
    // Narrower than the text: nothing is cut.
    let lines = menu(5).lines(3);
    assert_eq!(lines[0].text, "Shut down");
    assert!(!lines[0].highlighted && !lines[1].highlighted);
}

#[test]
fn padding() {
    assert_eq!(pad_right("ab", 4), "ab  ");
    assert_eq!(pad_right("abcdef", 4), "abcdef");
    assert_eq!(pad_right("é", 2), "é ");
}

#[test]
fn option_rows() {
    assert_eq!(Menu::<Item>::option_frame(10, 5, 30, 3), Rect { x: 12, y: 10, width: 26, height: 1 });
    assert_eq!(Menu::<Item>::option_frame(65535, 65534, 3, 0), Rect { x: 65535, y: 65535, width: 0, height: 0 });
    assert_eq!(Menu::<Item>::option_frame(0, 0, 10, 65537), Rect { x: 2, y: 3, width: 6, height: 1 });
}

#[test]
fn cursor_sits_on_the_selected_row() {
    assert_eq!(menu(1).cursor(10, 5), (12, 8));
    assert_eq!(menu(0).cursor(65535, 65534), (65535, 65535));
}
