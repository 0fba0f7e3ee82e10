use tuigreet::processing::{inset, Rect};

#[test]
fn inset_leaves_padding_on_every_side() {
    let container = Rect::new(10, 4, 40, 10);
    assert_eq!(inset(container, 2), Rect { x: 12, y: 6, width: 36, height: 6 });
    assert_eq!(inset(container, 0), container);
}

#[test]
fn inset_saturates() {
    let container = Rect::new(10, 4, 6, 3);
    assert_eq!(inset(container, 5), Rect { x: 15, y: 9, width: 0, height: 0 });
    let far = Rect::new(65530, 65530, 5, 5);
    assert_eq!(inset(far, 40000), Rect { x: 65535, y: 65535, width: 0, height: 0 });
}

#[test]
fn new_rect_keeps_its_edges_within_bounds() {
    assert_eq!(Rect::new(65530, 10, 100, 20), Rect { x: 65530, y: 10, width: 5, height: 20 });
    assert_eq!(Rect::new(1, 2, 3, 4), Rect { x: 1, y: 2, width: 3, height: 4 });
}
