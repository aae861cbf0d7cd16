use mintodo::cursor::Cursor;
use mintodo::min_todo::InputMode;

#[test]
fn default_cursor_is_at_the_origin() {
    let c = Cursor::default();
    assert_eq!(c.x, 0);
    assert_eq!(c.y, 0);
}

#[test]
fn move_x_adds() {
    let mut c = Cursor { x: 3, y: 7 };
    c.move_x(4);
    assert_eq!(c, Cursor { x: 7, y: 7 });
    c.move_x(-2);
    assert_eq!(c, Cursor { x: 5, y: 7 });
    c.move_x(0);
    assert_eq!(c, Cursor { x: 5, y: 7 });
}

#[test]
fn move_y_adds() {
    let mut c = Cursor { x: 3, y: 7 };
    c.move_y(4);
    assert_eq!(c, Cursor { x: 3, y: 11 });
    c.move_y(-11);
    assert_eq!(c, Cursor { x: 3, y: 0 });
}

#[test]
fn moves_stop_at_zero() {
    let mut c = Cursor { x: 0, y: 0 };
    c.move_x(-1);
    c.move_y(-1);
    assert_eq!(c, Cursor { x: 0, y: 0 });
    let mut c = Cursor { x: 2, y: 3 };
    c.move_x(-5);
    c.move_y(i32::MIN);
    assert_eq!(c, Cursor { x: 0, y: 0 });
}

#[test]
fn moves_stop_at_the_largest_coordinate() {
    let mut c = Cursor { x: usize::MAX - 1, y: usize::MAX };
    c.move_x(5);
    c.move_y(1);
    assert_eq!(c, Cursor { x: usize::MAX, y: usize::MAX });
    c.move_x(i32::MIN);
    assert_eq!(c.x, usize::MAX - (1usize << 31));
}

#[test]
fn render_in_normal_mode() {
    let c = Cursor { x: 0, y: 0 };
    assert_eq!(c.render(&InputMode::Normal), "\u{1b}[?25h\u{1b}[1;1H\u{1b}[2 q");
}

#[test]
fn render_in_insert_mode() {
    let c = Cursor { x: 11, y: 2 };
    assert_eq!(c.render(&InputMode::Insert), "\u{1b}[?25h\u{1b}[3;12H\u{1b}[6 q");
}

#[test]
fn render_counts_from_one_in_decimal() {
    let c = Cursor { x: 99, y: 1008 };
    assert_eq!(c.render(&InputMode::Normal), "\u{1b}[?25h\u{1b}[1009;100H\u{1b}[2 q");
}

#[test]
fn render_stops_at_the_largest_wire_coordinate() {
    let c = Cursor { x: 65534, y: 65535 };
    assert_eq!(c.render(&InputMode::Normal), "\u{1b}[?25h\u{1b}[65535;65535H\u{1b}[2 q");
    let c = Cursor { x: 65533, y: 70000 };
    assert_eq!(c.render(&InputMode::Normal), "\u{1b}[?25h\u{1b}[65535;65534H\u{1b}[2 q");
}
