use snake_game::display::border_bounds;
use snake_game::display::logo_origin;
use snake_game::display::score_line_origin;
use snake_game::display::to_display;
use snake_game::display::TerminalSpace;
use snake_game::game::CanvasSpace;

fn cell(x: u32, y: u32) -> CanvasSpace {
    CanvasSpace { x, y }
}

#[test]
fn origin_cell_on_80_by_24_terminal() {
    // x = 80/2 - 46/2 + 0*2 + 1 = 18, y = 24/2 - 46/4 + 0 + 1 = 2.
    let d = to_display(cell(0, 0), 80, 24);
    assert_eq!(d, TerminalSpace { x: 18, y: 2 });
}

#[test]
fn interior_cell_on_80_by_24_terminal() {
    // x = 17 + 1*2 + 1 = 20, y = 1 + 2 + 1 = 4.
    let d = to_display(cell(1, 2), 80, 24);
    assert_eq!(d, TerminalSpace { x: 20, y: 4 });
}

#[test]
fn mapping_is_deterministic() {
    let a = to_display(cell(11, 10), 80, 24);
    let b = to_display(cell(11, 10), 80, 24);
    assert_eq!(a, b);
    assert_eq!(a, TerminalSpace { x: 40, y: 12 });
}

#[test]
fn undersized_terminal_floors_at_zero() {
    // 10/2 = 5 is smaller than both canvas offsets, so the saturating
    // subtractions floor at zero and the cell stays visible.
    let d = to_display(cell(0, 0), 10, 10);
    assert_eq!(d, TerminalSpace { x: 1, y: 1 });
}

#[test]
fn borders_on_80_by_24_terminal() {
    let (left, right, upper, lower) = border_bounds(80, 24);
    assert_eq!(left, 17);
    assert_eq!(right, 63);
    assert_eq!(upper, 1);
    assert_eq!(lower, 23);
}

#[test]
fn borders_floor_at_zero_on_tiny_terminal() {
    let (left, right, upper, lower) = border_bounds(10, 10);
    assert_eq!(left, 0);
    assert_eq!(right, 28);
    assert_eq!(upper, 0);
    assert_eq!(lower, 16);
}

#[test]
fn logo_origin_on_80_by_24_terminal() {
    let (x, y) = logo_origin(80, 24, 36);
    assert_eq!(x, 34);
    assert_eq!(y, 10);
}

#[test]
fn score_line_is_centred_five_rows_below_middle() {
    // "Your Score: 0" is 13 characters wide.
    let (x, y) = score_line_origin(80, 24, 13);
    assert_eq!(x, 34);
    assert_eq!(y, 17);
}
