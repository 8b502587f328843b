use vstd::prelude::*;
use crate::begin::div_trunc;
use crate::geom::CoordsRect;
use crate::text::chars_of_str;

verus! {

pub const PUZZLES_BUTTON_WIDTH: i32 = 90;
pub const CIRCUIT_LIST_WIDTH: i32 = 240;
pub const ELEMENT_SPACING: i32 = 18;
pub const PUZZLE_LIST_WIDTH: i32 = 250;
pub const BACK_BUTTON_HEIGHT: i32 = 40;

/// The layout of the tasks section: the list of tasks down the left; to its
/// right, the task description above the circuit list, the score graph
/// (square) at the top right, the circuit preview, and a column of four
/// circuit buttons (edit, rename, copy, delete) at the bottom right.
pub struct PuzzlesLayout {
    pub puzzle_list: CoordsRect,
    pub graph: CoordsRect,
    pub description: CoordsRect,
    pub back_button: CoordsRect,
    pub circuit_list: CoordsRect,
    pub preview: CoordsRect,
    pub edit_button: CoordsRect,
    pub rename_button: CoordsRect,
    pub copy_button: CoordsRect,
    pub delete_button: CoordsRect,
}

/// The height of each half of the section, one above the other.
pub open spec fn semi_height(rect: CoordsRect) -> int {
    div_trunc(rect.height - ELEMENT_SPACING, 2)
}

/// The height of each of the four circuit buttons.
pub open spec fn circuit_button_height(rect: CoordsRect) -> int {
    div_trunc(semi_height(rect) - 3 * ELEMENT_SPACING, 4)
}

pub open spec fn rect_of(x: int, y: int, w: int, h: int) -> CoordsRect {
    CoordsRect { x: x as i32, y: y as i32, width: w as i32, height: h as i32 }
}

pub open spec fn circuit_button_spec(rect: CoordsRect, i: int) -> CoordsRect {
    let semi = semi_height(rect);
    let bh = circuit_button_height(rect);
    rect_of(
        rect.x + rect.width - PUZZLES_BUTTON_WIDTH,
        rect.y + semi + ELEMENT_SPACING + i * (bh + ELEMENT_SPACING),
        PUZZLES_BUTTON_WIDTH as int,
        bh,
    )
}

pub fn puzzles_layout(rect: CoordsRect) -> (l: PuzzlesLayout)
    requires
        -0x100_0000 <= rect.x <= 0x100_0000,
        -0x100_0000 <= rect.y <= 0x100_0000,
        0 <= rect.width <= 0x100_0000,
        0 <= rect.height <= 0x100_0000,
    ensures
        ({
            let semi = semi_height(rect);
            let right = rect.x + rect.width;
            let bottom = rect.y + rect.height;
            let list_right = rect.x + PUZZLE_LIST_WIDTH;
            &&& l.puzzle_list == rect_of(rect.x as int, rect.y as int, PUZZLE_LIST_WIDTH as int, rect.height as int)
            &&& l.graph == rect_of(right - semi, rect.y as int, semi, semi)
            &&& l.description == rect_of(
                list_right + ELEMENT_SPACING,
                rect.y as int,
                (right - semi) - list_right - 2 * ELEMENT_SPACING,
                semi,
            )
            &&& l.back_button == rect_of(
                list_right + ELEMENT_SPACING,
                rect.y + semi - BACK_BUTTON_HEIGHT,
                PUZZLES_BUTTON_WIDTH as int,
                BACK_BUTTON_HEIGHT as int,
            )
            &&& l.circuit_list == rect_of(
                list_right + ELEMENT_SPACING,
                bottom - semi,
                CIRCUIT_LIST_WIDTH as int,
                semi,
            )
            &&& l.preview == rect_of(
                list_right + ELEMENT_SPACING + CIRCUIT_LIST_WIDTH + ELEMENT_SPACING,
                bottom - semi,
                (right - PUZZLES_BUTTON_WIDTH) - (list_right + ELEMENT_SPACING + CIRCUIT_LIST_WIDTH) - 2
                    * ELEMENT_SPACING,
                semi,
            )
            &&& l.edit_button == circuit_button_spec(rect, 0)
            &&& l.rename_button == circuit_button_spec(rect, 1)
            &&& l.copy_button == circuit_button_spec(rect, 2)
            &&& l.delete_button == circuit_button_spec(rect, 3)
        }),
{
    let semi = (rect.height - ELEMENT_SPACING) / 2;
    let button_height = (semi - 3 * ELEMENT_SPACING) / 4;
    let right = rect.x + rect.width;
    let bottom = rect.y + rect.height;
    let buttons_left = right - PUZZLES_BUTTON_WIDTH;
    let buttons_top = rect.y + semi + ELEMENT_SPACING;
    let puzzle_list = CoordsRect::new(rect.x, rect.y, PUZZLE_LIST_WIDTH, rect.height);
    let list_right = rect.x + PUZZLE_LIST_WIDTH;
    let graph = CoordsRect::new(right - semi, rect.y, semi, semi);
    let description = CoordsRect::new(
        list_right + ELEMENT_SPACING,
        rect.y,
        graph.x - list_right - 2 * ELEMENT_SPACING,
        semi,
    );
    let back_button = CoordsRect::new(
        description.x,
        description.y + description.height - BACK_BUTTON_HEIGHT,
        PUZZLES_BUTTON_WIDTH,
        BACK_BUTTON_HEIGHT,
    );
    let circuit_list = CoordsRect::new(
        rect.x + PUZZLE_LIST_WIDTH + ELEMENT_SPACING,
        bottom - semi,
        CIRCUIT_LIST_WIDTH,
        semi,
    );
    let circuit_list_right = circuit_list.x + CIRCUIT_LIST_WIDTH;
    let preview = CoordsRect::new(
        circuit_list_right + ELEMENT_SPACING,
        circuit_list.y,
        buttons_left - circuit_list_right - 2 * ELEMENT_SPACING,
        semi,
    );
    let stride = button_height + ELEMENT_SPACING;
    let edit_button = CoordsRect::new(buttons_left, buttons_top, PUZZLES_BUTTON_WIDTH, button_height);
    let rename_button = CoordsRect::new(buttons_left, buttons_top + stride, PUZZLES_BUTTON_WIDTH, button_height);
    let copy_button = CoordsRect::new(
        buttons_left,
        buttons_top + 2 * stride,
        PUZZLES_BUTTON_WIDTH,
        button_height,
    );
    let delete_button = CoordsRect::new(
        buttons_left,
        buttons_top + 3 * stride,
        PUZZLES_BUTTON_WIDTH,
        button_height,
    );
    PuzzlesLayout {
        puzzle_list,
        graph,
        description,
        back_button,
        circuit_list,
        preview,
        edit_button,
        rename_button,
        copy_button,
        delete_button,
    }
}

/// Copying and deleting need a saved circuit to act on: they are offered
/// only when a circuit (not "new circuit") is selected.
pub fn copy_and_delete_enabled(circuit_name: &str) -> (b: bool)
    ensures
        b == (circuit_name@.len() > 0),
{
    let chars = chars_of_str(circuit_name);
    chars.len() > 0
}

} // verus!
