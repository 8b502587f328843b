use vstd::prelude::*;
use crate::begin::div_trunc;
use crate::chipedit::is_valid_const;
use crate::text::parse_unsigned_spec;
use crate::geom::CoordsRect;
use crate::text::{digits_of, push_digits, push_str, string_from_chars};

verus! {

pub const DIALOG_BUTTON_HEIGHT: i32 = 40;
pub const DIALOG_BUTTON_INNER_MARGIN: i32 = 10;
pub const DIALOG_BUTTON_MIN_WIDTH: i32 = 80;
pub const DIALOG_BUTTON_SPACING: i32 = 14;
pub const DIALOG_BUTTON_TOP_MARGIN: i32 = 16;
pub const RADIO_CHECKBOX_TOP_MARGIN: i32 = 16;
pub const RADIO_CHECKBOX_SPACING_HORZ: i32 = 16;
pub const RADIO_CHECKBOX_SPACING_VERT: i32 = 6;
pub const RADIO_CHECKBOX_WIDTH: i32 = 96;
pub const SCORE_GRAPH_SIZE: i32 = 250;
pub const HOTKEY_BOX_TOP_MARGIN: i32 = 16;
pub const DIALOG_MARGIN: i32 = 24;
pub const TEXTBOX_HEIGHT: i32 = 32;
pub const TEXTBOX_TOP_MARGIN: i32 = 16;

/// Sizes are kept within this bound, so that sums of them fit in `i32`.
pub const MAX_DIALOG_EXTENT: i32 = 0x10_0000;

/// How a dialog box was closed.
pub enum DialogAction<T> {
    Cancel,
    Value(T),
}

/// The result of an event on a dialog box with an OK and a Cancel button:
/// the value when OK fired, else a cancellation when Cancel fired.
pub fn dialog_choice<T>(ok_fired: bool, cancel_fired: bool, value: T) -> (r: Option<DialogAction<T>>)
    ensures
        ok_fired ==> (r matches Some(DialogAction::Value(v)) && v == value),
        !ok_fired && cancel_fired ==> (r matches Some(DialogAction::Cancel)),
        !ok_fired && !cancel_fired ==> r is None,
{
    if ok_fired {
        Some(DialogAction::Value(value))
    } else if cancel_fired {
        Some(DialogAction::Cancel)
    } else {
        None
    }
}

/// The result of an event on a text dialog whose text box now holds
/// `text`, with `valid` the dialog's verdict on that text: the OK button
/// (`ok_pressed`: clicked, or its key pressed) gives the text only while it
/// is valid, else the Cancel button (or its key) cancels.
pub fn text_dialog_choice(text: String, valid: bool, ok_pressed: bool, cancel_pressed: bool) -> (r:
    Option<DialogAction<String>>)
    ensures
        valid && ok_pressed ==> (r matches Some(DialogAction::Value(v)) && v@ == text@),
        !(valid && ok_pressed) && cancel_pressed ==> (r matches Some(DialogAction::Cancel)),
        !(valid && ok_pressed) && !cancel_pressed ==> r is None,
{
    dialog_choice(valid && ok_pressed, cancel_pressed, text)
}

/// The result of an event on the dialog that edits a constant chip: its
/// text is valid when it is a number from 0 to 255.
pub fn const_dialog_choice(text: String, ok_pressed: bool, cancel_pressed: bool) -> (r: Option<
    DialogAction<String>>)
    ensures
        (parse_unsigned_spec(text@, 255) is Some && ok_pressed) ==> (r matches Some(
            DialogAction::Value(v),
        ) && v@ == text@),
        !(parse_unsigned_spec(text@, 255) is Some && ok_pressed) && cancel_pressed ==> (r matches Some(
            DialogAction::Cancel,
        )),
        !(parse_unsigned_spec(text@, 255) is Some && ok_pressed) && !cancel_pressed ==> r is None,
{
    let valid = is_valid_const(text.as_str());
    text_dialog_choice(text, valid, ok_pressed, cancel_pressed)
}

pub open spec fn max_int(a: int, b: int) -> int {
    if a >= b {
        a
    } else {
        b
    }
}

/// The width of a button whose label is `label_width` pixels wide.
pub open spec fn button_width_spec(label_width: int) -> int {
    max_int(DIALOG_BUTTON_MIN_WIDTH as int, label_width + 2 * DIALOG_BUTTON_INNER_MARGIN)
}

/// The width of the first `n` buttons of a row, with the spacing between
/// them.
pub open spec fn row_width(label_widths: Seq<i32>, n: int) -> int
    decreases n,
{
    if n <= 0 {
        0
    } else {
        row_width(label_widths, n - 1) + (if n > 1 {
            DIALOG_BUTTON_SPACING as int
        } else {
            0
        }) + button_width_spec(label_widths[n - 1] as int)
    }
}

/// A dialog box of the given size, centered in the window.
pub open spec fn centered_spec(window_width: int, window_height: int, width: int, height: int) -> CoordsRect {
    CoordsRect {
        x: div_trunc(window_width - width, 2) as i32,
        y: div_trunc(window_height - height, 2) as i32,
        width: width as i32,
        height: height as i32,
    }
}

pub open spec fn extent_ok(v: int) -> bool {
    0 <= v <= MAX_DIALOG_EXTENT
}

pub open spec fn labels_ok(label_widths: Seq<i32>) -> bool {
    &&& label_widths.len() <= 64
    &&& forall|i: int| 0 <= i < label_widths.len() ==> extent_ok(#[trigger] label_widths[i] as int)
}

proof fn lemma_row_width_bounds(label_widths: Seq<i32>, n: int)
    requires
        labels_ok(label_widths),
        0 <= n <= label_widths.len(),
    ensures
        0 <= row_width(label_widths, n) <= n * (MAX_DIALOG_EXTENT + 34),
        row_width(label_widths, n) <= 64 * (MAX_DIALOG_EXTENT + 34),
    decreases n,
{
    if n > 0 {
        lemma_row_width_bounds(label_widths, n - 1);
        assert(extent_ok(label_widths[n - 1] as int));
    }
    assert(n * (MAX_DIALOG_EXTENT + 34) <= 64 * (MAX_DIALOG_EXTENT + 34)) by (nonlinear_arith)
        requires
            0 <= n <= 64,
    ;
}

proof fn lemma_row_width_monotone(label_widths: Seq<i32>, i: int, j: int)
    requires
        labels_ok(label_widths),
        0 <= i <= j <= label_widths.len(),
    ensures
        row_width(label_widths, i) <= row_width(label_widths, j),
    decreases j - i,
{
    if i < j {
        lemma_row_width_monotone(label_widths, i, j - 1);
        assert(extent_ok(label_widths[j - 1] as int));
    }
}

/// The row of buttons of a dialog, laid out right to left from its right
/// margin: for each button, its distance from that margin to its left edge
/// and its width.
pub fn button_row(label_widths: &Vec<i32>) -> (r: Vec<(i32, i32)>)
    requires
        labels_ok(label_widths@),
    ensures
        r@.len() == label_widths@.len(),
        forall|i: int|
            0 <= i < r@.len() ==> #[trigger] r@[i] == (
                row_width(label_widths@, i + 1) as i32,
                button_width_spec(label_widths@[i] as int) as i32,
            ),
{
    let mut out: Vec<(i32, i32)> = Vec::new();
    let mut width: i32 = 0;
    let n = label_widths.len();
    let mut i: usize = 0;
    while i < n
        invariant
            n == label_widths@.len(),
            i <= n,
            labels_ok(label_widths@),
            width == row_width(label_widths@, i as int),
            out@.len() == i,
            forall|k: int|
                0 <= k < i ==> #[trigger] out@[k] == (
                    row_width(label_widths@, k + 1) as i32,
                    button_width_spec(label_widths@[k] as int) as i32,
                ),
        decreases n - i,
    {
        proof {
            lemma_row_width_bounds(label_widths@, (i + 1) as int);
            assert(extent_ok(label_widths@[i as int] as int));
        }
        let lw = label_widths[i];
        let wide = lw + 2 * DIALOG_BUTTON_INNER_MARGIN;
        let button_width = if DIALOG_BUTTON_MIN_WIDTH >= wide {
            DIALOG_BUTTON_MIN_WIDTH
        } else {
            wide
        };
        if width > 0 {
            width = width + DIALOG_BUTTON_SPACING;
        }
        proof {
            assert(row_width(label_widths@, 0) == 0);
            if i > 0 {
                lemma_row_width_monotone(label_widths@, 1, i as int);
                assert(row_width(label_widths@, 1) >= DIALOG_BUTTON_MIN_WIDTH);
            }
        }
        width = width + button_width;
        out.push((width, button_width));
        i = i + 1;
    }
    out
}

/// The layout of a dialog box with a paragraph `paragraph_width` by
/// `paragraph_height` pixels (rounded up) above a row of buttons whose
/// labels are `label_widths` pixels wide, in a window of the given size:
/// the box, centered, and the buttons, right-aligned below the paragraph.
pub open spec fn button_dialog_width(paragraph_width: int, label_widths: Seq<i32>) -> int {
    max_int(row_width(label_widths, label_widths.len() as int), paragraph_width) + 2 * DIALOG_MARGIN
}

pub open spec fn button_dialog_top(paragraph_height: int) -> int {
    DIALOG_MARGIN + paragraph_height + DIALOG_BUTTON_TOP_MARGIN
}

/// The rectangles of a row of buttons `button_top` pixels below the top of
/// the dialog box `rect`, which is `width` pixels wide.
pub open spec fn placed_button(
    rect: CoordsRect,
    width: int,
    button_top: int,
    label_widths: Seq<i32>,
    i: int,
) -> CoordsRect {
    CoordsRect {
        x: (rect.x + width - DIALOG_MARGIN - row_width(label_widths, i + 1)) as i32,
        y: (rect.y + button_top) as i32,
        width: button_width_spec(label_widths[i] as int) as i32,
        height: DIALOG_BUTTON_HEIGHT,
    }
}

fn place_buttons(rect: CoordsRect, width: i32, button_top: i32, label_widths: &Vec<i32>) -> (r: Vec<
    CoordsRect,
>)
    requires
        labels_ok(label_widths@),
        -0x400_0000 <= rect.x <= 0x400_0000,
        -0x400_0000 <= rect.y <= 0x400_0000,
        0 <= width <= 0x800_0000,
        0 <= button_top <= 0x400_0000,
    ensures
        r@.len() == label_widths@.len(),
        forall|i: int|
            0 <= i < r@.len() ==> #[trigger] r@[i] == placed_button(
                rect,
                width as int,
                button_top as int,
                label_widths@,
                i,
            ),
{
    let row = button_row(label_widths);
    let n = label_widths.len();
    let mut buttons: Vec<CoordsRect> = Vec::new();
    let mut i: usize = 0;
    while i < n
        invariant
            n == label_widths@.len(),
            i <= n,
            labels_ok(label_widths@),
            row@.len() == n,
            forall|k: int|
                0 <= k < n ==> #[trigger] row@[k] == (
                    row_width(label_widths@, k + 1) as i32,
                    button_width_spec(label_widths@[k] as int) as i32,
                ),
            -0x400_0000 <= rect.x <= 0x400_0000,
            -0x400_0000 <= rect.y <= 0x400_0000,
            0 <= width <= 0x800_0000,
            0 <= button_top <= 0x400_0000,
            buttons@.len() == i,
            forall|k: int|
                0 <= k < i ==> #[trigger] buttons@[k] == placed_button(
                    rect,
                    width as int,
                    button_top as int,
                    label_widths@,
                    k,
                ),
        decreases n - i,
    {
        let (offset, button_width) = row[i];
        proof {
            lemma_row_width_bounds(label_widths@, (i + 1) as int);
        }
        buttons.push(
            CoordsRect::new(
                rect.x + width - DIALOG_MARGIN - offset,
                rect.y + button_top,
                button_width,
                DIALOG_BUTTON_HEIGHT,
            ),
        );
        i = i + 1;
    }
    buttons
}

/// The total width of a row of buttons.
fn row_total(label_widths: &Vec<i32>) -> (w: i32)
    requires
        labels_ok(label_widths@),
    ensures
        w == row_width(label_widths@, label_widths@.len() as int),
        0 <= w <= 64 * (MAX_DIALOG_EXTENT + 34),
{
    let row = button_row(label_widths);
    let n = label_widths.len();
    proof {
        lemma_row_width_bounds(label_widths@, n as int);
    }
    if n == 0 {
        0
    } else {
        row[n - 1].0
    }
}

pub fn button_dialog_layout(
    window_width: i32,
    window_height: i32,
    paragraph_width: i32,
    paragraph_height: i32,
    label_widths: &Vec<i32>,
) -> (r: (CoordsRect, Vec<CoordsRect>))
    requires
        extent_ok(window_width as int),
        extent_ok(window_height as int),
        extent_ok(paragraph_width as int),
        extent_ok(paragraph_height as int),
        labels_ok(label_widths@),
    ensures
        ({
            let width = button_dialog_width(paragraph_width as int, label_widths@);
            let top = button_dialog_top(paragraph_height as int);
            let rect = centered_spec(
                window_width as int,
                window_height as int,
                width,
                top + DIALOG_BUTTON_HEIGHT + DIALOG_MARGIN,
            );
            &&& r.0 == rect
            &&& r.1@.len() == label_widths@.len()
            &&& forall|i: int|
                0 <= i < r.1@.len() ==> #[trigger] r.1@[i] == placed_button(
                    rect,
                    width,
                    top,
                    label_widths@,
                    i,
                )
        }),
{
    let total = row_total(label_widths);
    let width = (if total >= paragraph_width {
        total
    } else {
        paragraph_width
    }) + 2 * DIALOG_MARGIN;
    let button_top = DIALOG_MARGIN + paragraph_height + DIALOG_BUTTON_TOP_MARGIN;
    let height = button_top + DIALOG_BUTTON_HEIGHT + DIALOG_MARGIN;
    let rect = CoordsRect::new(
        (window_width - width) / 2,
        (window_height - height) / 2,
        width,
        height,
    );
    let buttons = place_buttons(rect, width, button_top, label_widths);
    (rect, buttons)
}

/// The layout of a dialog box with a score graph between its paragraph and
/// its row of buttons: the box, the graph (centered), and the buttons.
pub fn score_graph_dialog_layout(
    window_width: i32,
    window_height: i32,
    paragraph_width: i32,
    paragraph_height: i32,
    label_widths: &Vec<i32>,
) -> (r: (CoordsRect, CoordsRect, Vec<CoordsRect>))
    requires
        extent_ok(window_width as int),
        extent_ok(window_height as int),
        extent_ok(paragraph_width as int),
        extent_ok(paragraph_height as int),
        labels_ok(label_widths@),
    ensures
        ({
            let width = max_int(
                max_int(row_width(label_widths@, label_widths@.len() as int), SCORE_GRAPH_SIZE as int),
                paragraph_width as int,
            ) + 2 * DIALOG_MARGIN;
            let graph_top = DIALOG_MARGIN + paragraph_height + DIALOG_BUTTON_TOP_MARGIN;
            let top = graph_top + SCORE_GRAPH_SIZE + DIALOG_BUTTON_TOP_MARGIN;
            let rect = centered_spec(
                window_width as int,
                window_height as int,
                width,
                top + DIALOG_BUTTON_HEIGHT + DIALOG_MARGIN,
            );
            &&& r.0 == rect
            &&& r.1 == (CoordsRect {
                x: (rect.x + (width - SCORE_GRAPH_SIZE) / 2) as i32,
                y: (rect.y + graph_top) as i32,
                width: SCORE_GRAPH_SIZE,
                height: SCORE_GRAPH_SIZE,
            })
            &&& r.2@.len() == label_widths@.len()
            &&& forall|i: int|
                0 <= i < r.2@.len() ==> #[trigger] r.2@[i] == placed_button(
                    rect,
                    width,
                    top,
                    label_widths@,
                    i,
                )
        }),
{
    let total = row_total(label_widths);
    let inner = if total >= SCORE_GRAPH_SIZE {
        total
    } else {
        SCORE_GRAPH_SIZE
    };
    let inner = if inner >= paragraph_width {
        inner
    } else {
        paragraph_width
    };
    let width = inner + 2 * DIALOG_MARGIN;
    let graph_top = DIALOG_MARGIN + paragraph_height + DIALOG_BUTTON_TOP_MARGIN;
    let button_top = graph_top + SCORE_GRAPH_SIZE + DIALOG_BUTTON_TOP_MARGIN;
    let height = button_top + DIALOG_BUTTON_HEIGHT + DIALOG_MARGIN;
    let rect = CoordsRect::new(
        (window_width - width) / 2,
        (window_height - height) / 2,
        width,
        height,
    );
    let graph = CoordsRect::new(
        rect.x + (width - SCORE_GRAPH_SIZE) / 2,
        rect.y + graph_top,
        SCORE_GRAPH_SIZE,
        SCORE_GRAPH_SIZE,
    );
    let buttons = place_buttons(rect, width, button_top, label_widths);
    (rect, graph, buttons)
}

/// The OK and Cancel buttons of a dialog box `rect` whose buttons start
/// `button_top` pixels below its top: OK at the right margin, Cancel to its
/// left.
pub open spec fn ok_cancel_spec(rect: CoordsRect, button_top: int) -> (CoordsRect, CoordsRect) {
    let ok_x = rect.x + rect.width - DIALOG_MARGIN - DIALOG_BUTTON_MIN_WIDTH;
    (
        CoordsRect {
            x: ok_x as i32,
            y: (rect.y + button_top) as i32,
            width: DIALOG_BUTTON_MIN_WIDTH,
            height: DIALOG_BUTTON_HEIGHT,
        },
        CoordsRect {
            x: (ok_x - DIALOG_BUTTON_SPACING - DIALOG_BUTTON_MIN_WIDTH) as i32,
            y: (rect.y + button_top) as i32,
            width: DIALOG_BUTTON_MIN_WIDTH,
            height: DIALOG_BUTTON_HEIGHT,
        },
    )
}

fn ok_cancel(rect: CoordsRect, button_top: i32) -> (r: (CoordsRect, CoordsRect))
    requires
        -4 * MAX_DIALOG_EXTENT <= rect.x <= 4 * MAX_DIALOG_EXTENT,
        -4 * MAX_DIALOG_EXTENT <= rect.y <= 4 * MAX_DIALOG_EXTENT,
        0 <= rect.width <= 4 * MAX_DIALOG_EXTENT,
        0 <= button_top <= 4 * MAX_DIALOG_EXTENT,
    ensures
        r == ok_cancel_spec(rect, button_top as int),
{
    let ok_x = rect.x + rect.width - DIALOG_MARGIN - DIALOG_BUTTON_MIN_WIDTH;
    let ok = CoordsRect::new(ok_x, rect.y + button_top, DIALOG_BUTTON_MIN_WIDTH, DIALOG_BUTTON_HEIGHT);
    let cancel = CoordsRect::new(
        ok_x - DIALOG_BUTTON_SPACING - DIALOG_BUTTON_MIN_WIDTH,
        rect.y + button_top,
        DIALOG_BUTTON_MIN_WIDTH,
        DIALOG_BUTTON_HEIGHT,
    );
    (ok, cancel)
}

/// The narrowest a dialog box with OK and Cancel buttons gets, inside its
/// margins.
pub open spec fn two_buttons_width() -> int {
    2 * DIALOG_BUTTON_MIN_WIDTH + DIALOG_BUTTON_SPACING
}

/// The layout of a text-entry dialog: the box, the text box below the
/// paragraph, and the OK and Cancel buttons.
pub fn text_dialog_layout(
    window_width: i32,
    window_height: i32,
    paragraph_width: i32,
    paragraph_height: i32,
) -> (r: (CoordsRect, CoordsRect, CoordsRect, CoordsRect))
    requires
        extent_ok(window_width as int),
        extent_ok(window_height as int),
        extent_ok(paragraph_width as int),
        extent_ok(paragraph_height as int),
    ensures
        ({
            let textbox_width = max_int(paragraph_width as int, two_buttons_width());
            let width = textbox_width + 2 * DIALOG_MARGIN;
            let textbox_top = DIALOG_MARGIN + paragraph_height + TEXTBOX_TOP_MARGIN;
            let button_top = textbox_top + TEXTBOX_HEIGHT + DIALOG_BUTTON_TOP_MARGIN;
            let rect = centered_spec(
                window_width as int,
                window_height as int,
                width,
                button_top + DIALOG_BUTTON_HEIGHT + DIALOG_MARGIN,
            );
            &&& r.0 == rect
            &&& r.1 == (CoordsRect {
                x: (rect.x + DIALOG_MARGIN) as i32,
                y: (rect.y + textbox_top) as i32,
                width: textbox_width as i32,
                height: TEXTBOX_HEIGHT,
            })
            &&& (r.2, r.3) == ok_cancel_spec(rect, button_top)
        }),
{
    let two = 2 * DIALOG_BUTTON_MIN_WIDTH + DIALOG_BUTTON_SPACING;
    let textbox_width = if paragraph_width >= two {
        paragraph_width
    } else {
        two
    };
    let width = textbox_width + 2 * DIALOG_MARGIN;
    let textbox_top = DIALOG_MARGIN + paragraph_height + TEXTBOX_TOP_MARGIN;
    let button_top = textbox_top + TEXTBOX_HEIGHT + DIALOG_BUTTON_TOP_MARGIN;
    let height = button_top + DIALOG_BUTTON_HEIGHT + DIALOG_MARGIN;
    let rect = CoordsRect::new((window_width - width) / 2, (window_height - height) / 2, width, height);
    let textbox = CoordsRect::new(rect.x + DIALOG_MARGIN, rect.y + textbox_top, textbox_width, TEXTBOX_HEIGHT);
    let (ok, cancel) = ok_cancel(rect, button_top);
    (rect, textbox, ok, cancel)
}

/// The layout of a hotkey dialog, whose hotkey box is `box_width` by
/// `box_height`: the box, the top-left corner of the hotkey box (centered
/// below the paragraph), and the OK and Cancel buttons.
pub fn hotkey_dialog_layout(
    window_width: i32,
    window_height: i32,
    paragraph_width: i32,
    paragraph_height: i32,
    box_width: i32,
    box_height: i32,
) -> (r: (CoordsRect, (i32, i32), CoordsRect, CoordsRect))
    requires
        extent_ok(window_width as int),
        extent_ok(window_height as int),
        extent_ok(paragraph_width as int),
        extent_ok(paragraph_height as int),
        extent_ok(box_width as int),
        extent_ok(box_height as int),
    ensures
        ({
            let width = max_int(max_int(paragraph_width as int, two_buttons_width()), box_width as int)
                + 2 * DIALOG_MARGIN;
            let box_top = DIALOG_MARGIN + paragraph_height + HOTKEY_BOX_TOP_MARGIN;
            let button_top = box_top + box_height + DIALOG_BUTTON_TOP_MARGIN;
            let rect = centered_spec(
                window_width as int,
                window_height as int,
                width,
                button_top + DIALOG_BUTTON_HEIGHT + DIALOG_MARGIN,
            );
            &&& r.0 == rect
            &&& r.1 == ((rect.x + (rect.width - box_width) / 2) as i32, (rect.y + box_top) as i32)
            &&& (r.2, r.3) == ok_cancel_spec(rect, button_top)
        }),
{
    let two = 2 * DIALOG_BUTTON_MIN_WIDTH + DIALOG_BUTTON_SPACING;
    let inner = if paragraph_width >= two {
        paragraph_width
    } else {
        two
    };
    let inner = if inner >= box_width {
        inner
    } else {
        box_width
    };
    let width = inner + 2 * DIALOG_MARGIN;
    let box_top = DIALOG_MARGIN + paragraph_height + HOTKEY_BOX_TOP_MARGIN;
    let button_top = box_top + box_height + DIALOG_BUTTON_TOP_MARGIN;
    let height = button_top + DIALOG_BUTTON_HEIGHT + DIALOG_MARGIN;
    let rect = CoordsRect::new((window_width - width) / 2, (window_height - height) / 2, width, height);
    let box_left_top = (rect.x + (rect.width - box_width) / 2, rect.y + box_top);
    let (ok, cancel) = ok_cancel(rect, button_top);
    (rect, box_left_top, ok, cancel)
}

/// The label of a wire size choice, as in `8-bit`.
pub fn wire_size_label(num_bits: u32) -> (s: String)
    ensures
        s@ == digits_of(num_bits as nat) + "-bit"@,
{
    let mut chars: Vec<char> = Vec::new();
    push_digits(num_bits as u64, &mut chars);
    push_str(&mut chars, "-bit");
    string_from_chars(&chars)
}

/// The number of rows of the wire size choices, laid out in two columns.
pub open spec fn wire_size_rows(num_sizes: int) -> int {
    (num_sizes + 1) / 2
}

/// The width of the two columns of wire size choices.
pub open spec fn wire_size_columns_width() -> int {
    RADIO_CHECKBOX_WIDTH * 2 + RADIO_CHECKBOX_SPACING_HORZ
}

/// The layout of the wire size dialog for `num_sizes` choices, whose
/// checkboxes are `checkbox_height` tall: the box, the position of each
/// choice (filling the first column, then the second, centered below the
/// paragraph), and the OK and Cancel buttons.
pub fn wire_size_dialog_layout(
    window_width: i32,
    window_height: i32,
    paragraph_width: i32,
    paragraph_height: i32,
    num_sizes: i32,
    checkbox_height: i32,
) -> (r: (CoordsRect, Vec<(i32, i32)>, CoordsRect, CoordsRect))
    requires
        extent_ok(window_width as int),
        extent_ok(window_height as int),
        extent_ok(paragraph_width as int),
        extent_ok(paragraph_height as int),
        0 <= num_sizes <= 64,
        0 <= checkbox_height <= 1000,
    ensures
        ({
            let rows = wire_size_rows(num_sizes as int);
            let width = max_int(
                max_int(paragraph_width as int, two_buttons_width()),
                wire_size_columns_width(),
            ) + 2 * DIALOG_MARGIN;
            let boxes_top = DIALOG_MARGIN + paragraph_height + RADIO_CHECKBOX_TOP_MARGIN;
            let button_top = boxes_top + checkbox_height * rows + RADIO_CHECKBOX_SPACING_VERT * (rows
                - 1) + DIALOG_BUTTON_TOP_MARGIN;
            let rect = centered_spec(
                window_width as int,
                window_height as int,
                width,
                button_top + DIALOG_BUTTON_HEIGHT + DIALOG_MARGIN,
            );
            let left = (width - wire_size_columns_width()) / 2;
            &&& r.0 == rect
            &&& r.1@.len() == num_sizes
            &&& forall|i: int|
                0 <= i < num_sizes ==> #[trigger] r.1@[i] == (
                    (rect.x + left + (i / (rows as int)) * (RADIO_CHECKBOX_WIDTH + RADIO_CHECKBOX_SPACING_HORZ)) as i32,
                    (rect.y + boxes_top + (i % (rows as int)) * (checkbox_height + RADIO_CHECKBOX_SPACING_VERT)) as i32,
                )
            &&& (r.2, r.3) == ok_cancel_spec(rect, button_top)
        }),
{
    let rows = (num_sizes + 1) / 2;
    let two = 2 * DIALOG_BUTTON_MIN_WIDTH + DIALOG_BUTTON_SPACING;
    let columns = RADIO_CHECKBOX_WIDTH * 2 + RADIO_CHECKBOX_SPACING_HORZ;
    let inner = if paragraph_width >= two {
        paragraph_width
    } else {
        two
    };
    let inner = if inner >= columns {
        inner
    } else {
        columns
    };
    let width = inner + 2 * DIALOG_MARGIN;
    let boxes_top = DIALOG_MARGIN + paragraph_height + RADIO_CHECKBOX_TOP_MARGIN;
    assert(0 <= checkbox_height * rows <= 1000 * 32) by (nonlinear_arith)
        requires
            0 <= checkbox_height <= 1000,
            0 <= rows <= 32,
    ;
    let button_top = boxes_top + checkbox_height * rows + RADIO_CHECKBOX_SPACING_VERT * (rows - 1)
        + DIALOG_BUTTON_TOP_MARGIN;
    let height = button_top + DIALOG_BUTTON_HEIGHT + DIALOG_MARGIN;
    let rect = CoordsRect::new((window_width - width) / 2, (window_height - height) / 2, width, height);
    let left = (width - columns) / 2;
    let mut positions: Vec<(i32, i32)> = Vec::new();
    let mut index: i32 = 0;
    while index < num_sizes
        invariant
            0 <= index <= num_sizes <= 64,
            rows == wire_size_rows(num_sizes as int),
            num_sizes > 0 ==> rows >= 1,
            0 <= checkbox_height <= 1000,
            rect == centered_spec(
                window_width as int,
                window_height as int,
                width as int,
                height as int,
            ),
            -MAX_DIALOG_EXTENT <= rect.x <= MAX_DIALOG_EXTENT,
            -MAX_DIALOG_EXTENT <= rect.y <= MAX_DIALOG_EXTENT,
            0 <= left <= MAX_DIALOG_EXTENT,
            0 <= boxes_top <= 2 * MAX_DIALOG_EXTENT,
            left == (width - wire_size_columns_width()) / 2,
            boxes_top == DIALOG_MARGIN + paragraph_height + RADIO_CHECKBOX_TOP_MARGIN,
            positions@.len() == index,
            forall|i: int|
                0 <= i < index ==> #[trigger] positions@[i] == (
                    (rect.x + left + (i / (rows as int)) * (RADIO_CHECKBOX_WIDTH + RADIO_CHECKBOX_SPACING_HORZ)) as i32,
                    (rect.y + boxes_top + (i % (rows as int)) * (checkbox_height + RADIO_CHECKBOX_SPACING_VERT)) as i32,
                ),
        decreases num_sizes - index,
    {
        let col = index / rows;
        let row = index % rows;
        assert(0 <= col <= 64 && 0 <= row < 32) by (nonlinear_arith)
            requires
                0 <= index < 64,
                1 <= rows <= 32,
                col == index / rows,
                row == index % rows,
        ;
        assert(0 <= col * 112 <= 64 * 112) by (nonlinear_arith)
            requires
                0 <= col <= 64,
        ;
        assert(0 <= row * (checkbox_height + 6) <= 32 * 1006) by (nonlinear_arith)
            requires
                0 <= row < 32,
                0 <= checkbox_height <= 1000,
        ;
        positions.push(
            (
                rect.x + left + col * (RADIO_CHECKBOX_WIDTH + RADIO_CHECKBOX_SPACING_HORZ),
                rect.y + boxes_top + row * (checkbox_height + RADIO_CHECKBOX_SPACING_VERT),
            ),
        );
        index = index + 1;
    }
    let (ok, cancel) = ok_cancel(rect, button_top);
    (rect, positions, ok, cancel)
}

} // verus!
