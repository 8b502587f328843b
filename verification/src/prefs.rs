use vstd::prelude::*;
use crate::geom::CoordsRect;
use crate::begin::div_trunc;
use crate::text::{decimal, push_decimal, string_from_chars};
use crate::lists::{profile_list_items, ListItem};
use num_integer::Roots;

verus! {

pub const PANE_BUTTON_SPACING: i32 = 24;
pub const PANE_BUTTON_WIDTH: i32 = 180;

/// A window size in pixels.
#[derive(Clone, Copy, Debug, PartialEq, Eq, Structural)]
pub struct RectSize {
    pub width: i32,
    pub height: i32,
}

/// The window settings that the audio/video pane edits: antialiasing,
/// fullscreen, and the resolution (`None` for the screen's native one).
#[derive(Clone, Copy, Debug, PartialEq, Eq, Structural)]
pub struct WindowOptions {
    pub antialiasing: bool,
    pub fullscreen: bool,
    pub resolution: Option<RectSize>,
}

/// What the preferences view asks of the game.
#[derive(Clone, Debug)]
pub enum PrefsAction {
    RebootWindow(WindowOptions),
    NewProfile,
    SwitchProfile(String),
    DeleteProfile,
    QuitGame,
}

/// The panes of the preferences view.
#[derive(Clone, Copy, Debug, PartialEq, Eq, Structural)]
pub enum PrefsPane {
    AudioVideo,
    Hotkeys,
    Profiles,
    Credits,
}

impl PrefsPane {
    pub open spec fn label_spec(self) -> Seq<char> {
        match self {
            PrefsPane::AudioVideo => "Audio/Video"@,
            PrefsPane::Hotkeys => "Controls"@,
            PrefsPane::Profiles => "Profiles"@,
            PrefsPane::Credits => "Credits"@,
        }
    }

    /// The label of the pane's button.
    pub fn label(self) -> (s: &'static str)
        ensures
            s@ == self.label_spec(),
    {
        match self {
            PrefsPane::AudioVideo => "Audio/Video",
            PrefsPane::Hotkeys => "Controls",
            PrefsPane::Profiles => "Profiles",
            PrefsPane::Credits => "Credits",
        }
    }
}

/// The panes, in the order of their buttons.
pub open spec fn panes_spec() -> Seq<PrefsPane> {
    seq![PrefsPane::AudioVideo, PrefsPane::Hotkeys, PrefsPane::Profiles, PrefsPane::Credits]
}

/// The layout of the preferences view in `rect`: a column of pane buttons
/// followed by the "Exit Game" button, which takes the rest of the column,
/// and the pane itself to the right.
pub open spec fn prefs_pane_button_height_spec(rect: CoordsRect) -> int {
    (rect.height + PANE_BUTTON_SPACING) / 5 - PANE_BUTTON_SPACING
}

pub struct PrefsLayout {
    pub pane_buttons: Vec<(PrefsPane, CoordsRect)>,
    pub quit_button: CoordsRect,
    pub pane_rect: CoordsRect,
}

pub open spec fn prefs_layout_ok(rect: CoordsRect) -> bool {
    &&& -0x100_0000 <= rect.x <= 0x100_0000
    &&& -0x100_0000 <= rect.y <= 0x100_0000
    &&& 0 <= rect.width <= 0x100_0000
    &&& 0 <= rect.height <= 0x100_0000
}

pub fn prefs_layout(rect: CoordsRect) -> (l: PrefsLayout)
    requires
        prefs_layout_ok(rect),
    ensures
        l.pane_buttons@.len() == 4,
        forall|i: int|
            0 <= i < 4 ==> #[trigger] l.pane_buttons@[i] == (
                panes_spec()[i],
                CoordsRect {
                    x: rect.x,
                    y: (rect.y + i * (prefs_pane_button_height_spec(rect) + PANE_BUTTON_SPACING)) as i32,
                    width: PANE_BUTTON_WIDTH,
                    height: prefs_pane_button_height_spec(rect) as i32,
                },
            ),
        l.quit_button == (CoordsRect {
            x: rect.x,
            y: (rect.y + 4 * (prefs_pane_button_height_spec(rect) + PANE_BUTTON_SPACING)) as i32,
            width: PANE_BUTTON_WIDTH,
            height: (rect.height - 4 * (prefs_pane_button_height_spec(rect) + PANE_BUTTON_SPACING)) as i32,
        }),
        l.pane_rect == (CoordsRect {
            x: (rect.x + PANE_BUTTON_WIDTH + PANE_BUTTON_SPACING) as i32,
            y: rect.y,
            width: (rect.width - (PANE_BUTTON_WIDTH + PANE_BUTTON_SPACING)) as i32,
            height: rect.height,
        }),
{
    let button_height = (rect.height + PANE_BUTTON_SPACING) / 5 - PANE_BUTTON_SPACING;
    let stride = button_height + PANE_BUTTON_SPACING;
    let panes = [PrefsPane::AudioVideo, PrefsPane::Hotkeys, PrefsPane::Profiles, PrefsPane::Credits];
    let mut pane_buttons: Vec<(PrefsPane, CoordsRect)> = Vec::new();
    let mut i: i32 = 0;
    while i < 4
        invariant
            0 <= i <= 4,
            prefs_layout_ok(rect),
            button_height == prefs_pane_button_height_spec(rect),
            stride == button_height + PANE_BUTTON_SPACING,
            panes@ == panes_spec(),
            pane_buttons@.len() == i,
            forall|k: int|
                0 <= k < i ==> #[trigger] pane_buttons@[k] == (
                    panes_spec()[k],
                    CoordsRect {
                        x: rect.x,
                        y: (rect.y + k * (prefs_pane_button_height_spec(rect)
                            + PANE_BUTTON_SPACING)) as i32,
                        width: PANE_BUTTON_WIDTH,
                        height: prefs_pane_button_height_spec(rect) as i32,
                    },
                ),
        decreases 4 - i,
    {
        assert(0 <= i * stride <= 4 * stride) by (nonlinear_arith)
            requires
                0 <= i <= 4,
                0 <= stride,
        ;
        let top = rect.y + i * stride;
        pane_buttons.push((panes[i as usize], CoordsRect::new(rect.x, top, PANE_BUTTON_WIDTH, button_height)));
        i = i + 1;
    }
    let quit_top = rect.y + 4 * stride;
    let quit_button = CoordsRect::new(rect.x, quit_top, PANE_BUTTON_WIDTH, rect.height - (quit_top - rect.y));
    let offset = PANE_BUTTON_WIDTH + PANE_BUTTON_SPACING;
    let pane_rect = CoordsRect::new(rect.x + offset, rect.y, rect.width - offset, rect.height);
    PrefsLayout { pane_buttons, quit_button, pane_rect }
}

/// The rows of the profile list for the profiles `names`: one per
/// profile, in order, with the name as value and label, unmarked.
pub open spec fn profile_rows_spec(names: Seq<String>) -> Seq<(Seq<char>, Seq<char>, bool)> {
    names.map_values(|s: String| (s@, s@, false))
}

/// The profiles pane: the list of profiles (with the current one
/// selected), and the "New Profile" and "Delete Profile" buttons.
pub struct ProfilesPane {
    items: Vec<ListItem>,
    selected: String,
}

impl ProfilesPane {
    /// The rows of the profile list: each row's value, label, and whether
    /// it is marked.
    pub closed spec fn item_rows(&self) -> Seq<(Seq<char>, Seq<char>, bool)> {
        self.items@.map_values(|it: ListItem| (it.value@, it.label@, it.marked))
    }

    pub closed spec fn selected_spec(&self) -> Seq<char> {
        self.selected@
    }

    pub fn new(names: &Vec<String>, current: String) -> (p: ProfilesPane)
        ensures
            p.item_rows() == profile_rows_spec(names@),
            p.selected_spec() == current@,
    {
        let items = profile_list_items(names);
        let p = ProfilesPane { items, selected: current };
        assert(p.item_rows() =~= profile_rows_spec(names@));
        p
    }

    /// The action for an event on the pane, given what the profile list
    /// and the two buttons made of it: choosing another profile in the list
    /// switches to it; otherwise a click on "New Profile" or "Delete
    /// Profile" asks for that.
    pub fn on_event(&self, list_choice: Option<String>, new_clicked: bool, delete_clicked: bool) -> (r:
        Option<PrefsAction>)
        ensures
            list_choice matches Some(name) ==> (r matches Some(PrefsAction::SwitchProfile(n))
                && n@ == name@),
            list_choice is None && new_clicked ==> (r matches Some(PrefsAction::NewProfile)),
            list_choice is None && !new_clicked && delete_clicked ==> (r matches Some(
                PrefsAction::DeleteProfile,
            )),
            list_choice is None && !new_clicked && !delete_clicked ==> r is None,
    {
        if let Some(name) = list_choice {
            return Some(PrefsAction::SwitchProfile(name));
        }
        if new_clicked {
            return Some(PrefsAction::NewProfile);
        }
        if delete_clicked {
            return Some(PrefsAction::DeleteProfile);
        }
        None
    }

    /// Refreshes the list from the current profile names, selecting the
    /// current profile.
    pub fn update_profile_list(&mut self, names: &Vec<String>, current: String)
        ensures
            final(self).item_rows() == profile_rows_spec(names@),
            final(self).selected_spec() == current@,
    {
        self.items = profile_list_items(names);
        self.selected = current;
        assert(self.item_rows() =~= profile_rows_spec(names@));
    }
}

/// The truncated square root of `x` (`num_integer::Roots::sqrt` on `i32`),
/// which the crate documents as the `r` with `r * r <= x < (r + 1) * (r + 1)`.
/// It panics on a negative `x`, which `requires` rules out.
#[verifier::external_body]
fn isqrt(x: i32) -> (r: i32)
    requires
        x >= 0,
    ensures
        r >= 0,
        r * r <= x,
        x < (r + 1) * (r + 1),
{
    x.sqrt()
}


pub const AV_CATEGORY_FRAME_PADDING: i32 = 18;
pub const AV_CATEGORY_FRAME_SPACING: i32 = 22;
pub const AV_SLIDER_HEIGHT: i32 = 30;
pub const AV_SLIDER_SPACING: i32 = 20;
pub const AV_SLIDER_MARGIN: i32 = 62;
pub const AV_RESOLUTION_TABLE_MARGIN: i32 = 16;
pub const AV_RESOLUTION_COLUMN_WIDTH: i32 = 172;
pub const AV_RESOLUTION_ROW_SPACING: i32 = 6;
pub const AV_BUTTON_WIDTH: i32 = 200;
pub const AV_BUTTON_HEIGHT: i32 = 40;
pub const AV_BUTTON_SPACING: i32 = 24;

/// The label of a resolution choice: its width and height, as in
/// `1920x1080`.
pub fn resolution_label(size: RectSize) -> (s: String)
    ensures
        s@ == decimal(size.width as int) + seq!['x'] + decimal(size.height as int),
{
    let mut chars: Vec<char> = Vec::new();
    push_decimal(size.width as i64, &mut chars);
    chars.push('x');
    push_decimal(size.height as i64, &mut chars);
    string_from_chars(&chars)
}

/// The largest `r` at least `from` with `r * r <= n` reached by counting up
/// from `from`.
pub open spec fn floor_sqrt_from(n: int, from: int) -> int
    decreases n - from,
{
    if from < 0 || (from + 1) * (from + 1) > n || n - from <= 0 {
        from
    } else {
        floor_sqrt_from(n, from + 1)
    }
}

/// The truncated square root of a natural number.
pub open spec fn floor_sqrt(n: int) -> int {
    floor_sqrt_from(n, 0)
}

proof fn lemma_floor_sqrt_unique(n: int, r: int, from: int)
    requires
        0 <= from <= r,
        r * r <= n,
        n < (r + 1) * (r + 1),
    ensures
        floor_sqrt_from(n, from) == r,
    decreases r - from,
{
    if from < r {
        assert((from + 1) * (from + 1) <= r * r) by (nonlinear_arith)
            requires
                0 <= from < r,
        ;
        assert(n - from > 0) by (nonlinear_arith)
            requires
                0 <= from < r,
                r * r <= n,
        ;
        lemma_floor_sqrt_unique(n, r, from + 1);
    } else {
        assert(n - from > 0 || (from + 1) * (from + 1) > n) by (nonlinear_arith)
            requires
                from == r,
                r * r <= n,
                n < (r + 1) * (r + 1),
        ;
    }
}

/// The number of rows of the resolution table for `kept` resolutions when
/// at most `max_rows` rows and `max_cols` columns fit: about square, but
/// within the room there is, filling columns first.
pub open spec fn resolution_rows_spec(kept: int, max_rows: int, max_cols: int) -> int {
    let s = floor_sqrt(kept);
    if max_rows < max_cols {
        if s <= max_rows {
            s
        } else {
            max_rows
        }
    } else {
        let cols = if s <= max_cols {
            s
        } else {
            max_cols
        };
        (kept + cols - 1) / cols
    }
}

/// The layout of the audio/video pane in `rect`: the frames of the audio
/// and video sections, the two volume sliders, the two checkboxes, a
/// position for each resolution choice that fits, and the "Apply" and
/// "Revert" buttons.
pub struct AvLayout {
    pub audio_frame: CoordsRect,
    pub video_frame: CoordsRect,
    pub music_slider: CoordsRect,
    pub sound_slider: CoordsRect,
    pub fullscreen_checkbox: (i32, i32),
    pub antialias_checkbox: (i32, i32),
    pub resolution_positions: Vec<(i32, i32)>,
    pub apply_button: CoordsRect,
    pub revert_button: CoordsRect,
}

pub open spec fn av_left(rect: CoordsRect) -> int {
    rect.x + AV_CATEGORY_FRAME_PADDING
}

pub open spec fn av_right(rect: CoordsRect) -> int {
    rect.x + rect.width - AV_CATEGORY_FRAME_PADDING
}

/// Where the checkboxes sit: below the audio section's two sliders, the
/// spacing between sections, and the video section's padding.
pub open spec fn av_checkbox_top(rect: CoordsRect) -> int {
    rect.y + 156
}

pub open spec fn av_button_top(rect: CoordsRect) -> int {
    rect.y + rect.height - AV_CATEGORY_FRAME_PADDING - AV_BUTTON_HEIGHT
}

pub open spec fn av_max_rows(rect: CoordsRect, checkbox_height: int) -> int {
    div_trunc(
        av_button_top(rect) - (av_checkbox_top(rect) + checkbox_height) - 2 * AV_RESOLUTION_TABLE_MARGIN
            + AV_RESOLUTION_ROW_SPACING,
        checkbox_height + AV_RESOLUTION_ROW_SPACING,
    )
}

pub open spec fn av_max_cols(rect: CoordsRect) -> int {
    div_trunc(av_right(rect) - av_left(rect), AV_RESOLUTION_COLUMN_WIDTH as int)
}

/// How many of `num_resolutions` choices are kept for the table: as many
/// as the rows and columns that fit can hold.  The choices are cut down by
/// the row count taken as an unsigned number, so when that count is
/// negative a single column keeps them all, and no column keeps none.
pub open spec fn av_kept(rect: CoordsRect, checkbox_height: int, num_resolutions: int) -> int {
    let rows = av_max_rows(rect, checkbox_height);
    let cols = av_max_cols(rect);
    if rows >= 0 {
        if num_resolutions <= rows * cols {
            num_resolutions
        } else {
            rows * cols
        }
    } else if cols == 1 {
        num_resolutions
    } else {
        0
    }
}

pub open spec fn av_rows(rect: CoordsRect, checkbox_height: int, num_resolutions: int) -> int {
    resolution_rows_spec(
        av_kept(rect, checkbox_height, num_resolutions),
        av_max_rows(rect, checkbox_height),
        av_max_cols(rect),
    )
}

/// The top of the resolution table: centered between the checkboxes and
/// the buttons.
pub open spec fn av_table_top(rect: CoordsRect, checkbox_height: int, num_resolutions: int) -> int {
    let top = av_checkbox_top(rect) + checkbox_height;
    let table_height = av_rows(rect, checkbox_height, num_resolutions) * (checkbox_height
        + AV_RESOLUTION_ROW_SPACING) - AV_RESOLUTION_ROW_SPACING;
    top + div_trunc((av_button_top(rect) - top) - table_height, 2)
}

/// The position of the `index`th resolution choice: the table fills its
/// columns top to bottom, left to right (with division and remainder
/// rounding toward zero, as they do on a negative row count).
pub open spec fn av_resolution_position(
    rect: CoordsRect,
    checkbox_height: int,
    num_resolutions: int,
    index: int,
) -> (i32, i32) {
    let rows = av_rows(rect, checkbox_height, num_resolutions);
    let col = div_trunc(index, rows);
    let row = index - rows * col;
    (
        (av_left(rect) + col * AV_RESOLUTION_COLUMN_WIDTH) as i32,
        (av_table_top(rect, checkbox_height, num_resolutions) + row * (checkbox_height
            + AV_RESOLUTION_ROW_SPACING)) as i32,
    )
}

/// The sizes for which the layout is computed: a pane within limits, a
/// sensible checkbox height and number of choices (the native resolution
/// is always one), and a table whose row and column counts the computation
/// handles.  When no row or more fits, at least one column must (with none,
/// the row count divides by zero); when the row count comes out negative,
/// at most one column may (with more, the number of choices that fit
/// overflows).  Panes too short for any row still get a layout.
pub open spec fn av_layout_ok(rect: CoordsRect, checkbox_height: int, num_resolutions: int) -> bool {
    &&& -0x100_0000 <= rect.x <= 0x100_0000
    &&& -0x100_0000 <= rect.y <= 0x100_0000
    &&& 0 <= rect.width <= 0x100_0000
    &&& 0 <= rect.height <= 0x100_0000
    &&& 1 <= checkbox_height <= 1000
    &&& 1 <= num_resolutions <= 0x1_0000
    &&& av_max_rows(rect, checkbox_height) >= 0 ==> av_max_cols(rect) >= 1
    &&& av_max_rows(rect, checkbox_height) < 0 ==> av_max_cols(rect) <= 1
}

pub fn audio_video_layout(rect: CoordsRect, checkbox_height: i32, num_resolutions: usize) -> (l:
    AvLayout)
    requires
        av_layout_ok(rect, checkbox_height as int, num_resolutions as int),
    ensures
        l.audio_frame == (CoordsRect { x: rect.x, y: rect.y, width: rect.width, height: 116 }),
        l.video_frame == (CoordsRect {
            x: rect.x,
            y: (rect.y + 138) as i32,
            width: rect.width,
            height: (rect.height - 138) as i32,
        }),
        l.music_slider == (CoordsRect {
            x: (av_left(rect) + AV_SLIDER_MARGIN) as i32,
            y: (rect.y + 18) as i32,
            width: (av_right(rect) - av_left(rect) - 2 * AV_SLIDER_MARGIN) as i32,
            height: AV_SLIDER_HEIGHT,
        }),
        l.sound_slider == (CoordsRect {
            x: (av_left(rect) + AV_SLIDER_MARGIN) as i32,
            y: (rect.y + 68) as i32,
            width: (av_right(rect) - av_left(rect) - 2 * AV_SLIDER_MARGIN) as i32,
            height: AV_SLIDER_HEIGHT,
        }),
        l.fullscreen_checkbox == (av_left(rect) as i32, av_checkbox_top(rect) as i32),
        l.antialias_checkbox == ((av_left(rect) + AV_BUTTON_WIDTH + AV_BUTTON_SPACING) as i32,
            av_checkbox_top(rect) as i32),
        l.resolution_positions@.len() == av_kept(rect, checkbox_height as int, num_resolutions as int),
        forall|i: int|
            0 <= i < l.resolution_positions@.len() ==> #[trigger] l.resolution_positions@[i]
                == av_resolution_position(rect, checkbox_height as int, num_resolutions as int, i),
        l.apply_button == (CoordsRect {
            x: av_left(rect) as i32,
            y: av_button_top(rect) as i32,
            width: AV_BUTTON_WIDTH,
            height: AV_BUTTON_HEIGHT,
        }),
        l.revert_button == (CoordsRect {
            x: (av_left(rect) + AV_BUTTON_WIDTH + AV_BUTTON_SPACING) as i32,
            y: av_button_top(rect) as i32,
            width: AV_BUTTON_WIDTH,
            height: AV_BUTTON_HEIGHT,
        }),
{
    let ghost ch = checkbox_height as int;
    let ghost nr = num_resolutions as int;
    let frame_top = rect.y;
    let mut top = frame_top + AV_CATEGORY_FRAME_PADDING;
    let left = rect.x + AV_CATEGORY_FRAME_PADDING;
    let right = rect.x + rect.width - AV_CATEGORY_FRAME_PADDING;
    let music_slider = CoordsRect::new(
        rect.x + AV_CATEGORY_FRAME_PADDING + AV_SLIDER_MARGIN,
        top,
        right - left - 2 * AV_SLIDER_MARGIN,
        AV_SLIDER_HEIGHT,
    );
    top += AV_SLIDER_HEIGHT + AV_SLIDER_SPACING;
    let sound_slider = CoordsRect::new(
        left + AV_SLIDER_MARGIN,
        top,
        right - left - 2 * AV_SLIDER_MARGIN,
        AV_SLIDER_HEIGHT,
    );
    top += AV_SLIDER_HEIGHT + AV_CATEGORY_FRAME_PADDING;
    let audio_frame = CoordsRect::new(rect.x, frame_top, rect.width, top - frame_top);
    top += AV_CATEGORY_FRAME_SPACING;
    let video_top = top;
    top += AV_CATEGORY_FRAME_PADDING;
    let fullscreen_checkbox = (left, top);
    let antialias_checkbox = (left + AV_BUTTON_WIDTH + AV_BUTTON_SPACING, top);
    top += checkbox_height;
    let button_top = rect.y + rect.height - AV_CATEGORY_FRAME_PADDING - AV_BUTTON_HEIGHT;

    // The resolution table.
    let row_stride = checkbox_height + AV_RESOLUTION_ROW_SPACING;
    let max_rows = (button_top - top - 2 * AV_RESOLUTION_TABLE_MARGIN + AV_RESOLUTION_ROW_SPACING)
        / row_stride;
    let max_cols = (right - left) / AV_RESOLUTION_COLUMN_WIDTH;
    assert(max_rows == av_max_rows(rect, ch));
    assert(max_cols == av_max_cols(rect));
    let ghost numer = button_top - top - 2 * AV_RESOLUTION_TABLE_MARGIN + AV_RESOLUTION_ROW_SPACING;
    assert(-1240 <= numer <= 0x100_0000);
    assert(-1240 <= max_rows <= 0x100_0000) by (nonlinear_arith)
        requires
            max_rows == div_trunc(numer, row_stride as int),
            -1240 <= numer <= 0x100_0000,
            row_stride >= 7,
    ;
    assert(0 <= max_cols <= 0x10_0000) by (nonlinear_arith)
        requires
            max_cols == div_trunc(right - left, 172),
            -36 <= right - left <= 0x100_0000,
    ;
    let kept: i32 = if max_rows >= 0 {
        assert(0 <= (max_rows as i64) * (max_cols as i64) <= 0x100_0000 * 0x10_0000) by (nonlinear_arith)
            requires
                0 <= max_rows <= 0x100_0000,
                0 <= max_cols <= 0x10_0000,
        ;
        let room: i64 = (max_rows as i64) * (max_cols as i64);
        if (num_resolutions as i64) <= room {
            num_resolutions as i32
        } else {
            room as i32
        }
    } else if max_cols == 1 {
        num_resolutions as i32
    } else {
        0
    };
    assert(kept == av_kept(rect, ch, nr));
    assert(0 <= kept <= 0x1_0000);
    let s = isqrt(kept);
    proof {
        lemma_floor_sqrt_unique(kept as int, s as int, 0);
    }
    assert(s <= kept) by (nonlinear_arith)
        requires
            s >= 0,
            s * s <= kept,
    ;
    let num_rows: i32 = if max_rows < max_cols {
        if s <= max_rows {
            s
        } else {
            max_rows
        }
    } else {
        let cols = if s <= max_cols {
            s
        } else {
            max_cols
        };
        assert(max_rows >= 0 && max_cols >= 1);
        assert(max_rows * max_cols >= 1) by (nonlinear_arith)
            requires
                max_rows >= max_cols >= 1,
        ;
        assert(kept >= 1);
        assert(s >= 1) by (nonlinear_arith)
            requires
                kept >= 1,
                kept < (s + 1) * (s + 1),
                s >= 0,
        ;
        assert(1 <= (kept + cols - 1) / (cols as int) <= kept) by (nonlinear_arith)
            requires
                cols >= 1,
                kept >= 1,
        ;
        (kept + cols - 1) / cols
    };
    assert(num_rows == av_rows(rect, ch, nr));
    assert(-1240 <= num_rows <= kept);
    assert(-1240 * 1006 <= num_rows * row_stride <= 0x1_0000 * 1006) by (nonlinear_arith)
        requires
            -1240 <= num_rows <= 0x1_0000,
            7 <= row_stride <= 1006,
    ;
    proof {
        if kept > 0 {
            if max_rows >= 0 {
                assert(max_rows >= 1) by (nonlinear_arith)
                    requires
                        kept <= max_rows * max_cols,
                        kept > 0,
                        max_rows >= 0,
                        max_cols >= 1,
                ;
                assert(s >= 1) by (nonlinear_arith)
                    requires
                        kept >= 1,
                        kept < (s + 1) * (s + 1),
                        s >= 0,
                ;
            }
        }
    }
    assert(kept > 0 ==> num_rows != 0);
    let table_height = num_rows * row_stride - AV_RESOLUTION_ROW_SPACING;
    let table_top = top + ((button_top - top) - table_height) / 2;
    assert(table_top == av_table_top(rect, ch, nr));
    let mut positions: Vec<(i32, i32)> = Vec::new();
    let mut index: i32 = 0;
    while index < kept
        invariant
            0 <= index <= kept,
            kept == av_kept(rect, ch, nr),
            kept <= 0x1_0000,
            num_rows == av_rows(rect, ch, nr),
            kept > 0 ==> num_rows != 0,
            -1240 <= num_rows <= kept,
            row_stride == ch + AV_RESOLUTION_ROW_SPACING,
            7 <= row_stride <= 1006,
            left == av_left(rect),
            -0x100_0000 <= rect.x <= 0x100_0000,
            table_top == av_table_top(rect, ch, nr),
            -0x400_0000 <= table_top <= 0x400_0000,
            positions@.len() == index,
            forall|i: int|
                0 <= i < index ==> #[trigger] positions@[i] == av_resolution_position(
                    rect,
                    ch,
                    nr,
                    i,
                ),
        decreases kept - index,
    {
        // Division and remainder round toward zero, also for a negative
        // row count.
        let (row, col) = if num_rows > 0 {
            (index % num_rows, index / num_rows)
        } else {
            let q = index / (-num_rows);
            (index % (-num_rows), -q)
        };
        assert(col == div_trunc(index as int, num_rows as int) && row == index - num_rows * col)
            by (nonlinear_arith)
            requires
                0 <= index,
                num_rows != 0,
                num_rows > 0 ==> col == (index as int) / (num_rows as int) && row == (index as int)
                    % (num_rows as int),
                num_rows < 0 ==> col == -((index as int) / (-num_rows as int)) && row == (index as int)
                    % (-num_rows as int),
        ;
        assert(-index <= col <= index && 0 <= row < 0x1_0000) by (nonlinear_arith)
            requires
                0 <= index <= 0x1_0000,
                num_rows != 0,
                -1240 <= num_rows <= 0x1_0000,
                col == div_trunc(index as int, num_rows as int),
                row == index - num_rows * col,
        ;
        assert(0 <= row * row_stride <= 0x1_0000 * 1006) by (nonlinear_arith)
            requires
                0 <= row < 0x1_0000,
                7 <= row_stride <= 1006,
        ;
        assert(-0x1_0000 * 172 <= col * AV_RESOLUTION_COLUMN_WIDTH <= 0x1_0000 * 172) by (nonlinear_arith)
            requires
                -0x1_0000 <= col <= 0x1_0000,
        ;
        let x = left + col * AV_RESOLUTION_COLUMN_WIDTH;
        let y = table_top + row * row_stride;
        positions.push((x, y));
        index = index + 1;
    }
    let apply_button = CoordsRect::new(left, button_top, AV_BUTTON_WIDTH, AV_BUTTON_HEIGHT);
    let revert_button = CoordsRect::new(
        left + AV_BUTTON_WIDTH + AV_BUTTON_SPACING,
        button_top,
        AV_BUTTON_WIDTH,
        AV_BUTTON_HEIGHT,
    );
    let video_frame = CoordsRect::new(rect.x, video_top, rect.width, rect.y + rect.height - video_top);
    AvLayout {
        audio_frame,
        video_frame,
        music_slider,
        sound_slider,
        fullscreen_checkbox,
        antialias_checkbox,
        resolution_positions: positions,
        apply_button,
        revert_button,
    }
}


pub const HOTKEY_FRAME_PADDING: i32 = 18;
pub const HOTKEY_CATEGORY_LABEL_STRIDE: i32 = 24;
pub const HOTKEY_BOX_STRIDE: i32 = 32;
pub const HOTKEY_CATEGORY_SPACING: i32 = 32;
pub const HOTKEY_BUTTON_WIDTH: i32 = 200;
pub const HOTKEY_BUTTON_HEIGHT: i32 = 40;

/// Where a category of `count` hotkeys goes when the previous one ended at
/// `(left, top)`: right there if it fits above the pane's bottom padding,
/// else at the top of the pane's right half.
pub open spec fn hotkey_wrap(rect: CoordsRect, left: int, top: int, count: int) -> (int, int) {
    let section_height = HOTKEY_CATEGORY_LABEL_STRIDE + HOTKEY_BOX_STRIDE * count;
    if rect.y + rect.height - HOTKEY_FRAME_PADDING - top < section_height {
        (rect.x + rect.width / 2, rect.y + HOTKEY_FRAME_PADDING)
    } else {
        (left, top)
    }
}

/// Where the flow of hotkey categories stands before category `k`.
pub open spec fn hotkey_flow(rect: CoordsRect, counts: Seq<usize>, k: int) -> (int, int)
    decreases k,
{
    if k <= 0 {
        (rect.x + HOTKEY_FRAME_PADDING, rect.y + HOTKEY_FRAME_PADDING)
    } else {
        let prev = hotkey_flow(rect, counts, k - 1);
        let p = hotkey_wrap(rect, prev.0, prev.1, counts[k - 1] as int);
        (
            p.0,
            p.1 + HOTKEY_CATEGORY_LABEL_STRIDE + HOTKEY_BOX_STRIDE * counts[k - 1]
                + HOTKEY_CATEGORY_SPACING,
        )
    }
}

/// Where the label of hotkey category `k` goes.
pub open spec fn hotkey_label_pos(rect: CoordsRect, counts: Seq<usize>, k: int) -> (int, int) {
    let prev = hotkey_flow(rect, counts, k);
    hotkey_wrap(rect, prev.0, prev.1, counts[k] as int)
}

pub open spec fn hotkeys_layout_ok(rect: CoordsRect, counts: Seq<usize>) -> bool {
    &&& -0x100_0000 <= rect.x <= 0x100_0000
    &&& -0x100_0000 <= rect.y <= 0x100_0000
    &&& 0 <= rect.width <= 0x100_0000
    &&& 0 <= rect.height <= 0x100_0000
    &&& counts.len() <= 100
    &&& forall|k: int| 0 <= k < counts.len() ==> #[trigger] counts[k] <= 1000
}

proof fn lemma_hotkey_flow_bounds(rect: CoordsRect, counts: Seq<usize>, k: int)
    requires
        hotkeys_layout_ok(rect, counts),
        0 <= k <= counts.len(),
    ensures
        rect.y + HOTKEY_FRAME_PADDING <= hotkey_flow(rect, counts, k).1 <= rect.y
            + HOTKEY_FRAME_PADDING + k * 32056,
        hotkey_flow(rect, counts, k).0 == rect.x + HOTKEY_FRAME_PADDING || hotkey_flow(
            rect,
            counts,
            k,
        ).0 == rect.x + rect.width / 2,
    decreases k,
{
    if k > 0 {
        lemma_hotkey_flow_bounds(rect, counts, k - 1);
        assert(counts[k - 1] <= 1000);
    }
}

/// The layout of the hotkeys pane in `rect` for categories of `counts`
/// hotkeys: for each category, the position of its label and of each of
/// its hotkey boxes below it; categories flow down the left half and wrap
/// once to the right half; and the "Restore Defaults" button in the
/// bottom-right corner.
pub fn hotkeys_layout(rect: CoordsRect, counts: &Vec<usize>) -> (r: (
    Vec<(i32, i32)>,
    Vec<Vec<(i32, i32)>>,
    CoordsRect,
))
    requires
        hotkeys_layout_ok(rect, counts@),
    ensures
        r.0@.len() == counts@.len(),
        r.1@.len() == counts@.len(),
        forall|k: int|
            0 <= k < counts@.len() ==> {
                let p = hotkey_label_pos(rect, counts@, k);
                &&& #[trigger] r.0@[k] == (p.0 as i32, p.1 as i32)
                &&& r.1@[k]@.len() == counts@[k]
                &&& forall|j: int|
                    0 <= j < counts@[k] ==> #[trigger] r.1@[k]@[j] == (
                        p.0 as i32,
                        (p.1 + HOTKEY_CATEGORY_LABEL_STRIDE + HOTKEY_BOX_STRIDE * j) as i32,
                    )
            },
        r.2 == (CoordsRect {
            x: (rect.x + rect.width - HOTKEY_FRAME_PADDING - HOTKEY_BUTTON_WIDTH) as i32,
            y: (rect.y + rect.height - HOTKEY_FRAME_PADDING - HOTKEY_BUTTON_HEIGHT) as i32,
            width: HOTKEY_BUTTON_WIDTH,
            height: HOTKEY_BUTTON_HEIGHT,
        }),
{
    let mut left = rect.x + HOTKEY_FRAME_PADDING;
    let mut top = rect.y + HOTKEY_FRAME_PADDING;
    let mut labels: Vec<(i32, i32)> = Vec::new();
    let mut boxes: Vec<Vec<(i32, i32)>> = Vec::new();
    let n = counts.len();
    let mut k: usize = 0;
    while k < n
        invariant
            n == counts@.len(),
            k <= n,
            hotkeys_layout_ok(rect, counts@),
            (left as int, top as int) == hotkey_flow(rect, counts@, k as int),
            labels@.len() == k,
            boxes@.len() == k,
            forall|i: int|
                0 <= i < k ==> {
                    let p = hotkey_label_pos(rect, counts@, i);
                    &&& #[trigger] labels@[i] == (p.0 as i32, p.1 as i32)
                    &&& boxes@[i]@.len() == counts@[i]
                    &&& forall|j: int|
                        0 <= j < counts@[i] ==> #[trigger] boxes@[i]@[j] == (
                            p.0 as i32,
                            (p.1 + HOTKEY_CATEGORY_LABEL_STRIDE + HOTKEY_BOX_STRIDE * j) as i32,
                        )
                },
        decreases n - k,
    {
        proof {
            lemma_hotkey_flow_bounds(rect, counts@, k as int);
        }
        let count = counts[k];
        assert(count <= 1000);
        let section_height = HOTKEY_CATEGORY_LABEL_STRIDE + HOTKEY_BOX_STRIDE * (count as i32);
        if rect.y + rect.height - HOTKEY_FRAME_PADDING - top < section_height {
            left = rect.x + rect.width / 2;
            top = rect.y + HOTKEY_FRAME_PADDING;
        }
        let ghost p = hotkey_label_pos(rect, counts@, k as int);
        assert((left as int, top as int) == p);
        labels.push((left, top));
        top += HOTKEY_CATEGORY_LABEL_STRIDE;
        let mut category_boxes: Vec<(i32, i32)> = Vec::new();
        let mut j: usize = 0;
        while j < count
            invariant
                j <= count,
                count <= 1000,
                (left as int, top as int) == (p.0, p.1 + HOTKEY_CATEGORY_LABEL_STRIDE
                    + HOTKEY_BOX_STRIDE * j),
                rect.y + HOTKEY_FRAME_PADDING <= p.1 <= rect.y + HOTKEY_FRAME_PADDING + 100 * 32056,
                -0x100_0000 <= rect.y <= 0x100_0000,
                category_boxes@.len() == j,
                forall|jj: int|
                    0 <= jj < j ==> #[trigger] category_boxes@[jj] == (
                        p.0 as i32,
                        (p.1 + HOTKEY_CATEGORY_LABEL_STRIDE + HOTKEY_BOX_STRIDE * jj) as i32,
                    ),
            decreases count - j,
        {
            category_boxes.push((left, top));
            top += HOTKEY_BOX_STRIDE;
            j = j + 1;
        }
        boxes.push(category_boxes);
        top += HOTKEY_CATEGORY_SPACING;
        k = k + 1;
    }
    let defaults = CoordsRect::new(
        rect.x + rect.width - HOTKEY_FRAME_PADDING - HOTKEY_BUTTON_WIDTH,
        rect.y + rect.height - HOTKEY_FRAME_PADDING - HOTKEY_BUTTON_HEIGHT,
        HOTKEY_BUTTON_WIDTH,
        HOTKEY_BUTTON_HEIGHT,
    );
    (labels, boxes, defaults)
}

} // verus!
