//! The effect command and the state of the effect screen: which effect is selected,
//! how far its animation has run, the menu beside it and the canvas it is drawn on.
use vstd::prelude::*;

use super::Command;
use crate::app::{App, AppView};
use crate::key::Key;
use crate::text::{push_str, string_of};

verus! {

/// effect: opens the effect screen.
pub struct Cmd;

impl Command for Cmd {
    open spec fn name_text(&self) -> Seq<char> {
        "effect"@
    }

    open spec fn help_text(&self) -> Seq<char> {
        "エフェクト画面を開く"@
    }

    open spec fn outcome(&self, before: AppView) -> AppView {
        before.effects_opened()
    }

    fn name(&self) -> (r: &'static str) {
        "effect"
    }

    fn help(&self) -> (r: &'static str) {
        "エフェクト画面を開く"
    }

    fn run(&self, app: &mut App) {
        app.open_effects();
    }
}

/// The number of effects the screen offers.
pub const MODE_COUNT: usize = 4;

/// The menu label of effect `i`, in menu order.
pub open spec fn mode_label(i: int) -> Seq<char> {
    if i == 0 {
        "Pulse"@
    } else if i == 1 {
        "Orbit"@
    } else if i == 2 {
        "Starburst"@
    } else {
        "Ripple"@
    }
}

/// The menu label of effect `i`.
pub fn mode_label_str(i: usize) -> (r: &'static str)
    requires
        i < MODE_COUNT,
    ensures
        r@ == mode_label(i as int),
{
    if i == 0 {
        "Pulse"
    } else if i == 1 {
        "Orbit"
    } else if i == 2 {
        "Starburst"
    } else {
        "Ripple"
    }
}

/// The effect screen as a value: the selected effect and the frames its animation has run.
pub struct EffectsView {
    pub cursor: int,
    pub ticks: int,
}

/// What a key press on the effect screen asks of the application.
#[derive(Clone, Copy, PartialEq, Eq, Structural, Debug)]
pub enum Nav {
    /// Stay on the effect screen.
    Stay,
    /// Go back to the prompt.
    Exit,
    /// End the application.
    Quit,
}

/// The effect screen: the selected effect and its animation frame count.
pub struct Effects {
    cursor: usize,
    ticks: u64,
}

impl View for Effects {
    type V = EffectsView;

    closed spec fn view(&self) -> EffectsView {
        EffectsView { cursor: self.cursor as int, ticks: self.ticks as int }
    }
}

/// The effect screen as it opens: the first effect, from its first frame.
pub open spec fn effects_start() -> EffectsView {
    EffectsView { cursor: 0, ticks: 0 }
}

/// `e` one animation frame later; the frame count stops at `u64::MAX`.
pub open spec fn effects_ticked(e: EffectsView) -> EffectsView {
    EffectsView {
        cursor: e.cursor,
        ticks: if e.ticks < u64::MAX { e.ticks + 1 } else { e.ticks },
    }
}

/// A key press on the effect screen: Esc goes back, `q` quits, Up or `k` and Down or `j`
/// move the selection within the menu and restart the animation when it moves.
pub open spec fn effects_step(e: EffectsView, key: Key) -> (EffectsView, Nav) {
    if key == Key::Esc {
        (e, Nav::Exit)
    } else if key == Key::Char('q') {
        (e, Nav::Quit)
    } else if key == Key::Up || key == Key::Char('k') {
        if e.cursor > 0 {
            (EffectsView { cursor: e.cursor - 1, ticks: 0 }, Nav::Stay)
        } else {
            (e, Nav::Stay)
        }
    } else if key == Key::Down || key == Key::Char('j') {
        if e.cursor < MODE_COUNT - 1 {
            (EffectsView { cursor: e.cursor + 1, ticks: 0 }, Nav::Stay)
        } else {
            (e, Nav::Stay)
        }
    } else {
        (e, Nav::Stay)
    }
}

/// Where the effect screen's parts stand: the menu's first row, its height, the row of
/// the selected entry (the centre of the effect), and the key help row.
#[derive(Clone, Copy, PartialEq, Eq, Structural, Debug)]
pub struct MenuLayout {
    pub top: u16,
    pub height: u16,
    pub selected_row: u16,
    pub help_row: u16,
}

/// One entry of the menu: its text and whether it is the selected one.
pub struct MenuLine {
    pub text: String,
    pub selected: bool,
}

/// The text of menu entry `i` when `cursor` is selected.
pub open spec fn menu_text(i: int, cursor: int) -> Seq<char> {
    if i == cursor {
        "▶ "@ + mode_label(i)
    } else {
        mode_label(i)
    }
}

impl Effects {
    #[verifier::type_invariant]
    spec fn cursor_in_menu(self) -> bool {
        self.cursor < MODE_COUNT
    }

    pub fn new() -> (r: Effects)
        ensures
            r@ == effects_start(),
    {
        Effects { cursor: 0, ticks: 0 }
    }

    /// Restarts the screen with the first effect from its first frame.
    pub fn reset(&mut self)
        ensures
            final(self)@ == effects_start(),
    {
        self.cursor = 0;
        self.ticks = 0;
    }

    /// Advances the animation by one frame.
    pub fn tick(&mut self)
        ensures
            final(self)@ == effects_ticked(old(self)@),
    {
        proof {
            use_type_invariant(&*self);
        }
        self.ticks = self.ticks.saturating_add(1);
    }

    pub fn handle_key(&mut self, key: Key) -> (r: Nav)
        ensures
            (final(self)@, r) == effects_step(old(self)@, key),
            final(self)@.cursor < MODE_COUNT,
    {
        proof {
            use_type_invariant(&*self);
        }
        match key {
            Key::Esc => Nav::Exit,
            Key::Char('q') => Nav::Quit,
            Key::Up | Key::Char('k') => {
                if self.cursor > 0 {
                    self.cursor = self.cursor - 1;
                    self.ticks = 0;
                }
                Nav::Stay
            },
            Key::Down | Key::Char('j') => {
                if self.cursor < MODE_COUNT - 1 {
                    self.cursor = self.cursor + 1;
                    self.ticks = 0;
                }
                Nav::Stay
            },
            _ => Nav::Stay,
        }
    }

    /// The selected effect.
    pub fn cursor(&self) -> (r: usize)
        ensures
            r == self@.cursor,
            r < MODE_COUNT,
    {
        proof {
            use_type_invariant(self);
        }
        self.cursor
    }

    /// The frames the selected effect's animation has run.
    pub fn ticks(&self) -> (r: u64)
        ensures
            r == self@.ticks,
    {
        self.ticks
    }

    /// Where the effect screen's parts stand on a screen `area_height` rows high: the menu
    /// centred vertically, a title row and a blank row above one row per effect, and the
    /// key help on the last row.
    pub fn menu_layout(&self, area_height: u16) -> (r: MenuLayout)
        ensures
            r.height == MODE_COUNT + 2,
            r.top == (if area_height >= MODE_COUNT + 2 { area_height - (MODE_COUNT + 2) } else { 0 }) / 2,
            r.selected_row == r.top + 2 + self@.cursor,
            r.help_row == if area_height >= 1 { area_height - 1 } else { 0 },
    {
        proof {
            use_type_invariant(self);
        }
        let height: u16 = MODE_COUNT as u16 + 2;
        let top = area_height.saturating_sub(height) / 2;
        let selected_row = top + 2 + self.cursor as u16;
        let help_row = area_height.saturating_sub(1);
        MenuLayout { top, height, selected_row, help_row }
    }

    /// The menu entries, in menu order, the selected one marked with "▶ ".
    pub fn menu_lines(&self) -> (r: Vec<MenuLine>)
        ensures
            r@.len() == MODE_COUNT,
            forall|i: int|
                0 <= i < MODE_COUNT ==> {
                    &&& (#[trigger] r@[i]).selected == (i == self@.cursor)
                    &&& r@[i].text@ == menu_text(i, self@.cursor)
                },
    {
        let mut r: Vec<MenuLine> = Vec::new();
        let mut i: usize = 0;
        while i < MODE_COUNT
            invariant
                i <= MODE_COUNT,
                r@.len() == i,
                forall|j: int|
                    0 <= j < i ==> {
                        &&& (#[trigger] r@[j]).selected == (j == self@.cursor)
                        &&& r@[j].text@ == menu_text(j, self@.cursor)
                    },
            decreases MODE_COUNT - i,
        {
            let selected = i == self.cursor;
            let mut text: Vec<char> = Vec::new();
            if selected {
                push_str(&mut text, "▶ ");
            }
            push_str(&mut text, mode_label_str(i));
            assert(text@ =~= menu_text(i as int, self@.cursor));
            r.push(MenuLine { text: string_of(text.as_slice()), selected });
            i = i + 1;
        }
        r
    }
}

/// A colour given by its red, green and blue parts.
#[derive(Clone, Copy, PartialEq, Eq, Structural, Debug)]
pub struct Rgb {
    pub r: u8,
    pub g: u8,
    pub b: u8,
}

/// What an effect draws into one cell: a character in a colour.
#[derive(Clone, Copy, PartialEq, Eq, Structural, Debug)]
pub struct Cell {
    pub ch: char,
    pub color: Rgb,
}

/// A canvas as a value: its width and height, and its cells row by row, `None` where
/// nothing is drawn.
pub struct CanvasView {
    pub width: int,
    pub height: int,
    pub cells: Seq<Option<Cell>>,
}

/// A grid of cells that effects draw into.
pub struct Canvas {
    w: usize,
    h: usize,
    cells: Vec<Option<Cell>>,
}

impl View for Canvas {
    type V = CanvasView;

    closed spec fn view(&self) -> CanvasView {
        CanvasView { width: self.w as int, height: self.h as int, cells: self.cells@ }
    }
}

/// The index of cell (x, y) in a canvas `width` cells wide.
pub open spec fn cell_index(width: int, x: int, y: int) -> int {
    y * width + x
}

proof fn lemma_cell_index_bound(w: int, h: int, x: int, y: int)
    requires
        0 <= x < w,
        0 <= y < h,
    ensures
        0 <= cell_index(w, x, y) < w * h,
{
    assert(y * w + x < w * h) by (nonlinear_arith)
        requires
            0 <= x < w,
            0 <= y < h,
    ;
    assert(0 <= y * w) by (nonlinear_arith)
        requires
            0 <= y,
            0 <= w,
    ;
}

impl Canvas {
    /// The canvas holds one cell per point of its grid.
    pub open spec fn wf(&self) -> bool {
        self@.cells.len() == self@.width * self@.height
    }

    /// A canvas `w` cells wide and `h` high with nothing drawn.
    pub fn new(w: usize, h: usize) -> (r: Canvas)
        requires
            w * h <= usize::MAX,
        ensures
            r.wf(),
            r@.width == w,
            r@.height == h,
            r@.cells == Seq::new((w * h) as nat, |i: int| None::<Cell>),
    {
        let n = w * h;
        let mut cells: Vec<Option<Cell>> = Vec::new();
        let mut i: usize = 0;
        while i < n
            invariant
                i <= n,
                cells@ == Seq::new(i as nat, |k: int| None::<Cell>),
            decreases n - i,
        {
            cells.push(None);
            i = i + 1;
            assert(cells@ =~= Seq::new(i as nat, |k: int| None::<Cell>));
        }
        Canvas { w, h, cells }
    }

    pub fn width(&self) -> (r: usize)
        ensures
            r == self@.width,
    {
        self.w
    }

    pub fn height(&self) -> (r: usize)
        ensures
            r == self@.height,
    {
        self.h
    }

    /// Draws `ch` in `color` at (x, y); a point outside the canvas draws nothing.
    pub fn set(&mut self, x: isize, y: isize, ch: char, color: Rgb)
        requires
            old(self).wf(),
        ensures
            final(self).wf(),
            final(self)@.width == old(self)@.width,
            final(self)@.height == old(self)@.height,
            final(self)@.cells == if 0 <= x < old(self)@.width && 0 <= y < old(self)@.height {
                old(self)@.cells.update(
                    cell_index(old(self)@.width, x as int, y as int),
                    Some(Cell { ch, color }),
                )
            } else {
                old(self)@.cells
            },
    {
        let total = self.cells.len();
        if x < 0 || y < 0 {
            return;
        }
        let ux = x as usize;
        let uy = y as usize;
        if ux >= self.w || uy >= self.h {
            return;
        }
        proof {
            lemma_cell_index_bound(self.w as int, self.h as int, ux as int, uy as int);
        }
        let idx = uy * self.w + ux;
        self.cells.set(idx, Some(Cell { ch, color }));
    }

    /// The canvas cut into its rows, top to bottom.
    pub fn into_rows(self) -> (r: Vec<Vec<Option<Cell>>>)
        requires
            self.wf(),
            self@.width > 0,
        ensures
            r@.len() == self@.height,
            forall|y: int|
                0 <= y < self@.height ==> (#[trigger] r@[y])@ == self@.cells.subrange(
                    y * self@.width,
                    y * self@.width + self@.width,
                ),
    {
        let w = self.w;
        let h = self.h;
        let total = self.cells.len();
        let mut rows: Vec<Vec<Option<Cell>>> = Vec::new();
        let mut y: usize = 0;
        while y < h
            invariant
                y <= h,
                w > 0,
                w == self.w,
                h == self.h,
                self.cells@.len() == w * h,
                total == w * h,
                rows@.len() == y,
                forall|j: int|
                    0 <= j < y ==> (#[trigger] rows@[j])@ == self.cells@.subrange(
                        j * w,
                        j * w + w,
                    ),
            decreases h - y,
        {
            let mut row: Vec<Option<Cell>> = Vec::new();
            let mut x: usize = 0;
            proof {
                lemma_cell_index_bound(w as int, h as int, 0, y as int);
                lemma_cell_index_bound(w as int, h as int, (w - 1) as int, y as int);
            }
            while x < w
                invariant
                    x <= w,
                    y < h,
                    total == w * h,
                    w == self.w,
                    h == self.h,
                    self.cells@.len() == w * h,
                    y * w + w <= w * h,
                    row@ == self.cells@.subrange(y * w, y * w + x),
                decreases w - x,
            {
                let c = self.cells[y * w + x];
                row.push(c);
                x = x + 1;
                assert(row@ =~= self.cells@.subrange(y * w, y * w + x));
            }
            rows.push(row);
            y = y + 1;
        }
        rows
    }
}

} // verus!
