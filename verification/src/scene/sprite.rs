//! Pixel art for the inhabitants of the office.
//!
//! A sprite is a grid of characters for each of its frames. A cell stands for
//! a role in the palette, so that one template serves every hue:
//!
//! - `' '` or `'.'`: transparent
//! - `'X'`: primary color
//! - `'x'`: primary color, dimmed
//! - `'W'`: light
//! - `'K'`: dark outline
use vstd::prelude::*;

use crate::domain::agent::{Agent, AgentKind};
use crate::domain::room_assignment::RoomId;
use crate::seqs::push_to;
use crate::text::{chars_of, lines, split_lines};

verus! {

/// Telescope for the Observatory: tripod and barrel, aimed skyward.
pub const TELESCOPE: &'static str = ".....XXX
....XXX.
...XXX..
..XXX...
.XXXX...
XXXXX...
.X.X.X..
X..X..X.
X..X..X.";

/// Command HQ desk: a console with a couple of monitors.
pub const CONSOLE: &'static str = "XX.XX.XX.XXX
XX.XX.XX.XXX
XX.XX.XX.XXX
XXXXXXXXXXXX
.X........X.
.XXXXXXXXXX.";

/// Security filing cabinet: stacked drawers with handles.
pub const CABINET: &'static str = "XXXXXXXX
X......X
X.XXXX.X
X......X
XXXXXXXX
X......X
X.XXXX.X
X......X
XXXXXXXX
X......X
X.XXXX.X
X......X
XXXXXXXX";

/// Research Lab beakers: two flasks on a shelf.
pub const BEAKERS: &'static str = ".XX..XXXX.
.XX..X..X.
.XX..X..X.
XXXX.X..X.
X..X.XXXX.
X..X.XXXX.
XXXX.XXXX.
XXXX.XXXX.";

/// Memory Vault: stacked archive boxes.
pub const ARCHIVE: &'static str = "XXXXXXXXXX
X...XX...X
XXXXXXXXXX
..........
XXXXXX....
X....X....
XXXXXX....
....XXXXXX
....X....X
....XXXXXX";

/// Studio microphone: condenser mic on a boom arm.
pub const MICROPHONE: &'static str = "..XXXX..
.X.XX.X.
.X.XX.X.
.X.XX.X.
..XXXX..
...XX...
...XX...
..XXXX..
.XXXXXX.";

/// Space lobster at rest: legs spread.
pub const LOBSTER_IDLE: &'static str = "..K........K..
..X........X..
..X........X..
.XXX......XXX.
XXWXX.KK.XXWXX
XXXXXXXXXXXXXX
.XXXXXXXXXXXX.
XX.XXXXXXXX.XX
X..X..XX..X..X
...XXXXXXXX...
....xXXXXx....";

/// Space lobster, step to the left: legs slide left, the left claw reaches.
pub const LOBSTER_LEFT: &'static str = ".K.........K..
.X.........X..
.X.........X..
XXX.......XXX.
XXWX..KK..XWXX
XXXXXXXXXXXXXX
.XXXXXXXXXXXX.
XX.XXXXXXXX.XX
.X..XX..X..X.X
...XXXXXXXX...
...xXXXXx.....";

/// Space lobster, step to the right: legs slide right, the right claw reaches.
pub const LOBSTER_RIGHT: &'static str = "..K.........K.
..X.........X.
..X.........X.
.XXX.......XXX
XXWX..KK..XWXX
XXXXXXXXXXXXXX
.XXXXXXXXXXXX.
XX.XXXXXXXX.XX
X.X..X..XX..X.
...XXXXXXXX...
.....xXXXXx...";

/// CRT monitor: screen and stand.
pub const MONITOR: &'static str = "xxxxxxxxxxxxxx
xXXXXXXXXXXXXx
xXxxxxxxxxxxXx
xXxXXXXXXXXxXx
xXxXXXXXXXXxXx
xXxXXXXXXXXxXx
xXxXXXXXXXXxXx
xXxxxxxxxxxxXx
xXXXXXXXXXXXXx
xxxxxxxxxxxxxx
....xxXXxx....
...xxxXXxxx...
..xxxxxxxxxx..";

/// One animated sprite: frames of equal dimensions. A single frame is a
/// static pose; two or more make a cycle.
#[derive(Debug)]
pub struct Sprite {
    pub frames: Vec<Vec<String>>,
}

impl DeepView for Sprite {
    type V = Seq<Seq<Seq<char>>>;

    open spec fn deep_view(&self) -> Seq<Seq<Seq<char>>> {
        self.frames.deep_view()
    }
}

/// The width of a sprite: that of the first row of its first frame.
pub open spec fn grid_width(frames: Seq<Seq<Seq<char>>>) -> nat {
    if frames.len() == 0 || frames[0].len() == 0 {
        0
    } else {
        frames[0][0].len()
    }
}

/// The height of a sprite: that of its first frame.
pub open spec fn grid_height(frames: Seq<Seq<Seq<char>>>) -> nat {
    if frames.len() == 0 {
        0
    } else {
        frames[0].len()
    }
}

/// Which of `count` frames shows after `ms` milliseconds, at `millihertz`
/// thousandths of a frame per second.
pub open spec fn frame_index(count: nat, ms: nat, millihertz: nat) -> int {
    if count <= 1 || millihertz == 0 {
        0
    } else {
        (ms * millihertz / 1_000_000) as int % count as int
    }
}

impl Sprite {
    pub fn width(&self) -> (r: usize)
        ensures
            r == grid_width(self.deep_view()),
    {
        if self.frames.len() == 0 || self.frames[0].len() == 0 {
            return 0;
        }
        assert(self.deep_view()[0] == self.frames@[0].deep_view());
        assert(self.deep_view()[0][0] == self.frames@[0]@[0]@);
        chars_of(self.frames[0][0].as_str()).len()
    }

    pub fn height(&self) -> (r: usize)
        ensures
            r == grid_height(self.deep_view()),
    {
        if self.frames.len() == 0 {
            return 0;
        }
        assert(self.deep_view()[0] == self.frames@[0].deep_view());
        self.frames[0].len()
    }

    /// The frame that shows after `ms` milliseconds. Each frame lasts
    /// `1_000_000 / millihertz` milliseconds; at a rate of 0 the first one
    /// stays.
    pub fn frame(&self, ms: u64, millihertz: u64) -> (r: &Vec<String>)
        requires
            self.deep_view().len() > 0,
        ensures
            r.deep_view() == self.deep_view()[frame_index(
                self.deep_view().len(),
                ms as nat,
                millihertz as nat,
            )],
    {
        let n = self.frames.len();
        if n <= 1 || millihertz == 0 {
            assert(self.deep_view()[0] == self.frames@[0].deep_view());
            return &self.frames[0];
        }
        assert(ms * millihertz <= u64::MAX * u64::MAX) by (nonlinear_arith)
            requires
                ms <= u64::MAX,
                millihertz <= u64::MAX,
        ;
        let steps: u128 = (ms as u128 * millihertz as u128) / 1_000_000;
        let i: usize = (steps % (n as u128)) as usize;
        assert(self.deep_view()[i as int] == self.frames@[i as int].deep_view());
        &self.frames[i]
    }
}

/// A frame lasts its share of a second, and the cycle comes round after all
/// of them.
pub proof fn frames_cycle(count: nat, step: nat, frame_ms: nat)
    requires
        count > 0,
        frame_ms > 0,
        1_000_000nat % frame_ms == 0,
    ensures
        frame_index(count, step * frame_ms, 1_000_000nat / frame_ms) == step as int % count as int,
        frame_index(count, (step + count) * frame_ms, 1_000_000nat / frame_ms) == frame_index(
            count,
            step * frame_ms,
            1_000_000nat / frame_ms,
        ),
{
    let hz = 1_000_000nat / frame_ms;
    assert(hz * frame_ms == 1_000_000) by (nonlinear_arith)
        requires
            hz == 1_000_000nat / frame_ms,
            1_000_000nat % frame_ms == 0,
            frame_ms > 0,
    ;
    assert((step * frame_ms) * hz == step * 1_000_000) by (nonlinear_arith)
        requires
            hz * frame_ms == 1_000_000,
    ;
    assert(((step + count) * frame_ms) * hz == (step + count) * 1_000_000) by (nonlinear_arith)
        requires
            hz * frame_ms == 1_000_000,
    ;
    assert(hz > 0) by (nonlinear_arith)
        requires
            hz * frame_ms == 1_000_000,
    ;
    vstd::arithmetic::div_mod::lemma_mod_add_multiples_vanish(step as int, count as int);
    if count == 1 {
        assert(step as int % 1 == 0);
    }
}

/// A sprite of one frame, drawn by `art`.
fn still(art: &str) -> (r: Sprite)
    ensures
        r.deep_view() == seq![lines(art@)],
{
    let mut frames: Vec<Vec<String>> = Vec::new();
    frames.push(split_lines(art));
    assert(frames.deep_view() =~= seq![lines(art@)]);
    Sprite { frames }
}

/// The frames of the space lobster: rest, step left, step right.
pub open spec fn lobster_frames() -> Seq<Seq<Seq<char>>> {
    seq![lines(LOBSTER_IDLE@), lines(LOBSTER_LEFT@), lines(LOBSTER_RIGHT@)]
}

/// The space lobster, in which every chat agent and job is drawn.
pub fn lobster() -> (r: Sprite)
    ensures
        r.deep_view() == lobster_frames(),
{
    let mut frames: Vec<Vec<String>> = Vec::new();
    frames.push(split_lines(LOBSTER_IDLE));
    frames.push(split_lines(LOBSTER_LEFT));
    frames.push(split_lines(LOBSTER_RIGHT));
    assert(frames.deep_view() =~= lobster_frames());
    Sprite { frames }
}

/// The CRT monitor, in which a channel is drawn.
pub fn monitor() -> (r: Sprite)
    ensures
        r.deep_view() == seq![lines(MONITOR@)],
{
    still(MONITOR)
}

/// The art of the decor of a room.
pub open spec fn decor_art(room: RoomId) -> Seq<char> {
    match room {
        RoomId::Observatory => TELESCOPE@,
        RoomId::CommandHq => CONSOLE@,
        RoomId::Security => CABINET@,
        RoomId::ResearchLab => BEAKERS@,
        RoomId::MemoryVault => ARCHIVE@,
        RoomId::Studio => MICROPHONE@,
    }
}

/// Picks the decor for a room. Every room has one.
pub fn decor_for_room(room: RoomId) -> (r: Option<Sprite>)
    ensures
        r.deep_view() == Some(seq![lines(decor_art(room))]),
{
    let art = match room {
        RoomId::Observatory => TELESCOPE,
        RoomId::CommandHq => CONSOLE,
        RoomId::Security => CABINET,
        RoomId::ResearchLab => BEAKERS,
        RoomId::MemoryVault => ARCHIVE,
        RoomId::Studio => MICROPHONE,
    };
    Some(still(art))
}

/// The frames in which an entry of a kind is drawn.
pub open spec fn frames_for(kind: AgentKind) -> Seq<Seq<Seq<char>>> {
    match kind {
        AgentKind::Main | AgentKind::Cron => lobster_frames(),
        AgentKind::Channel => seq![lines(MONITOR@)],
    }
}

/// Picks the template for an agent. Main and cron both render as space
/// lobsters, channel providers as CRT monitors.
pub fn sprite_for(agent: &Agent) -> (r: Sprite)
    ensures
        r.deep_view() == frames_for(agent.kind),
{
    match agent.kind {
        AgentKind::Main | AgentKind::Cron => lobster(),
        AgentKind::Channel => monitor(),
    }
}

/// The palette role of a painted cell.
#[derive(Debug, Clone, Copy, PartialEq, Eq, Structural)]
pub enum Ink {
    Primary,
    Dim,
    Light,
    Outline,
}

/// The ink of a cell; none when it is transparent.
pub open spec fn ink_of(c: char) -> Option<Ink> {
    if c == 'X' {
        Some(Ink::Primary)
    } else if c == 'x' {
        Some(Ink::Dim)
    } else if c == 'W' {
        Some(Ink::Light)
    } else if c == 'K' {
        Some(Ink::Outline)
    } else {
        None
    }
}

/// A painted cell: where it is drawn, and in which ink.
#[derive(Debug, Clone, Copy, PartialEq, Eq, Structural)]
pub struct Cell {
    pub row: usize,
    pub col: usize,
    pub ink: Ink,
}

impl DeepView for Cell {
    type V = Cell;

    open spec fn deep_view(&self) -> Cell {
        *self
    }
}

/// Where the column `col` of a sprite of width `width` is drawn: mirrored when
/// it is flipped. What lies beyond the width is drawn in the first column.
pub open spec fn drawn_column(width: nat, col: nat, flip: bool) -> nat {
    if !flip {
        col
    } else if col < width {
        (width - 1 - col) as nat
    } else {
        0
    }
}

/// The first `n` cells of a row that are painted.
pub open spec fn row_cells(row: Seq<char>, at: nat, width: nat, flip: bool, n: nat) -> Seq<Cell>
    decreases n,
{
    if n == 0 {
        Seq::empty()
    } else {
        let before = row_cells(row, at, width, flip, (n - 1) as nat);
        match ink_of(row[n - 1]) {
            Some(ink) => before.push(
                Cell {
                    row: at as usize,
                    col: drawn_column(width, (n - 1) as nat, flip) as usize,
                    ink,
                },
            ),
            None => before,
        }
    }
}

/// The painted cells of the first `n` rows.
pub open spec fn frame_cells(rows: Seq<Seq<char>>, width: nat, flip: bool, n: nat) -> Seq<Cell>
    decreases n,
{
    if n == 0 {
        Seq::empty()
    } else {
        frame_cells(rows, width, flip, (n - 1) as nat) + row_cells(
            rows[n - 1],
            (n - 1) as nat,
            width,
            flip,
            rows[n - 1].len(),
        )
    }
}

/// The cells that a frame of a sprite of width `width` paints, row by row.
/// Flipping mirrors the frame, so that a sprite that walks back needs no
/// second set of frames.
pub fn painted_cells(rows: &Vec<String>, width: usize, flip: bool) -> (r: Vec<Cell>)
    ensures
        r.deep_view() == frame_cells(rows.deep_view(), width as nat, flip, rows@.len()),
{
    let mut out: Vec<Cell> = Vec::new();
    assert(out.deep_view() =~= Seq::empty());
    let ghost all = rows.deep_view();
    let mut i: usize = 0;
    while i < rows.len()
        invariant
            all == rows.deep_view(),
            i <= rows@.len(),
            out.deep_view() == frame_cells(all, width as nat, flip, i as nat),
        decreases rows@.len() - i,
    {
        let chars = chars_of(rows[i].as_str());
        let ghost before = out.deep_view();
        let ghost row = all[i as int];
        assert(row == chars@);
        let mut k: usize = 0;
        assert(before + row_cells(row, i as nat, width as nat, flip, 0) =~= before);
        while k < chars.len()
            invariant
                row == chars@,
                k <= chars@.len(),
                out.deep_view() == before + row_cells(row, i as nat, width as nat, flip, k as nat),
            decreases chars@.len() - k,
        {
            let c = chars[k];
            let ink = if c == 'X' {
                Some(Ink::Primary)
            } else if c == 'x' {
                Some(Ink::Dim)
            } else if c == 'W' {
                Some(Ink::Light)
            } else if c == 'K' {
                Some(Ink::Outline)
            } else {
                None
            };
            if let Some(ink) = ink {
                let col = if !flip {
                    k
                } else if k < width {
                    width - 1 - k
                } else {
                    0
                };
                push_to(&mut out, Cell { row: i, col, ink });
            }
            assert(out.deep_view() =~= before + row_cells(
                row,
                i as nat,
                width as nat,
                flip,
                (k + 1) as nat,
            ));
            k = k + 1;
        }
        i = i + 1;
    }
    out
}

/// Flipping twice puts a column back where it was.
pub proof fn flipping_twice(width: nat, col: nat)
    requires
        col < width,
    ensures
        drawn_column(width, drawn_column(width, col, true), true) == col,
        drawn_column(width, col, true) < width,
{
}

/// The row on which a scanline runs after `ms` milliseconds, two rows a
/// second down the screen from `first` to before `end`; none where there is no
/// row.
pub fn scanline_row(ms: u64, first: usize, end: usize) -> (r: Option<usize>)
    ensures
        match r {
            Some(row) => first < end && row == first + (ms as int * 2 / 1000) % (end - first)
                && first <= row < end,
            None => end <= first,
        },
{
    if end <= first {
        return None;
    }
    let span: u128 = (end - first) as u128;
    let steps: u128 = ms as u128 * 2 / 1000;
    Some(first + (steps % span) as usize)
}

} // verus!
