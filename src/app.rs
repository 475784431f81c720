use vstd::prelude::*;

use crate::listing::{build_listing, header_len, is_listing_of, DirEntryInfo, Row};
use vstd::string::{StrSliceExecFns, StringExecFns};
use crate::nav::{max_col, min, NavState};
use crate::position::Position;

verus! {

/// Terminal rows below the listing, kept for the status line.
pub const BOTTOM_RESERVED: u16 = 3;

/// The smallest terminal width and height the browser works with.
pub const MIN_SIZE: u16 = 5;

/// Columns of padding to the left of the listing.
pub const LEFT_SIDE_PADDING: u16 = 0;

/// A key command's pending first key.
#[allow(non_camel_case_types)]
#[derive(Clone, Copy, Debug, PartialEq, Eq, Structural)]
pub enum Prefix {
    f,
    F,
    g,
    t,
    T,
    z,
    Unset,
}

/// What has been typed of a command so far: a repeat count and a prefix key.
#[derive(Clone, Copy, Debug, PartialEq, Eq, Structural)]
pub struct CommandState {
    pub number: Option<u32>,
    pub prefix: Prefix,
}

/// An input event, as the browser reads it.
#[derive(Clone, Copy, Debug, PartialEq, Eq, Structural)]
pub enum Key {
    Char(char),
    Enter,
    Esc,
    /// The terminal now has this many columns and rows.
    Resize(u16, u16),
    Other,
}

/// A move that a repeat count applies to.
#[derive(Clone, Copy, Debug, PartialEq, Eq, Structural)]
pub enum Move {
    Left,
    Down,
    Up,
    Right,
}

/// What the caller does after an event has been handled.
#[derive(Clone, Debug)]
pub enum Action {
    /// Redraw and read the next event.
    Continue,
    /// Set the terminal to this many columns and rows, redraw, read on.
    ForceSize(u16, u16),
    /// Activate this path: enter it if it is a directory, else open it.
    Select(String),
    /// End the session and report this directory.
    Quit(String),
}

pub open spec fn apply_move(s: NavState, m: Move) -> NavState {
    match m {
        Move::Left => s.left(),
        Move::Down => s.down(),
        Move::Up => s.up(),
        Move::Right => s.right(),
    }
}

/// `m` applied `n` times to `s`.
pub open spec fn repeat_move(s: NavState, m: Move, n: nat) -> NavState
    decreases n,
{
    if n == 0 {
        s
    } else {
        apply_move(repeat_move(s, m, (n - 1) as nat), m)
    }
}

/// How many times a move runs under a pending count.
pub open spec fn times(number: Option<u32>) -> nat {
    match number {
        Some(n) => n as nat,
        Option::None => 1,
    }
}

pub open spec fn is_digit(c: char) -> bool {
    '0' <= c <= '9'
}

pub open spec fn digit_value(c: char) -> u32 {
    (c as u32 - '0' as u32) as u32
}

/// The count after typing digit `d`; it saturates at `u32::MAX`.
pub open spec fn pushed(number: Option<u32>, d: u32) -> Option<u32> {
    let n: int = match number {
        Some(n) => n * 10 + d,
        Option::None => d as int,
    };
    Some(if n > u32::MAX { u32::MAX } else { n as u32 })
}

/// The size to force the terminal to, where it is below the minimum.
pub open spec fn forced_size(width: u16, height: u16) -> Option<(u16, u16)> {
    if width < MIN_SIZE || height < MIN_SIZE {
        Some((if width < MIN_SIZE { MIN_SIZE } else { width }, if height < MIN_SIZE { MIN_SIZE } else { height }))
    } else {
        Option::None
    }
}

pub open spec fn clamped_rows(height: u16) -> u16 {
    if height < MIN_SIZE { MIN_SIZE } else { height }
}

/// The command state after `key`.
pub open spec fn command_after(cs: CommandState, key: Key) -> CommandState {
    let cleared = CommandState { number: Option::None, prefix: Prefix::Unset };
    match key {
        Key::Char(c) => if is_digit(c) {
            if c == '0' && cs.number is None {
                cs
            } else {
                CommandState { number: pushed(cs.number, digit_value(c)), ..cs }
            }
        } else if c == 'g' {
            if cs.prefix == Prefix::g { cleared } else { CommandState { prefix: Prefix::g, ..cs } }
        } else if c == 'G' || c == 'H' || c == 'M' || c == 'L' || c == 'h' || c == 'j' || c == 'k'
            || c == 'l' {
            cleared
        } else if c == ' ' {
            cs
        } else {
            CommandState { prefix: Prefix::Unset, ..cs }
        },
        Key::Enter => cleared,
        Key::Esc => cs,
        Key::Resize(_, _) => cs,
        Key::Other => CommandState { prefix: Prefix::Unset, ..cs },
    }
}

/// The viewport after `key`, with `cs` the command state before it.
pub open spec fn nav_after(s: NavState, cs: CommandState, key: Key) -> NavState {
    match key {
        Key::Char(c) => if c == 'g' && cs.prefix == Prefix::g {
            s.first_line()
        } else if c == 'G' {
            s.last_line()
        } else if c == 'H' {
            s.top()
        } else if c == 'M' {
            s.middle()
        } else if c == 'L' {
            s.bottom()
        } else if c == 'h' {
            repeat_move(s, Move::Left, times(cs.number))
        } else if c == 'j' {
            repeat_move(s, Move::Down, times(cs.number))
        } else if c == 'k' {
            repeat_move(s, Move::Up, times(cs.number))
        } else if c == 'l' {
            repeat_move(s, Move::Right, times(cs.number))
        } else {
            s
        },
        Key::Resize(_, h) => s.resized(clamped_rows(h) - BOTTOM_RESERVED),
        _ => s,
    }
}

impl CommandState {
    /// Appends decimal digit `digit` to the count.
    pub fn push(&mut self, digit: u32)
        requires
            digit < 10,
        ensures
            final(self).number == pushed(old(self).number, digit),
            final(self).prefix == old(self).prefix,
    {
        let n: u32 = match self.number {
            Some(n) => if n > (u32::MAX - digit) / 10 {
                u32::MAX
            } else {
                n * 10 + digit
            },
            Option::None => digit,
        };
        self.number = Some(n);
    }
}

impl Default for CommandState {
    fn default() -> (cs: CommandState)
        ensures
            cs.number is None,
            cs.prefix == Prefix::Unset,
    {
        CommandState { number: Option::None, prefix: Prefix::Unset }
    }
}

/// What to do with a selected file.
#[derive(Clone, Copy, Debug, PartialEq, Eq, Structural)]
pub enum FileAction {
    /// Leave it alone.
    Ignore,
    /// Start it as a process of its own.
    Run,
    /// Hand it to the platform's default application.
    Open,
}

/// The suffix that marks a desktop-entry metadata file.
pub open spec fn desktop_suffix() -> Seq<char> {
    seq!['.', 'd', 'e', 's', 'k', 't', 'o', 'p']
}

/// Whether `name` is that of a desktop-entry metadata file: it ends in `.desktop`.
pub open spec fn is_desktop_entry(name: Seq<char>) -> bool {
    name.len() >= 8 && name.subrange(name.len() - 8, name.len() as int) == desktop_suffix()
}

/// What selecting the file named `name` does: nothing for a desktop-entry
/// file, else it is run where it is executable and opened where it is not.
pub fn file_action(name: &String, executable: bool) -> (a: FileAction)
    ensures
        a == (if is_desktop_entry(name@) {
            FileAction::Ignore
        } else if executable {
            FileAction::Run
        } else {
            FileAction::Open
        }),
{
    proof {
        reveal_strlit(".desktop");
    }
    let suffix = ".desktop";
    assert(suffix@ =~= desktop_suffix());
    let s = name.as_str();
    let len = s.unicode_len();
    let mut desktop = len >= 8;
    if desktop {
        let start = len - 8;
        let mut k: usize = 0;
        while k < 8
            invariant
                len == name@.len(),
                len >= 8,
                start == len - 8,
                s@ == name@,
                suffix@ == desktop_suffix(),
                k <= 8,
                desktop == (forall|j: int| 0 <= j < k ==> name@[start + j] == desktop_suffix()[j]),
            decreases 8 - k,
        {
            if s.get_char(start + k) != suffix.get_char(k) {
                desktop = false;
            }
            k = k + 1;
        }
        assert(desktop == (name@.subrange(start as int, len as int) =~= desktop_suffix()));
    }
    if desktop {
        FileAction::Ignore
    } else if executable {
        FileAction::Run
    } else {
        FileAction::Open
    }
}

/// The key that a pending prefix shows in the status line.
pub open spec fn prefix_label(p: Prefix) -> Seq<char> {
    match p {
        Prefix::f => seq!['f'],
        Prefix::F => seq!['F'],
        Prefix::g => seq!['g'],
        Prefix::t => seq!['t'],
        Prefix::T => seq!['T'],
        Prefix::z => seq!['z'],
        Prefix::Unset => Seq::<char>::empty(),
    }
}

pub open spec fn decimal_digits() -> Seq<char> {
    seq!['0', '1', '2', '3', '4', '5', '6', '7', '8', '9']
}

/// `n` written in decimal, without leading zeros.
pub open spec fn decimal(n: nat) -> Seq<char>
    decreases n,
{
    if n < 10 {
        seq![decimal_digits()[n as int]]
    } else {
        decimal(n / 10) + seq![decimal_digits()[(n % 10) as int]]
    }
}

/// The status-line text of a command state: the count, the prefix key,
/// then ten spaces.
pub open spec fn status_text_of(cs: CommandState) -> Seq<char> {
    let count = match cs.number {
        Some(n) => decimal(n as nat),
        Option::None => Seq::<char>::empty(),
    };
    count + prefix_label(cs.prefix) + Seq::new(10, |i: int| ' ')
}

/// Appends `n` in decimal to `s`.
fn append_decimal(s: &mut String, n: u32)
    ensures
        final(s)@ == old(s)@ + decimal(n as nat),
    decreases n,
{
    if n >= 10 {
        append_decimal(s, n / 10);
    }
    proof {
        reveal_strlit("0123456789");
    }
    let digits = "0123456789";
    assert(digits@ =~= decimal_digits());
    let d = (n % 10) as usize;
    let digit = digits.substring_char(d, d + 1);
    assert(digit@ =~= seq![decimal_digits()[d as int]]);
    s.append(digit);
    assert(s@ =~= old(s)@ + decimal(n as nat));
}

impl CommandState {
    /// What the status line shows of the command typed so far.
    pub fn status_text(&self) -> (s: String)
        ensures
            s@ == status_text_of(*self),
    {
        let mut s = String::new();
        match self.number {
            Some(n) => append_decimal(&mut s, n),
            Option::None => {},
        }
        s.append(self.prefix.label());
        proof {
            reveal_strlit("          ");
        }
        s.append("          ");
        assert(s@ =~= status_text_of(*self));
        s
    }
}

impl Prefix {
    /// The key that a pending prefix shows in the status line.
    pub fn label(&self) -> (s: &'static str)
        ensures
            s@ == prefix_label(*self),
    {
        proof {
            reveal_strlit("f");
            reveal_strlit("F");
            reveal_strlit("g");
            reveal_strlit("t");
            reveal_strlit("T");
            reveal_strlit("z");
            reveal_strlit("");
        }
        match self {
            Prefix::f => "f",
            Prefix::F => "F",
            Prefix::g => "g",
            Prefix::t => "t",
            Prefix::T => "T",
            Prefix::z => "z",
            Prefix::Unset => "",
        }
    }
}

/// The screen row the cursor starts on in a new listing.
pub const START_ROW: u16 = 3;

/// The cursor's starting row: `START_ROW`, or less where the window or the
/// listing is shorter.
pub open spec fn start_row(rows: u16, len: int) -> int {
    min(min(START_ROW as int, rows - BOTTOM_RESERVED - 1), len - 1)
}

/// The browser: the listing of the current directory and the viewport over it.
pub struct App {
    pub buffer: Vec<Row>,
    pub cd: String,
    pub output: String,
    pub index: usize,
    pub stored_position: Position,
    pub cursor_position: Position,
    pub command_state: CommandState,
    /// The terminal's height in rows.
    pub rows: u16,
}

/// The largest column on a row of width `width`.
pub fn max_col_of(width: usize) -> (r: u16)
    ensures
        r as int == max_col(width as nat),
{
    if width == 0 {
        0
    } else if width - 1 > u16::MAX as usize {
        u16::MAX
    } else {
        (width - 1) as u16
    }
}

impl App {
    pub open spec fn widths(self) -> Seq<nat> {
        Seq::new(self.buffer@.len(), |i: int| self.buffer@[i].width as nat)
    }

    pub open spec fn view(self) -> NavState {
        NavState {
            widths: self.widths(),
            height: self.rows - BOTTOM_RESERVED,
            index: self.index as int,
            row: self.cursor_position.y as int,
            col: self.cursor_position.x as int,
            stored_col: self.stored_position.x as int,
        }
    }

    pub open spec fn wf(self) -> bool {
        &&& self.rows >= MIN_SIZE
        &&& self.buffer@.len() <= usize::MAX
        &&& self.stored_position.y == self.cursor_position.y
        &&& self.view().inv()
    }

    /// Everything but the viewport is as in `other`.
    pub open spec fn same_content(self, other: App) -> bool {
        &&& self.buffer == other.buffer
        &&& self.cd == other.cd
        &&& self.output == other.output
        &&& self.command_state == other.command_state
        &&& self.rows == other.rows
    }

    /// The number of listing rows the window shows.
    pub fn visible_height(&self) -> (h: u16)
        requires
            self.rows >= MIN_SIZE,
        ensures
            h == self.rows - BOTTOM_RESERVED,
    {
        self.rows - BOTTOM_RESERVED
    }

    /// Sets the cursor's column by the sticky-column rule, on the row it is on.
    fn reconcile_col(&mut self)
        requires
            old(self).index + old(self).cursor_position.y < old(self).buffer@.len(),
            old(self).buffer@.len() <= usize::MAX,
            old(self).cursor_position.x <= old(self).stored_position.x,
        ensures
            final(self).cursor_position.x == min(
                old(self).stored_position.x as int,
                max_col(old(self).buffer@[old(self).index + old(self).cursor_position.y].width as nat),
            ),
            final(self).cursor_position.y == old(self).cursor_position.y,
            final(self).stored_position == old(self).stored_position,
            final(self).index == old(self).index,
            final(self).same_content(*old(self)),
    {
        let col = self.cursor_position.col();
        let i = self.index + self.cursor_position.row() as usize;
        let max_col = max_col_of(self.buffer[i].width);
        let stored = self.stored_position.col();
        let sticky = if stored < max_col {
            stored
        } else {
            max_col
        };
        if max_col < col {
            self.cursor_position.set_col(max_col);
        } else if col < sticky {
            self.cursor_position.set_col(sticky);
        }
    }

    /// Moves the cursor one row down, scrolling at the bottom of the window;
    /// nothing happens on the last row of the listing.
    pub fn move_cursor_down(&mut self)
        requires
            old(self).wf(),
        ensures
            final(self).wf(),
            final(self).view() == old(self).view().down(),
            final(self).same_content(*old(self)),
    {
        let row = self.cursor_position.row();
        let n = self.buffer.len();
        if self.index + row as usize >= n - 1 {
            return;
        }
        if row >= self.visible_height() - 1 {
            self.index = self.index + 1;
        } else {
            self.stored_position.set_row(row + 1);
            self.cursor_position.move_down();
        }
        self.reconcile_col();
        assert(self.view().widths =~= old(self).view().widths);
    }

    /// Moves the cursor one row up, scrolling at the top of the window;
    /// nothing happens on the first row of the listing.
    pub fn move_cursor_up(&mut self)
        requires
            old(self).wf(),
        ensures
            final(self).wf(),
            final(self).view() == old(self).view().up(),
            final(self).same_content(*old(self)),
    {
        let row = self.cursor_position.row();
        if self.index + row as usize == 0 {
            return;
        }
        if row == 0 {
            self.index = self.index - 1;
        } else {
            self.stored_position.set_row(row - 1);
            self.cursor_position.move_up();
        }
        self.reconcile_col();
        assert(self.view().widths =~= old(self).view().widths);
    }

    /// Moves the cursor one column left, and remembers that column.
    pub fn move_cursor_left(&mut self)
        requires
            old(self).wf(),
        ensures
            final(self).wf(),
            final(self).view() == old(self).view().left(),
            final(self).same_content(*old(self)),
    {
        let col = self.cursor_position.col();
        if col == 0 {
            return;
        }
        self.stored_position.set_col(col - 1);
        self.cursor_position.move_left();
        assert(self.view().widths =~= old(self).view().widths);
    }

    /// Moves the cursor one column right within the row, and remembers that column.
    pub fn move_cursor_right(&mut self)
        requires
            old(self).wf(),
        ensures
            final(self).wf(),
            final(self).view() == old(self).view().right(),
            final(self).same_content(*old(self)),
    {
        let col = self.cursor_position.col();
        let i = self.index + self.cursor_position.row() as usize;
        if col >= max_col_of(self.buffer[i].width) {
            return;
        }
        self.stored_position.set_col(col + 1);
        self.cursor_position.move_right();
        assert(self.view().widths =~= old(self).view().widths);
    }

    /// Puts the cursor on screen row `row` with scroll offset `index`.
    fn place(&mut self, index: usize, row: u16)
        requires
            old(self).wf(),
            row < old(self).rows - BOTTOM_RESERVED,
            index + row < old(self).buffer@.len(),
        ensures
            final(self).wf(),
            final(self).view() == old(self).view().placed(index as int, row as int),
            final(self).same_content(*old(self)),
    {
        self.index = index;
        self.stored_position.set_row(row);
        self.cursor_position.set_row(row);
        self.reconcile_col();
        assert(self.view().widths =~= old(self).view().widths);
    }

    /// Jumps to the first row of the listing.
    pub fn move_cursor_to_first_line(&mut self)
        requires
            old(self).wf(),
        ensures
            final(self).wf(),
            final(self).view() == old(self).view().first_line(),
            final(self).same_content(*old(self)),
    {
        self.place(0, 0);
    }

    /// Jumps to the last row of the listing, scrolling so that it is the
    /// window's last row where the listing does not fit the window.
    pub fn move_cursor_to_last_line(&mut self)
        requires
            old(self).wf(),
        ensures
            final(self).wf(),
            final(self).view() == old(self).view().last_line(),
            final(self).same_content(*old(self)),
    {
        let height = self.visible_height();
        let n = self.buffer.len();
        if n <= height as usize {
            self.place(0, (n - 1) as u16);
        } else {
            self.place(n - height as usize, height - 1);
        }
    }

    /// Moves the cursor to screen row `row` of the current window, or to the
    /// listing's last row where the window reaches past it.
    fn move_cursor_to_screen_row(&mut self, row: u16)
        requires
            old(self).wf(),
            row < old(self).rows - BOTTOM_RESERVED,
        ensures
            final(self).wf(),
            final(self).view() == old(self).view().to_screen_row(row as int),
            final(self).same_content(*old(self)),
    {
        let n = self.buffer.len();
        let target = if (row as usize) < n - 1 - self.index {
            self.index + row as usize
        } else {
            n - 1
        };
        self.place(self.index, (target - self.index) as u16);
    }

    /// Moves the cursor to the top row of the window.
    pub fn move_cursor_to_top(&mut self)
        requires
            old(self).wf(),
        ensures
            final(self).wf(),
            final(self).view() == old(self).view().top(),
            final(self).same_content(*old(self)),
    {
        self.move_cursor_to_screen_row(0);
    }

    /// Moves the cursor to the middle row of the window.
    pub fn move_cursor_to_middle(&mut self)
        requires
            old(self).wf(),
        ensures
            final(self).wf(),
            final(self).view() == old(self).view().middle(),
            final(self).same_content(*old(self)),
    {
        let height = self.visible_height();
        self.move_cursor_to_screen_row(height / 2);
    }

    /// Moves the cursor to the bottom row of the window.
    pub fn move_cursor_to_bottom(&mut self)
        requires
            old(self).wf(),
        ensures
            final(self).wf(),
            final(self).view() == old(self).view().bottom(),
            final(self).same_content(*old(self)),
    {
        let height = self.visible_height();
        self.move_cursor_to_screen_row(height - 1);
    }

    /// Runs `m` as many times as the pending count says (once where there
    /// is none), then drops the count.
    pub fn loop_fn(&mut self, m: Move)
        requires
            old(self).wf(),
        ensures
            final(self).wf(),
            final(self).view() == repeat_move(old(self).view(), m, times(old(self).command_state.number)),
            final(self).command_state == (CommandState { number: Option::None, ..old(self).command_state }),
            final(self).buffer == old(self).buffer,
            final(self).cd == old(self).cd,
            final(self).output == old(self).output,
            final(self).rows == old(self).rows,
    {
        let n: u32 = match self.command_state.number {
            Some(n) => n,
            Option::None => 1,
        };
        let mut i: u32 = 0;
        while i < n
            invariant
                i <= n,
                n == times(old(self).command_state.number),
                self.wf(),
                self.view() == repeat_move(old(self).view(), m, i as nat),
                self.same_content(*old(self)),
            decreases n - i,
        {
            match m {
                Move::Left => self.move_cursor_left(),
                Move::Down => self.move_cursor_down(),
                Move::Up => self.move_cursor_up(),
                Move::Right => self.move_cursor_right(),
            }
            i = i + 1;
        }
        self.command_state.number = Option::None;
    }

    /// Takes the terminal's new size: the window shows the new number of
    /// rows (the height raised to the minimum) and the cursor stays on its
    /// row where that row is still on screen, else on the last one. Returns
    /// the size the terminal has to be set to, where it is below the minimum.
    pub fn window_resize(&mut self, width: u16, height: u16) -> (forced: Option<(u16, u16)>)
        requires
            old(self).wf(),
        ensures
            final(self).wf(),
            forced == forced_size(width, height),
            final(self).view() == old(self).view().resized(clamped_rows(height) - BOTTOM_RESERVED),
            final(self).rows == clamped_rows(height),
            final(self).buffer == old(self).buffer,
            final(self).cd == old(self).cd,
            final(self).output == old(self).output,
            final(self).command_state == old(self).command_state,
    {
        let resized_width = if width < MIN_SIZE { MIN_SIZE } else { width };
        let resized_height = if height < MIN_SIZE { MIN_SIZE } else { height };
        let forced = if width < MIN_SIZE || height < MIN_SIZE {
            Some((resized_width, resized_height))
        } else {
            Option::None
        };
        self.rows = resized_height;
        let last = resized_height - BOTTOM_RESERVED - 1;
        let row = self.cursor_position.row();
        let row = if row < last { row } else { last };
        self.stored_position.set_row(row);
        self.cursor_position.set_row(row);
        self.reconcile_col();
        assert(self.view().widths =~= old(self).view().widths);
        forced
    }

    /// Handles one input event: digits build a count, `g` arms or completes
    /// `gg`, `G`/`H`/`M`/`L` jump, `h`/`j`/`k`/`l` move (count times), Enter
    /// selects the row under the cursor, Space ends with the current
    /// directory, Escape with the one the session started in, and a resize
    /// reconciles the viewport. Any other key drops a pending prefix.
    pub fn handle_key(&mut self, key: Key) -> (action: Action)
        requires
            old(self).wf(),
        ensures
            final(self).wf(),
            final(self).command_state == command_after(old(self).command_state, key),
            final(self).view() == nav_after(old(self).view(), old(self).command_state, key),
            final(self).buffer == old(self).buffer,
            final(self).cd == old(self).cd,
            final(self).rows == (match key {
                Key::Resize(_, h) => clamped_rows(h),
                _ => old(self).rows,
            }),
            key == Key::Char(' ') ==> final(self).output == old(self).cd && action == Action::Quit(
                old(self).cd,
            ),
            key != Key::Char(' ') ==> final(self).output == old(self).output,
            key == Key::Esc ==> action == Action::Quit(old(self).output),
            key == Key::Enter ==> action == (match old(self).buffer@[old(self).view().current()].target {
                Some(p) => Action::Select(p),
                Option::None => Action::Continue,
            }),
            (match key {
                Key::Resize(w, h) => action == (match forced_size(w, h) {
                    Some((fw, fh)) => Action::ForceSize(fw, fh),
                    Option::None => Action::Continue,
                }),
                Key::Char(c) => c != ' ' ==> action == Action::Continue,
                Key::Other => action == Action::Continue,
                _ => true,
            }),
    {
        match key {
            Key::Char(c) => {
                if '0' <= c && c <= '9' {
                    if !(c == '0' && self.command_state.number.is_none()) {
                        self.command_state.push((c as u32) - ('0' as u32));
                    }
                } else if c == 'g' {
                    if self.command_state.prefix == Prefix::g {
                        self.move_cursor_to_first_line();
                        self.command_state = CommandState::default();
                    } else {
                        self.command_state.prefix = Prefix::g;
                    }
                } else if c == 'G' || c == 'H' || c == 'M' || c == 'L' {
                    if c == 'G' {
                        self.move_cursor_to_last_line();
                    } else if c == 'H' {
                        self.move_cursor_to_top();
                    } else if c == 'M' {
                        self.move_cursor_to_middle();
                    } else {
                        self.move_cursor_to_bottom();
                    }
                    self.command_state = CommandState::default();
                } else if c == 'h' || c == 'j' || c == 'k' || c == 'l' {
                    let m = if c == 'h' {
                        Move::Left
                    } else if c == 'j' {
                        Move::Down
                    } else if c == 'k' {
                        Move::Up
                    } else {
                        Move::Right
                    };
                    self.loop_fn(m);
                    self.command_state.prefix = Prefix::Unset;
                } else if c == ' ' {
                    self.output = self.cd.clone();
                    return Action::Quit(self.cd.clone());
                } else {
                    self.command_state.prefix = Prefix::Unset;
                }
                Action::Continue
            },
            Key::Enter => {
                self.command_state = CommandState::default();
                let i = self.index + self.cursor_position.row() as usize;
                match &self.buffer[i].target {
                    Some(p) => Action::Select(p.clone()),
                    Option::None => Action::Continue,
                }
            },
            Key::Esc => Action::Quit(self.output.clone()),
            Key::Resize(w, h) => match self.window_resize(w, h) {
                Some((fw, fh)) => Action::ForceSize(fw, fh),
                Option::None => Action::Continue,
            },
            Key::Other => {
                self.command_state.prefix = Prefix::Unset;
                Action::Continue
            },
        }
    }

    /// Puts the viewport at the top of the listing and the cursor on its
    /// starting row, in column 0.
    fn reset_view(&mut self)
        requires
            old(self).rows >= MIN_SIZE,
            old(self).buffer@.len() >= 1,
        ensures
            final(self).wf(),
            final(self).index == 0,
            final(self).cursor_position == (Position { x: 0, y: start_row(old(self).rows, old(self).buffer@.len() as int) as u16 }),
            final(self).stored_position == final(self).cursor_position,
            final(self).same_content(*old(self)),
    {
        let last = self.buffer.len() - 1;
        let mut row = START_ROW;
        if row > self.visible_height() - 1 {
            row = self.visible_height() - 1;
        }
        if row as usize > last {
            row = last as u16;
        }
        self.index = 0;
        self.cursor_position = Position::new(0, row);
        self.stored_position = Position::new(0, row);
    }

    /// A browser that starts in directory `cd`, whose parent is `parent` and
    /// whose entries are `entries`, on a terminal `rows` high (raised to the
    /// minimum). It reports `cd` unless told otherwise.
    pub fn new(cd: String, rows: u16, parent: Option<String>, entries: Vec<DirEntryInfo>) -> (app: App)
        ensures
            app.wf(),
            app.cd == cd,
            app.output == cd,
            app.rows == clamped_rows(rows),
            is_listing_of(app.buffer@, cd, parent, entries@),
            app.index == 0,
            app.cursor_position == (Position { x: 0, y: start_row(app.rows, app.buffer@.len() as int) as u16 }),
            app.stored_position == app.cursor_position,
            app.command_state == (CommandState { number: Option::None, prefix: Prefix::Unset }),
    {
        let buffer = build_listing(&cd, parent, entries);
        let mut app = App {
            buffer,
            output: cd.clone(),
            cd,
            index: 0,
            stored_position: Position::new(0, 0),
            cursor_position: Position::new(0, 0),
            command_state: CommandState::default(),
            rows: if rows < MIN_SIZE {
                MIN_SIZE
            } else {
                rows
            },
        };
        app.reset_view();
        app
    }

    /// Replaces the listing by that of the current directory, whose parent
    /// is `parent` and whose entries are `entries`.
    pub fn generate_buffer(&mut self, parent: Option<String>, entries: Vec<DirEntryInfo>)
        ensures
            is_listing_of(final(self).buffer@, old(self).cd, parent, entries@),
            final(self).buffer@.len() == header_len(parent) + entries@.len(),
            final(self).cd == old(self).cd,
            final(self).output == old(self).output,
            final(self).index == old(self).index,
            final(self).cursor_position == old(self).cursor_position,
            final(self).stored_position == old(self).stored_position,
            final(self).command_state == old(self).command_state,
            final(self).rows == old(self).rows,
    {
        self.buffer = build_listing(&self.cd, parent, entries);
    }

    /// Descends into directory `dir`, whose parent is `parent` and whose
    /// entries are `entries`: the listing is rebuilt and the viewport and
    /// cursor start over.
    pub fn enter_directory(&mut self, dir: String, parent: Option<String>, entries: Vec<DirEntryInfo>)
        requires
            old(self).wf(),
        ensures
            final(self).wf(),
            final(self).cd == dir,
            is_listing_of(final(self).buffer@, dir, parent, entries@),
            final(self).index == 0,
            final(self).cursor_position == (Position { x: 0, y: start_row(final(self).rows, final(self).buffer@.len() as int) as u16 }),
            final(self).stored_position == final(self).cursor_position,
            final(self).output == old(self).output,
            final(self).command_state == old(self).command_state,
            final(self).rows == old(self).rows,
    {
        self.cd = dir;
        self.generate_buffer(parent, entries);
        self.reset_view();
    }

    /// The row under the cursor.
    pub fn current_row(&self) -> (r: &Row)
        requires
            self.wf(),
        ensures
            *r == self.buffer@[self.view().current()],
    {
        &self.buffer[self.index + self.cursor_position.row() as usize]
    }
}

} // verus!
