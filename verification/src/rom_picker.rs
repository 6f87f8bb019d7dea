//! The list from which the player picks a game: which games it holds, which
//! one is selected and which part of it is on the screen.
use vstd::prelude::*;

verus! {

/// Rows of the list that fit on the screen.
pub const VISIBLE_ROWS: usize = 6;

/// The selection stays this many rows above the last visible row at least.
pub const SCROLL_MARGIN: usize = 5;

/// Horizontal padding of a row in pixels.
pub const X_PADDING: i32 = 20;

/// Vertical padding between rows in pixels.
pub const Y_PADDING: i32 = 7;

/// Height of the title bar and of a row in pixels.
pub const ROW_HEIGHT: i32 = 30;

/// The list of games. The names are file names without the `.gb` ending.
pub struct RomPickerState {
    pub games: Vec<String>,
    /// Index of the selected game.
    pub selected: usize,
    /// Index of the game in the first visible row.
    pub scroll: usize,
}

/// The model of a `RomPickerState`.
pub struct RomPickerView {
    pub games: Seq<Seq<char>>,
    pub selected: usize,
    pub scroll: usize,
}

impl View for RomPickerState {
    type V = RomPickerView;

    open spec fn view(&self) -> RomPickerView {
        RomPickerView {
            games: Seq::new(self.games@.len(), |i: int| self.games@[i]@),
            selected: self.selected,
            scroll: self.scroll,
        }
    }
}

/// What has to be drawn again after a key press.
#[derive(Clone, Copy, PartialEq, Eq, Structural, Debug)]
pub enum Redraw {
    /// Nothing has changed.
    Nothing,
    /// The selection has moved between the two given rows of the screen.
    Items(usize, usize),
    /// The list has scrolled.
    WholeList,
}

/// The smaller of two numbers.
pub fn min(x: usize, y: usize) -> (r: usize)
    ensures
        r <= x,
        r <= y,
        r == x || r == y,
{
    if x > y {
        y
    } else {
        x
    }
}

/// Whether `filename` ends in `.gb`.
pub open spec fn spec_is_game_file(filename: Seq<char>) -> bool {
    &&& filename.len() >= 3
    &&& filename[filename.len() - 3] == '.'
    &&& filename[filename.len() - 2] == 'g'
    &&& filename[filename.len() - 1] == 'b'
}

/// The name of the game in the file `filename`: the file name without its
/// ending `.gb`, if it has that ending.
pub open spec fn spec_game_name(filename: Seq<char>) -> Option<Seq<char>> {
    if spec_is_game_file(filename) {
        Some(filename.subrange(0, filename.len() - 3))
    } else {
        None
    }
}

/// The name of the game in the file `filename`, if it is a game file.
pub fn game_name(filename: &str) -> (r: Option<String>)
    ensures
        match r {
            Some(name) => spec_game_name(filename@) == Some(name@),
            None => spec_game_name(filename@).is_none(),
        },
{
    let len: usize = filename.unicode_len();
    if len >= 3 && filename.get_char(len - 3) == '.' && filename.get_char(len - 2) == 'g' && filename.get_char(
        len - 1,
    ) == 'b' {
        Some(filename.substring_char(0, len - 3).to_owned())
    } else {
        None
    }
}

impl RomPickerView {
    /// The selection is on the screen, at most four rows below the first one.
    pub open spec fn wf(self) -> bool {
        self.scroll <= self.selected <= self.scroll + SCROLL_MARGIN - 1
    }

    /// The list after the down key. The selection moves down unless it is on
    /// the last game; the list scrolls once the selection would pass row 4.
    pub open spec fn spec_press_down(self) -> RomPickerView {
        if self.selected + 1 >= self.games.len() {
            self
        } else if self.selected + 1 - self.scroll >= SCROLL_MARGIN {
            RomPickerView { selected: (self.selected + 1) as usize, scroll: (self.scroll + 1) as usize, ..self }
        } else {
            RomPickerView { selected: (self.selected + 1) as usize, ..self }
        }
    }

    /// What has to be drawn again after the down key.
    pub open spec fn spec_down_redraw(self) -> Redraw {
        if self.selected + 1 >= self.games.len() {
            Redraw::Nothing
        } else if self.selected + 1 - self.scroll >= SCROLL_MARGIN {
            Redraw::WholeList
        } else {
            Redraw::Items((self.selected + 1 - self.scroll) as usize, (self.selected - self.scroll) as usize)
        }
    }

    /// The list after the up key. The selection moves up unless it is on the
    /// first game; the list scrolls once the selection would leave the screen.
    pub open spec fn spec_press_up(self) -> RomPickerView {
        if self.selected == 0 {
            self
        } else if self.selected - 1 < self.scroll {
            RomPickerView { selected: (self.selected - 1) as usize, scroll: (self.scroll - 1) as usize, ..self }
        } else {
            RomPickerView { selected: (self.selected - 1) as usize, ..self }
        }
    }

    /// What has to be drawn again after the up key.
    pub open spec fn spec_up_redraw(self) -> Redraw {
        if self.selected == 0 {
            Redraw::Nothing
        } else if self.selected - 1 < self.scroll {
            Redraw::WholeList
        } else {
            Redraw::Items((self.selected - 1 - self.scroll) as usize, (self.selected - self.scroll) as usize)
        }
    }

    /// The file of the selected game, if the list holds any game.
    pub open spec fn spec_selected_path(self) -> Option<Seq<char>> {
        if self.selected < self.games.len() {
            Some(self.games[self.selected as int] + seq!['.', 'g', 'b'])
        } else {
            None
        }
    }

    /// The game shown in row `index` of the screen, if there is one.
    pub open spec fn spec_row_game(self, index: usize) -> Option<usize> {
        if index + self.scroll < self.games.len() {
            Some((index + self.scroll) as usize)
        } else {
            None
        }
    }
}

/// The top of row `index` of the screen in pixels: below the title bar, with
/// padding above every row.
pub open spec fn spec_row_top(index: usize) -> int {
    ROW_HEIGHT + ROW_HEIGHT * index + Y_PADDING * (index + 1)
}

/// The top of row `index` of the screen in pixels.
pub fn row_top(index: usize) -> (r: i32)
    requires
        index < VISIBLE_ROWS,
    ensures
        r == spec_row_top(index),
{
    let scrn_index: i32 = index as i32;
    ROW_HEIGHT + ROW_HEIGHT * scrn_index + Y_PADDING * (scrn_index + 1)
}

impl RomPickerState {
    /// The model is well formed.
    pub open spec fn wf(&self) -> bool {
        self@.wf()
    }

    /// An empty list.
    pub fn new() -> (r: RomPickerState)
        ensures
            r@ == (RomPickerView { games: Seq::<Seq<char>>::empty(), selected: 0, scroll: 0 }),
            r.wf(),
    {
        let r = RomPickerState { games: Vec::new(), selected: 0, scroll: 0 };
        assert(r@.games =~= Seq::<Seq<char>>::empty());
        r
    }

    /// Adds the game in the file `filename` to the list, if it is a game file,
    /// and says whether it was added.
    pub fn add_file(&mut self, filename: &str) -> (added: bool)
        ensures
            added == spec_is_game_file(filename@),
            final(self)@ == (RomPickerView {
                games: match spec_game_name(filename@) {
                    Some(name) => old(self)@.games.push(name),
                    None => old(self)@.games,
                },
                ..old(self)@
            }),
    {
        match game_name(filename) {
            Some(name) => {
                self.games.push(name);
                assert(self@.games =~= old(self)@.games.push(name@));
                true
            },
            None => false,
        }
    }

    /// The down key: moves the selection down and says what to draw again.
    pub fn press_down(&mut self) -> (r: Redraw)
        requires
            old(self).wf(),
        ensures
            final(self)@ == old(self)@.spec_press_down(),
            r == old(self)@.spec_down_redraw(),
            final(self).wf(),
    {
        if self.games.len() == 0 || self.selected >= self.games.len() - 1 {
            return Redraw::Nothing;
        }
        self.selected += 1;
        if self.selected - self.scroll >= SCROLL_MARGIN {
            self.scroll += 1;
            Redraw::WholeList
        } else {
            Redraw::Items(self.selected - self.scroll, self.selected - self.scroll - 1)
        }
    }

    /// The up key: moves the selection up and says what to draw again.
    pub fn press_up(&mut self) -> (r: Redraw)
        requires
            old(self).wf(),
        ensures
            final(self)@ == old(self)@.spec_press_up(),
            r == old(self)@.spec_up_redraw(),
            final(self).wf(),
    {
        if self.selected == 0 {
            return Redraw::Nothing;
        }
        self.selected -= 1;
        if self.selected < self.scroll {
            self.scroll -= 1;
            Redraw::WholeList
        } else {
            Redraw::Items(self.selected - self.scroll, self.selected - self.scroll + 1)
        }
    }

    /// The file of the selected game, if the list holds any game.
    pub fn selected_path(&self) -> (r: Option<String>)
        ensures
            match r {
                Some(path) => self@.spec_selected_path() == Some(path@),
                None => self@.spec_selected_path().is_none(),
            },
    {
        if self.selected < self.games.len() {
            let mut path: String = self.games[self.selected].clone();
            proof {
                reveal_strlit(".gb");
            }
            path.append(".gb");
            assert(path@ =~= self@.games[self.selected as int] + seq!['.', 'g', 'b']);
            Some(path)
        } else {
            None
        }
    }

    /// The number of rows that the list fills on the screen.
    pub fn visible_rows(&self) -> (r: usize)
        ensures
            r == (if self@.games.len() < VISIBLE_ROWS {
                self@.games.len()
            } else {
                VISIBLE_ROWS as nat
            }),
    {
        min(VISIBLE_ROWS, self.games.len())
    }

    /// Whether row `index` of the screen shows the selected game.
    pub fn row_is_selected(&self, index: usize) -> (r: bool)
        requires
            index < VISIBLE_ROWS,
            self.wf(),
        ensures
            r == (self.selected == index + self.scroll),
    {
        self.selected - self.scroll == index
    }

    /// The index of the game that row `index` of the screen shows, if there is
    /// one.
    pub fn row_game(&self, index: usize) -> (r: Option<usize>)
        requires
            index < VISIBLE_ROWS,
        ensures
            r == self@.spec_row_game(index),
    {
        if index < self.games.len() && self.scroll < self.games.len() - index {
            Some(index + self.scroll)
        } else {
            None
        }
    }
}

} // verus!
