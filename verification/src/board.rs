//! A two-player tic-tac-toe engine: a 3x3 board stored row-major,
//! coordinate parsing, mark placement, win and tie detection, and a
//! random opponent move.

use vstd::prelude::*;

verus! {

/// The content of one board cell: a mark of either player, or empty.
#[derive(Clone, Copy, PartialEq, Eq, Structural)]
pub enum BoardState {
    X,
    O,
    Empty,
}

/// The terminal classification of a game.
#[derive(Clone, Copy, PartialEq, Eq, Structural)]
pub enum GameResult {
    XWon,
    OWon,
    Tie,
    InProgress,
}

/// The mathematical model of a [`Game`]: the nine cells in row-major
/// order (index = row * 3 + column) and the cached outcome.
pub ghost struct GameView {
    pub board: Seq<BoardState>,
    pub winner: GameResult,
}

/// Relies on rand::Rng::gen_range on rand::thread_rng: it returns a
/// uniformly random value of the given range, and panics only on an
/// empty range, which `requires` rules out.
#[verifier::external_body]
fn random_below(n: usize) -> (r: usize)
    requires
        n > 0,
    ensures
        r < n,
{
    rand::Rng::gen_range(&mut rand::thread_rng(), 0..n)
}

/// How many of the first `n` cells of `b` are empty.
pub open spec fn num_empty(b: Seq<BoardState>, n: int) -> int
    decreases n,
{
    if n <= 0 {
        0
    } else {
        num_empty(b, n - 1) + if b[n - 1] == BoardState::Empty {
            1int
        } else {
            0int
        }
    }
}

/// The count of empty cells never falls below zero.
proof fn lemma_num_empty_nonneg(b: Seq<BoardState>, n: int)
    ensures
        num_empty(b, n) >= 0,
    decreases n,
{
    if n > 0 {
        lemma_num_empty_nonneg(b, n - 1);
    }
}

/// An empty cell below `n` makes the count of empty cells up to `n`
/// exceed the count up to that cell.
proof fn lemma_empty_cell_counted(b: Seq<BoardState>, i: int, n: int)
    requires
        0 <= i < n,
        b[i] == BoardState::Empty,
    ensures
        num_empty(b, n) > num_empty(b, i),
    decreases n,
{
    if n > i + 1 {
        lemma_empty_cell_counted(b, i, n - 1);
    }
}

/// The column value of the first character of a location label:
/// `A`/`B`/`C` name columns 0/1/2; anything else fails the parse.
pub open spec fn col_value(c: Option<char>) -> Option<i32> {
    match c {
        Some('A') => Some(0),
        Some('B') => Some(1),
        Some('C') => Some(2),
        _ => None,
    }
}

/// The row offset of the second character of a location label:
/// `1`/`2`/`3` name rows 0/1/2, pre-multiplied by the row stride 3;
/// anything else fails the parse.
pub open spec fn row_offset(c: Option<char>) -> Option<i32> {
    match c {
        Some('1') => Some(0),
        Some('2') => Some(3),
        Some('3') => Some(6),
        _ => None,
    }
}

/// What parsing a location label yields: the cell index named by the
/// first two characters, or nothing if either is unrecognised or
/// missing. Characters beyond the first two are ignored.
pub open spec fn parse_spec(s: Seq<char>) -> Option<i32> {
    let c0 = if s.len() >= 1 { Some(s[0]) } else { None::<char> };
    let c1 = if s.len() >= 2 { Some(s[1]) } else { None::<char> };
    match (col_value(c0), row_offset(c1)) {
        (Some(col), Some(row)) => Some((col + row) as i32),
        _ => None,
    }
}

/// The text one cell contributes to the rendered board: the player's
/// mark, or a single space for an empty cell.
pub open spec fn cell_text(s: BoardState) -> Seq<char> {
    match s {
        BoardState::X => "X"@,
        BoardState::O => "O"@,
        BoardState::Empty => " "@,
    }
}

/// The label of row `r` (0 to 2), shown as 1 to 3.
pub open spec fn row_label(r: int) -> Seq<char> {
    if r == 0 {
        "1"@
    } else if r == 1 {
        "2"@
    } else {
        "3"@
    }
}

/// One data row of the rendered board: the row label, then the row's
/// three cells separated and enclosed by vertical rules.
pub open spec fn row_text(b: Seq<BoardState>, r: int) -> Seq<char> {
    row_label(r) + "│"@ + cell_text(b[3 * r]) + "│"@ + cell_text(b[3 * r + 1]) + "│"@ + cell_text(
        b[3 * r + 2],
    ) + "│\n"@
}

/// The full rendering of a board: the column header, the top rule, the
/// three data rows separated by cross-section rules, and the bottom
/// rule. A function of the nine cell values alone.
pub open spec fn render_text(b: Seq<BoardState>) -> Seq<char> {
    "  A B C \n"@ + " ┌─┬─┬─┐\n"@ + row_text(b, 0) + " ├─┼─┼─┤\n"@ + row_text(b, 1)
        + " ├─┼─┼─┤\n"@ + row_text(b, 2) + " └─┴─┴─┘\n"@
}

/// The text that names each recorded outcome: the winner's mark, with
/// "Nobody" covering both a tie and a game still in progress.
pub open spec fn winner_text(w: GameResult) -> Seq<char> {
    match w {
        GameResult::XWon => "X"@,
        GameResult::OWon => "O"@,
        GameResult::Tie => "Nobody"@,
        GameResult::InProgress => "Nobody"@,
    }
}

/// The outcome recorded for a winning mark; an empty "mark" never wins,
/// so it maps back to the in-progress outcome.
pub open spec fn result_for_mark(p: BoardState) -> GameResult {
    match p {
        BoardState::X => GameResult::XWon,
        BoardState::O => GameResult::OWon,
        BoardState::Empty => GameResult::InProgress,
    }
}

/// The owner of the line through cells `i`, `j`, `k`: the mark filling
/// all three, if one does.
pub open spec fn line_owner(b: Seq<BoardState>, i: int, j: int, k: int) -> Option<BoardState> {
    if b[i] != BoardState::Empty && b[i] == b[j] && b[i] == b[k] {
        Some(b[i])
    } else {
        None
    }
}

/// Whether player `p` holds three in a row somewhere: a full row,
/// a full column, or a full diagonal of `p` marks.
pub open spec fn has_win(b: Seq<BoardState>, p: BoardState) -> bool {
    p != BoardState::Empty && (
        line_owner(b, 0, 1, 2) == Some(p)
        || line_owner(b, 3, 4, 5) == Some(p)
        || line_owner(b, 6, 7, 8) == Some(p)
        || line_owner(b, 0, 3, 6) == Some(p)
        || line_owner(b, 1, 4, 7) == Some(p)
        || line_owner(b, 2, 5, 8) == Some(p)
        || line_owner(b, 0, 4, 8) == Some(p)
        || line_owner(b, 2, 4, 6) == Some(p)
    )
}

/// The winner reported by the fixed scan order: rows top to bottom,
/// then columns left to right, then the two diagonals. On a board that
/// holds several complete lines at once, the first in this order wins.
pub open spec fn first_line_winner(b: Seq<BoardState>) -> Option<BoardState> {
    if line_owner(b, 0, 1, 2) is Some {
        line_owner(b, 0, 1, 2)
    } else if line_owner(b, 3, 4, 5) is Some {
        line_owner(b, 3, 4, 5)
    } else if line_owner(b, 6, 7, 8) is Some {
        line_owner(b, 6, 7, 8)
    } else if line_owner(b, 0, 3, 6) is Some {
        line_owner(b, 0, 3, 6)
    } else if line_owner(b, 1, 4, 7) is Some {
        line_owner(b, 1, 4, 7)
    } else if line_owner(b, 2, 5, 8) is Some {
        line_owner(b, 2, 5, 8)
    } else if line_owner(b, 0, 4, 8) is Some {
        line_owner(b, 0, 4, 8)
    } else {
        line_owner(b, 2, 4, 6)
    }
}

/// Whether every one of the nine cells carries a mark.
pub open spec fn board_full(b: Seq<BoardState>) -> bool {
    forall|i: int| 0 <= i < 9 ==> b[i] != BoardState::Empty
}

/// Whether the game has ended: some complete line, or a full board.
pub open spec fn is_terminal(b: Seq<BoardState>) -> bool {
    first_line_winner(b) is Some || board_full(b)
}

/// The outcome the terminal scan assigns to a board: the first complete
/// line's owner wins; a full board without one is a tie; otherwise the
/// game is still in progress.
pub open spec fn outcome_of(b: Seq<BoardState>) -> GameResult {
    match first_line_winner(b) {
        Some(p) => result_for_mark(p),
        None => if board_full(b) {
            GameResult::Tie
        } else {
            GameResult::InProgress
        },
    }
}

impl BoardState {
    /// The cell's one-character text: the player's mark, or a space.
    pub fn to_string(&self) -> (s: String)
        ensures
            s@ == cell_text(*self),
    {
        match *self {
            BoardState::X => String::from_str("X"),
            BoardState::O => String::from_str("O"),
            BoardState::Empty => String::from_str(" "),
        }
    }
}

/// A tic-tac-toe game: nine cells in row-major order and the outcome
/// last computed by [`Game::check`].
pub struct Game {
    board: [BoardState; 9],
    winner: GameResult,
}

impl View for Game {
    type V = GameView;

    closed spec fn view(&self) -> GameView {
        GameView { board: self.board@, winner: self.winner }
    }
}

impl Game {
    /// A fresh game: every cell empty, outcome still in progress.
    pub fn new() -> (g: Game)
        ensures
            g@.board.len() == 9,
            forall|i: int| 0 <= i < 9 ==> g@.board[i] == BoardState::Empty,
            g@.winner == GameResult::InProgress,
    {
        Game {
            board: [
                BoardState::Empty,
                BoardState::Empty,
                BoardState::Empty,
                BoardState::Empty,
                BoardState::Empty,
                BoardState::Empty,
                BoardState::Empty,
                BoardState::Empty,
                BoardState::Empty,
            ],
            winner: GameResult::InProgress,
        }
    }

    /// Builds one data row of the rendered board.
    fn row_string(&self, r: usize) -> (s: String)
        requires
            r < 3,
        ensures
            s@ == row_text(self@.board, r as int),
    {
        let mut s = if r == 0 {
            String::from_str("1")
        } else if r == 1 {
            String::from_str("2")
        } else {
            String::from_str("3")
        };
        s.append("│");
        let c0 = self.board[3 * r].to_string();
        s.append(c0.as_str());
        s.append("│");
        let c1 = self.board[3 * r + 1].to_string();
        s.append(c1.as_str());
        s.append("│");
        let c2 = self.board[3 * r + 2].to_string();
        s.append(c2.as_str());
        s.append("│\n");
        s
    }

    /// The textual picture of the board: a 3x3 grid with column
    /// headers A to C, row labels 1 to 3 and box-drawing rules. Purely
    /// a function of the current cell contents.
    pub fn get_board(&self) -> (out: String)
        ensures
            out@ == render_text(self@.board),
    {
        let mut out = String::from_str("  A B C \n");
        out.append(" ┌─┬─┬─┐\n");
        let r0 = self.row_string(0);
        out.append(r0.as_str());
        out.append(" ├─┼─┼─┤\n");
        let r1 = self.row_string(1);
        out.append(r1.as_str());
        out.append(" ├─┼─┼─┤\n");
        let r2 = self.row_string(2);
        out.append(r2.as_str());
        out.append(" └─┴─┴─┘\n");
        out
    }

    fn parse_location_col(c: Option<char>) -> (r: Option<i32>)
        ensures
            r == col_value(c),
    {
        match c {
            Some('A') => Some(0),
            Some('B') => Some(1),
            Some('C') => Some(2),
            _ => None,
        }
    }

    fn parse_location_row(c: Option<char>) -> (r: Option<i32>)
        ensures
            r == row_offset(c),
    {
        match c {
            Some('1') => Some(0),
            Some('2') => Some(3),
            Some('3') => Some(6),
            _ => None,
        }
    }

    /// Parses a location on the game board.
    ///
    /// `location` specifies the location to place the mark on. The
    /// format of the location is (A|B|C)(1|2|3), for example A1 refers
    /// to the top left cell. Characters past the first two are ignored;
    /// anything else yields no value.
    pub fn parse_location(location: &String) -> (r: Option<i32>)
        ensures
            r == parse_spec(location@),
            r matches Some(i) ==> 0 <= i < 9,
    {
        let s = location.as_str();
        let n = s.unicode_len();
        let first = if n >= 1 {
            Some(s.get_char(0))
        } else {
            None
        };
        let second = if n >= 2 {
            Some(s.get_char(1))
        } else {
            None
        };
        let col = Game::parse_location_col(first);
        let row = Game::parse_location_row(second);
        match (col, row) {
            (Some(x), Some(y)) => Some(x + y),
            _ => None,
        }
    }

    /// Makes a mark (specified by `state`) on the board.
    pub fn mark(&mut self, location: i32, state: BoardState)
        requires
            0 <= location < 9,
        ensures
            final(self)@.board == old(self)@.board.update(location as int, state),
            final(self)@.winner == old(self)@.winner,
    {
        self.board[location as usize] = state;
    }

    fn set_winner(&mut self, winner: &BoardState)
        ensures
            final(self)@.board == old(self)@.board,
            final(self)@.winner == result_for_mark(*winner),
    {
        self.winner = match *winner {
            BoardState::X => GameResult::XWon,
            BoardState::O => GameResult::OWon,
            BoardState::Empty => GameResult::InProgress,
        };
    }

    /// Tests one line of the board; on a complete line, records its
    /// owner as the winner.
    fn try_line(&mut self, i: usize, j: usize, k: usize) -> (won: bool)
        requires
            i < 9,
            j < 9,
            k < 9,
        ensures
            final(self)@.board == old(self)@.board,
            won == (line_owner(old(self)@.board, i as int, j as int, k as int) is Some),
            final(self)@.winner == if won {
                result_for_mark(line_owner(old(self)@.board, i as int, j as int, k as int)->0)
            } else {
                old(self)@.winner
            },
    {
        let first = self.board[i];
        if first != BoardState::Empty && first == self.board[j] && first == self.board[k] {
            self.set_winner(&first);
            true
        } else {
            false
        }
    }

    /// Checks to see if the game has ended.
    ///
    /// Scans the three rows, then the three columns, then the two
    /// diagonals; the first complete line's owner is recorded as the
    /// winner. With no complete line, a fully occupied board is
    /// recorded as a tie. Returns whether the game is over; on a board
    /// still in progress the recorded outcome is left untouched.
    pub fn check(&mut self) -> (r: bool)
        ensures
            final(self)@.board == old(self)@.board,
            r == is_terminal(old(self)@.board),
            final(self)@.winner == if is_terminal(old(self)@.board) {
                outcome_of(old(self)@.board)
            } else {
                old(self)@.winner
            },
    {
        // Check horizontal.
        if self.try_line(0, 1, 2) {
            return true;
        }
        if self.try_line(3, 4, 5) {
            return true;
        }
        if self.try_line(6, 7, 8) {
            return true;
        }
        // Check vertical.
        if self.try_line(0, 3, 6) {
            return true;
        }
        if self.try_line(1, 4, 7) {
            return true;
        }
        if self.try_line(2, 5, 8) {
            return true;
        }
        // Check the two diagonals.
        if self.try_line(0, 4, 8) {
            return true;
        }
        if self.try_line(2, 4, 6) {
            return true;
        }
        // Check for tie.
        let mut i: usize = 0;
        while i < 9
            invariant
                i <= 9,
                self@.board == old(self)@.board,
                self@.winner == old(self)@.winner,
                first_line_winner(self@.board) is None,
                forall|j: int| 0 <= j < i ==> self@.board[j] != BoardState::Empty,
            decreases 9 - i,
        {
            if self.board[i] == BoardState::Empty {
                return false;
            }
            i += 1;
        }
        self.winner = GameResult::Tie;
        true
    }

    /// Places the automated opponent's mark on a uniformly random
    /// empty cell: the empty cells are counted, a rank below that
    /// count is drawn at random, and the empty cell of that rank
    /// receives the second player's mark. At least one cell must be
    /// empty, or there is nothing to draw from.
    pub fn take_turn(&mut self)
        requires
            exists|i: int| 0 <= i < 9 && old(self)@.board[i] == BoardState::Empty,
        ensures
            exists|i: int|
                0 <= i < 9 && old(self)@.board[i] == BoardState::Empty && final(self)@.board
                    == old(self)@.board.update(i, BoardState::O),
            final(self)@.winner == old(self)@.winner,
    {
        let mut count: usize = 0;
        let mut i: usize = 0;
        while i < 9
            invariant
                i <= 9,
                count <= i,
                *self == *old(self),
                count == num_empty(self@.board, i as int),
            decreases 9 - i,
        {
            if self.board[i] == BoardState::Empty {
                count += 1;
            }
            i += 1;
        }
        proof {
            let w = choose|i: int| 0 <= i < 9 && self@.board[i] == BoardState::Empty;
            lemma_num_empty_nonneg(self@.board, w);
            lemma_empty_cell_counted(self@.board, w, 9);
        }
        let rank = random_below(count);
        let mut seen: usize = 0;
        i = 0;
        while i < 9
            invariant
                i <= 9,
                *self == *old(self),
                seen == num_empty(self@.board, i as int),
                seen <= rank,
                rank < num_empty(self@.board, 9),
            decreases 9 - i,
        {
            if self.board[i] == BoardState::Empty {
                if seen == rank {
                    self.mark(i as i32, BoardState::O);
                    return;
                }
                seen += 1;
            }
            i += 1;
        }
        proof {
            assert(false);
        }
    }

    /// The text naming the recorded winner: the winning player's mark,
    /// or "Nobody" for a tie or a game still in progress.
    pub fn get_winner(&mut self) -> (r: &'static str)
        ensures
            *final(self) == *old(self),
            r@ == winner_text(old(self)@.winner),
    {
        match self.winner {
            GameResult::XWon => "X",
            GameResult::OWon => "O",
            _ => "Nobody",
        }
    }
}

/// Rendering is a pure function of the cell contents: two games whose
/// boards hold the same marks render to identical text, since
/// [`Game::get_board`] returns exactly `render_text` of the board.
pub proof fn lemma_rendering_is_pure(a: Game, b: Game)
    requires
        a@.board == b@.board,
    ensures
        render_text(a@.board) == render_text(b@.board),
{
}

/// A fully occupied board on which neither player holds three in a
/// row is terminal, and its outcome is a tie: [`Game::check`] returns
/// true on it and records `Tie`.
pub proof fn lemma_full_board_without_win_is_tie(b: Seq<BoardState>)
    requires
        b.len() == 9,
        board_full(b),
        !has_win(b, BoardState::X),
        !has_win(b, BoardState::O),
    ensures
        is_terminal(b),
        outcome_of(b) == GameResult::Tie,
{
    assert(first_line_winner(b) is None);
}

/// A board that is not full and on which neither player holds three
/// in a row is not terminal: [`Game::check`] returns false on it and
/// leaves the recorded outcome alone, and its outcome is still in
/// progress.
pub proof fn lemma_unfinished_board_is_in_progress(b: Seq<BoardState>)
    requires
        b.len() == 9,
        !board_full(b),
        !has_win(b, BoardState::X),
        !has_win(b, BoardState::O),
    ensures
        !is_terminal(b),
        outcome_of(b) == GameResult::InProgress,
{
    assert(first_line_winner(b) is None);
}

/// On a board with exactly one empty cell, any move that marks some
/// empty cell — such as the one [`Game::take_turn`] promises — lands
/// on exactly that cell.
pub proof fn lemma_single_empty_cell_is_taken(b: Seq<BoardState>, after: Seq<BoardState>, k: int)
    requires
        b.len() == 9,
        0 <= k < 9,
        b[k] == BoardState::Empty,
        forall|j: int| 0 <= j < 9 && j != k ==> b[j] != BoardState::Empty,
        exists|i: int|
            0 <= i < 9 && b[i] == BoardState::Empty && after == b.update(i, BoardState::O),
    ensures
        after == b.update(k, BoardState::O),
{
    let i = choose|i: int|
        0 <= i < 9 && b[i] == BoardState::Empty && after == b.update(i, BoardState::O);
    assert(i == k);
}

} // verus!
