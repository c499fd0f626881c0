//! The game board: the settled squares, fit checks, and row clearing.

use vstd::prelude::*;
use crate::grid::Grid;
use crate::tetromino::{FallingTetromino, Tetromino};

verus! {

/// The content of one square of the board: empty, or the tetromino that a
/// settled square came from.
pub type Cell = Option<Tetromino>;

/// A row without any settled square.
pub open spec fn empty_row() -> Seq<Cell> {
    Seq::new(Board::WIDTH as nat, |x: int| None::<Tetromino>)
}

/// Every square of the row is settled.
pub open spec fn is_complete(row: Seq<Cell>) -> bool {
    forall|x: int| 0 <= x < row.len() ==> (#[trigger] row[x]) is Some
}

/// A square at `cell` is inside the side walls and above the floor, and does
/// not overlap a settled square. Rows above the board count as open.
pub open spec fn admits(rows: Seq<Seq<Cell>>, cell: (int, int)) -> bool {
    let (x, y) = cell;
    &&& 0 <= x < Board::WIDTH
    &&& y < Board::HEIGHT
    &&& y >= 0 ==> rows[y][x] is None
}

/// All four squares of the tetromino are admitted.
pub open spec fn fits(rows: Seq<Seq<Cell>>, tetromino: FallingTetromino) -> bool {
    forall|i: int| 0 <= i < 4 ==> admits(rows, #[trigger] tetromino.cells()[i])
}

/// The number of complete rows among `rows`.
pub open spec fn count_complete(rows: Seq<Seq<Cell>>) -> nat
    decreases rows.len(),
{
    if rows.len() == 0 {
        0
    } else if is_complete(rows.last()) {
        count_complete(rows.drop_last()) + 1
    } else {
        count_complete(rows.drop_last())
    }
}

/// The rows that are not complete, in their order from top to bottom.
pub open spec fn surviving(rows: Seq<Seq<Cell>>) -> Seq<Seq<Cell>>
    decreases rows.len(),
{
    if rows.len() == 0 {
        Seq::empty()
    } else if is_complete(rows.last()) {
        surviving(rows.drop_last())
    } else {
        surviving(rows.drop_last()).push(rows.last())
    }
}

/// `count` empty rows.
pub open spec fn empty_rows(count: nat) -> Seq<Seq<Cell>> {
    Seq::new(count, |y: int| empty_row())
}

/// The rows after every complete row has been taken out and the rows above
/// it have moved down: the rows that are not complete keep their order and
/// sink to the bottom, and as many empty rows as were taken out fill the top.
pub open spec fn cleared(rows: Seq<Seq<Cell>>) -> Seq<Seq<Cell>> {
    empty_rows(count_complete(rows)) + surviving(rows)
}

/// The rows after the squares of `tetromino` have settled on them: every cell
/// that one of its squares covers holds its kind, every other cell is as
/// before. Squares above the top row cover no cell.
pub open spec fn placed(rows: Seq<Seq<Cell>>, tetromino: FallingTetromino) -> Seq<Seq<Cell>> {
    Seq::new(
        rows.len(),
        |y: int|
            Seq::new(
                rows[y].len(),
                |x: int|
                    if tetromino.cells().contains((x, y)) {
                        Some(tetromino.tetromino)
                    } else {
                        rows[y][x]
                    },
            ),
    )
}

/// The settled squares among the first `count` cells in row-major order, each
/// with its column, its row and the tetromino it came from.
pub open spec fn settled_among(rows: Seq<Seq<Cell>>, count: nat) -> Seq<(usize, usize, Tetromino)>
    decreases count,
{
    if count == 0 {
        Seq::empty()
    } else {
        let x = (count - 1) % (Board::WIDTH as int);
        let y = (count - 1) / (Board::WIDTH as int);
        match rows[y][x] {
            Some(tetromino) => settled_among(rows, (count - 1) as nat).push(
                (x as usize, y as usize, tetromino),
            ),
            None => settled_among(rows, (count - 1) as nat),
        }
    }
}

/// Represents the game board. Mainly a wrapper around `Grid` with convenience
/// methods.
///
/// The view of a board is the sequence of its rows from top to bottom, each
/// row being the sequence of its cells from left to right.
pub struct Board {
    grid: Grid<Cell>,
}

impl View for Board {
    type V = Seq<Seq<Cell>>;

    closed spec fn view(&self) -> Seq<Seq<Cell>> {
        Seq::new(
            Board::HEIGHT as nat,
            |y: int| Seq::new(Board::WIDTH as nat, |x: int| self.grid@[y * Board::WIDTH + x]),
        )
    }
}

impl Board {
    /// The number of columns of the board.
    pub const WIDTH: usize = 10;

    /// The number of rows of the board.
    pub const HEIGHT: usize = 20;

    /// The underlying grid has the dimensions of the board.
    pub closed spec fn grid_wf(&self) -> bool {
        &&& self.grid.wf()
        &&& self.grid.spec_width() == Board::WIDTH
        &&& self.grid.spec_height() == Board::HEIGHT
    }

    /// The board has `HEIGHT` rows of `WIDTH` cells each.
    pub open spec fn wf(&self) -> bool {
        &&& self.grid_wf()
        &&& self@.len() == Board::HEIGHT
        &&& forall|y: int| 0 <= y < Board::HEIGHT ==> (#[trigger] self@[y]).len() == Board::WIDTH
    }

    /// Creates a new empty board.
    pub fn empty() -> (board: Self)
        ensures
            board.wf(),
            board@ == empty_rows(Board::HEIGHT as nat),
    {
        let board = Self { grid: Grid::filled_with(None, Self::WIDTH, Self::HEIGHT) };
        proof {
            assert forall|y: int| 0 <= y < Board::HEIGHT implies #[trigger] board@[y]
                == empty_row() by {
                assert forall|x: int| 0 <= x < Board::WIDTH implies board@[y][x]
                    == None::<Tetromino> by {
                    let cell = board.grid@[y * Board::WIDTH + x];
                    assert(cloned(None::<Tetromino>, cell));
                }
                assert(board@[y] =~= empty_row());
            }
            assert(board@ =~= empty_rows(Board::HEIGHT as nat));
        }
        board
    }

    /// Writing `value` into the grid at `(x, y)` changes that one cell of the
    /// board and nothing else.
    proof fn lemma_grid_update(&self, before: &Board, x: int, y: int, value: Cell)
        requires
            before.wf(),
            self.grid_wf(),
            0 <= x < Board::WIDTH,
            0 <= y < Board::HEIGHT,
            self.grid@ == before.grid@.update(y * Board::WIDTH + x, value),
        ensures
            self.wf(),
            self@ == before@.update(y, before@[y].update(x, value)),
    {
        assert forall|v: int| 0 <= v < Board::HEIGHT implies #[trigger] self@[v] == before@.update(
            y,
            before@[y].update(x, value),
        )[v] by {
            assert(self@[v] =~= before@.update(y, before@[y].update(x, value))[v]);
        }
        assert(self@ =~= before@.update(y, before@[y].update(x, value)));
    }

    /// Checks whether a falling tetromino can fit onto the board.
    pub fn can_fit(&self, tetromino: FallingTetromino) -> (ok: bool)
        requires
            self.wf(),
        ensures
            ok == fits(self@, tetromino),
    {
        if tetromino.position.x > i32::MAX - 3 || tetromino.position.y > i32::MAX - 3 {
            proof {
                crate::tetromino::lemma_squares_in_frame(tetromino.tetromino, tetromino.rotation);
                assert(!admits(self@, tetromino.cells()[0]));
            }
            return false;
        }
        let squares = tetromino.squares();
        let mut i: usize = 0;
        while i < 4
            invariant
                self.wf(),
                i <= 4,
                forall|j: int|
                    0 <= j < 4 ==> (squares[j].x as int, squares[j].y as int)
                        == #[trigger] tetromino.cells()[j],
                forall|j: int| 0 <= j < i ==> admits(self@, #[trigger] tetromino.cells()[j]),
            decreases 4 - i,
        {
            let square = squares[i];
            assert((square.x as int, square.y as int) == tetromino.cells()[i as int]);
            if square.x < 0 || square.x >= Self::WIDTH as i32 {
                assert(!admits(self@, tetromino.cells()[i as int]));
                return false;
            }
            // Allow tetrominos to stick out the top of the board to enable immediate
            // rotation.
            if square.y >= 0 {
                let value = self.grid.get(square.x as usize, square.y as usize);
                // The piece does not fit if it would be outside the bounds of the grid or if
                // some of it's squares are already occupied.
                match value {
                    Some(None) => {},
                    _ => {
                        assert(!admits(self@, tetromino.cells()[i as int]));
                        return false;
                    },
                }
            }
            i += 1;
        }
        true
    }

    /// Places a falling tetromino onto the board: each of its squares inside
    /// the board becomes a settled square of its kind. Squares above the top
    /// row are dropped.
    pub fn place(&mut self, tetromino: FallingTetromino)
        requires
            old(self).wf(),
            fits(old(self)@, tetromino),
        ensures
            final(self).wf(),
            final(self)@ == placed(old(self)@, tetromino),
    {
        proof {
            crate::tetromino::lemma_squares_in_frame(tetromino.tetromino, tetromino.rotation);
            assert(admits(old(self)@, tetromino.cells()[0]));
        }
        let squares = tetromino.squares();
        let mut i: usize = 0;
        while i < 4
            invariant
                self.wf(),
                i <= 4,
                forall|j: int|
                    0 <= j < 4 ==> (squares[j].x as int, squares[j].y as int)
                        == #[trigger] tetromino.cells()[j],
                forall|j: int| 0 <= j < 4 ==> admits(old(self)@, #[trigger] tetromino.cells()[j]),
                forall|x: int, y: int|
                    0 <= x < Board::WIDTH && 0 <= y < Board::HEIGHT ==> #[trigger] self@[y][x] == (
                    if exists|j: int| 0 <= j < i && tetromino.cells()[j] == (x, y) {
                        Some(tetromino.tetromino)
                    } else {
                        old(self)@[y][x]
                    }),
            decreases 4 - i,
        {
            let square = squares[i];
            assert((square.x as int, square.y as int) == tetromino.cells()[i as int]);
            assert(admits(old(self)@, tetromino.cells()[i as int]));
            if square.y >= 0 {
                let ghost before = *self;
                self.grid.set(square.x as usize, square.y as usize, Some(tetromino.tetromino));
                proof {
                    self.lemma_grid_update(
                        &before,
                        square.x as int,
                        square.y as int,
                        Some(tetromino.tetromino),
                    );
                }
            }
            i += 1;
        }
        proof {
            let target = placed(old(self)@, tetromino);
            assert forall|y: int| 0 <= y < Board::HEIGHT implies #[trigger] self@[y] == target[y] by {
                assert forall|x: int| 0 <= x < Board::WIDTH implies self@[y][x] == target[y][x] by {
                    if tetromino.cells().contains((x, y)) {
                        let j = choose|j: int|
                            0 <= j < tetromino.cells().len() && tetromino.cells()[j] == (x, y);
                        assert(0 <= j < 4 && tetromino.cells()[j] == (x, y));
                    }
                }
                assert(self@[y] =~= target[y]);
            }
            assert(self@ =~= target);
        }
    }

    /// Returns the cell in column `x` of row `y`, or `None` outside the board.
    pub fn get(&self, x: usize, y: usize) -> (cell: Option<Cell>)
        requires
            self.wf(),
        ensures
            x < Board::WIDTH && y < Board::HEIGHT ==> cell == Some(self@[y as int][x as int]),
            !(x < Board::WIDTH && y < Board::HEIGHT) ==> cell is None,
    {
        match self.grid.get(x, y) {
            Some(cell) => Some(*cell),
            None => None,
        }
    }

    /// Returns every settled square with its column, its row and the
    /// tetromino it came from, row by row from the top and left to right
    /// within a row.
    pub fn settled_squares(&self) -> (squares: Vec<(usize, usize, Tetromino)>)
        requires
            self.wf(),
        ensures
            squares@ == settled_among(self@, (Board::WIDTH * Board::HEIGHT) as nat),
    {
        let mut squares: Vec<(usize, usize, Tetromino)> = Vec::new();
        let mut iter = self.grid.iter_with_indices();
        loop
            invariant
                self.wf(),
                iter.wf(),
                *iter.grid() == self.grid,
                squares@ == settled_among(self@, iter.position()),
            ensures
                squares@ == settled_among(self@, (Board::WIDTH * Board::HEIGHT) as nat),
            decreases Board::WIDTH * Board::HEIGHT - iter.position(),
        {
            match iter.next() {
                Some((x, y, cell)) => {
                    if let Some(tetromino) = cell {
                        squares.push((x, y, *tetromino));
                    }
                },
                None => {
                    break ;
                },
            }
        }
        squares
    }

    /// Row `y` of the grid holds the cells of row `y` of the board.
    proof fn lemma_row_view(&self, y: int)
        requires
            self.wf(),
            0 <= y < Board::HEIGHT,
        ensures
            self.grid.spec_row(y) == self@[y],
    {
        crate::grid::lemma_row_in_bounds(y, Board::WIDTH as int, Board::HEIGHT as int);
        assert(self.grid.spec_row(y) =~= self@[y]);
    }

    /// Checks whether every square of row `y` is settled.
    fn row_complete(&self, y: usize) -> (complete: bool)
        requires
            self.wf(),
            y < Board::HEIGHT,
        ensures
            complete == is_complete(self@[y as int]),
    {
        let row = self.grid.row_slice(y);
        proof {
            self.lemma_row_view(y as int);
        }
        let mut x: usize = 0;
        while x < row.len()
            invariant
                x <= row@.len(),
                row@ == self@[y as int],
                forall|j: int| 0 <= j < x ==> (#[trigger] row@[j]) is Some,
            decreases row@.len() - x,
        {
            if row[x].is_none() {
                return false;
            }
            x += 1;
        }
        true
    }

    /// Empties row `y`.
    fn clear_row(&mut self, y: usize)
        requires
            old(self).wf(),
            y < Board::HEIGHT,
        ensures
            final(self).wf(),
            final(self)@ == old(self)@.update(y as int, empty_row()),
    {
        let row = self.grid.row_slice_mut(y);
        let mut x: usize = 0;
        while x < row.len()
            invariant
                x <= row@.len(),
                row@.len() == Board::WIDTH,
                forall|j: int| 0 <= j < x ==> (#[trigger] row@[j]) is None,
            decreases row@.len() - x,
        {
            row[x] = None;
            x += 1;
        }
        proof {
            crate::grid::lemma_row_in_bounds(y as int, Board::WIDTH as int, Board::HEIGHT as int);
            assert forall|v: int| 0 <= v < Board::HEIGHT implies #[trigger] self@[v] == old(
                self,
            )@.update(y as int, empty_row())[v] by {
                crate::grid::lemma_row_in_bounds(v, Board::WIDTH as int, Board::HEIGHT as int);
                assert(self@[v] =~= old(self)@.update(y as int, empty_row())[v]);
            }
            assert(self@ =~= old(self)@.update(y as int, empty_row()));
        }
    }

    /// Overwrites row `y` with the row above it.
    fn copy_row_down(&mut self, y: usize)
        requires
            old(self).wf(),
            0 < y < Board::HEIGHT,
        ensures
            final(self).wf(),
            final(self)@ == old(self)@.update(y as int, old(self)@[y - 1]),
    {
        let mut x: usize = 0;
        while x < Self::WIDTH
            invariant
                self.wf(),
                0 < y < Board::HEIGHT,
                x <= Board::WIDTH,
                forall|v: int| 0 <= v < Board::HEIGHT && v != y ==> #[trigger] self@[v] == old(self)@[v],
                forall|j: int| 0 <= j < x ==> #[trigger] self@[y as int][j] == old(self)@[y - 1][j],
            decreases Board::WIDTH - x,
        {
            let cell = match self.grid.get(x, y - 1) {
                Some(cell) => *cell,
                None => None,
            };
            let ghost before = *self;
            assert(cell == self@[y - 1][x as int]);
            self.grid.set(x, y, cell);
            proof {
                self.lemma_grid_update(&before, x as int, y as int, cell);
            }
            x += 1;
        }
        proof {
            assert(self@[y as int] =~= old(self)@[y - 1]);
            assert(self@ =~= old(self)@.update(y as int, old(self)@[y - 1]));
        }
    }

    /// Moves the rows above row `y` down by one, over row `y`, and empties
    /// the top row.
    fn shift_rows_down(&mut self, y: usize)
        requires
            old(self).wf(),
            y < Board::HEIGHT,
        ensures
            final(self).wf(),
            final(self)@ == seq![empty_row()] + old(self)@.take(y as int) + old(self)@.skip(y + 1),
    {
        let mut v: usize = y;
        while v > 0
            invariant
                self.wf(),
                v <= y < Board::HEIGHT,
                forall|k: int| 0 <= k <= v ==> #[trigger] self@[k] == old(self)@[k],
                forall|k: int| v < k <= y ==> #[trigger] self@[k] == old(self)@[k - 1],
                forall|k: int| y < k < Board::HEIGHT ==> #[trigger] self@[k] == old(self)@[k],
            decreases v,
        {
            self.copy_row_down(v);
            v -= 1;
        }
        self.clear_row(0);
        proof {
            assert(self@ =~= seq![empty_row()] + old(self)@.take(y as int) + old(self)@.skip(y + 1));
        }
    }

    /// Clears complete rows and shifts above rows down. Returns the number of
    /// cleared rows.
    pub fn clear_complete(&mut self) -> (rows_cleared: u8)
        requires
            old(self).wf(),
        ensures
            final(self).wf(),
            final(self)@ == cleared(old(self)@),
            rows_cleared == count_complete(old(self)@),
    {
        let mut rows_cleared: u8 = 0;
        let mut y: usize = 0;
        while y < Self::HEIGHT
            invariant
                self.wf(),
                old(self).wf(),
                y <= Board::HEIGHT,
                rows_cleared <= y,
                rows_cleared == count_complete(old(self)@.take(y as int)),
                self@.take(y as int) == cleared(old(self)@.take(y as int)),
                forall|k: int| y <= k < Board::HEIGHT ==> #[trigger] self@[k] == old(self)@[k],
            decreases Board::HEIGHT - y,
        {
            let ghost seen = old(self)@.take(y as int);
            let ghost next = old(self)@.take(y + 1);
            let ghost before = self@;
            proof {
                assert(next.drop_last() =~= seen);
                assert(next.last() == old(self)@[y as int]);
            }
            // Check if row is complete (all cells fillled).
            let row_complete = self.row_complete(y);
            if row_complete {
                rows_cleared += 1;

                // Clear row.
                self.clear_row(y);

                // Shift above rows down, clear top row.
                self.shift_rows_down(y);
                proof {
                    assert(self@.take(y + 1) =~= seq![empty_row()] + before.take(y as int));
                    assert(seq![empty_row()] + empty_rows(count_complete(seen)) =~= empty_rows(
                        count_complete(next),
                    ));
                    assert(self@.take(y + 1) =~= cleared(next));
                }
            } else {
                proof {
                    assert(self@.take(y + 1) =~= before.take(y as int).push(before[y as int]));
                    assert(self@.take(y + 1) =~= cleared(next));
                }
            }
            y += 1;
        }
        proof {
            assert(self@.take(Board::HEIGHT as int) =~= self@);
            assert(old(self)@.take(Board::HEIGHT as int) =~= old(self)@);
        }
        rows_cleared
    }
}

/// Counting complete rows and keeping the others both split along a
/// concatenation of rows.
pub proof fn lemma_rows_concat(upper: Seq<Seq<Cell>>, lower: Seq<Seq<Cell>>)
    ensures
        count_complete(upper + lower) == count_complete(upper) + count_complete(lower),
        surviving(upper + lower) == surviving(upper) + surviving(lower),
    decreases lower.len(),
{
    if lower.len() == 0 {
        assert(upper + lower =~= upper);
        assert(surviving(upper) + surviving(lower) =~= surviving(upper));
    } else {
        let all = upper + lower;
        assert(all.drop_last() =~= upper + lower.drop_last());
        assert(all.last() == lower.last());
        lemma_rows_concat(upper, lower.drop_last());
        if !is_complete(lower.last()) {
            assert(surviving(upper + lower) =~= surviving(upper) + surviving(lower));
        }
    }
}

/// Every row is either counted as complete or kept, so clearing keeps the
/// number of rows. None of the kept rows is complete.
pub proof fn lemma_surviving(rows: Seq<Seq<Cell>>)
    ensures
        count_complete(rows) + surviving(rows).len() == rows.len(),
        cleared(rows).len() == rows.len(),
        forall|i: int| 0 <= i < surviving(rows).len() ==> !is_complete(#[trigger] surviving(rows)[i]),
    decreases rows.len(),
{
    if rows.len() > 0 {
        lemma_surviving(rows.drop_last());
    }
}

/// Each row of a cleared board is empty or is one of the rows from before.
pub proof fn lemma_cleared_rows_come_from(rows: Seq<Seq<Cell>>)
    ensures
        forall|y: int|
            0 <= y < cleared(rows).len() ==> (#[trigger] cleared(rows)[y]) == empty_row() || exists|
                v: int,
            |
                0 <= v < rows.len() && rows[v] == cleared(rows)[y],
{
    lemma_surviving_come_from(rows);
    assert forall|y: int| 0 <= y < cleared(rows).len() implies (#[trigger] cleared(rows)[y])
        == empty_row() || exists|v: int| 0 <= v < rows.len() && rows[v] == cleared(rows)[y] by {
        if y >= count_complete(rows) {
            assert(cleared(rows)[y] == surviving(rows)[y - count_complete(rows)]);
        }
    }
}

/// Each row that is kept is one of the rows from before.
proof fn lemma_surviving_come_from(rows: Seq<Seq<Cell>>)
    ensures
        forall|i: int|
            0 <= i < surviving(rows).len() ==> exists|v: int|
                0 <= v < rows.len() && rows[v] == #[trigger] surviving(rows)[i],
    decreases rows.len(),
{
    if rows.len() > 0 {
        lemma_surviving_come_from(rows.drop_last());
        assert forall|i: int| 0 <= i < surviving(rows).len() implies exists|v: int|
            0 <= v < rows.len() && rows[v] == #[trigger] surviving(rows)[i] by {
            if i < surviving(rows.drop_last()).len() {
                let v = choose|v: int|
                    0 <= v < rows.drop_last().len() && rows.drop_last()[v] == surviving(
                        rows.drop_last(),
                    )[i];
                assert(rows[v] == surviving(rows)[i]);
            } else {
                assert(rows[rows.len() - 1] == surviving(rows)[i]);
            }
        }
    }
}

/// No row is complete exactly if the count of complete rows is zero.
pub proof fn lemma_no_complete_row(rows: Seq<Seq<Cell>>)
    ensures
        count_complete(rows) == 0 <==> forall|y: int|
            0 <= y < rows.len() ==> !is_complete(#[trigger] rows[y]),
    decreases rows.len(),
{
    if rows.len() > 0 {
        lemma_no_complete_row(rows.drop_last());
        if count_complete(rows) == 0 {
            assert forall|y: int| 0 <= y < rows.len() implies !is_complete(#[trigger] rows[y]) by {
                if y < rows.len() - 1 {
                    assert(rows.drop_last()[y] == rows[y]);
                }
            }
        }
        if forall|y: int| 0 <= y < rows.len() ==> !is_complete(#[trigger] rows[y]) {
            assert forall|y: int| 0 <= y < rows.drop_last().len() implies !is_complete(
                #[trigger] rows.drop_last()[y],
            ) by {
                assert(rows.drop_last()[y] == rows[y]);
            }
            assert(!is_complete(rows[rows.len() - 1]));
        }
    }
}

/// Clearing a board on which no row is complete changes nothing.
pub proof fn lemma_clear_without_complete_row(rows: Seq<Seq<Cell>>)
    requires
        forall|y: int| 0 <= y < rows.len() ==> !is_complete(#[trigger] rows[y]),
    ensures
        count_complete(rows) == 0,
        cleared(rows) == rows,
    decreases rows.len(),
{
    if rows.len() == 0 {
        assert(cleared(rows) =~= rows);
    } else {
        assert forall|y: int| 0 <= y < rows.drop_last().len() implies !is_complete(
            #[trigger] rows.drop_last()[y],
        ) by {
            assert(rows.drop_last()[y] == rows[y]);
        }
        lemma_clear_without_complete_row(rows.drop_last());
        assert(!is_complete(rows[rows.len() - 1]));
        assert(surviving(rows.drop_last()) =~= rows.drop_last());
        assert(cleared(rows) =~= rows);
    }
}

/// After clearing, no row is complete: clearing a second time changes
/// nothing.
pub proof fn lemma_cleared_has_no_complete_row(rows: Seq<Seq<Cell>>)
    ensures
        forall|y: int| 0 <= y < rows.len() ==> !is_complete(#[trigger] cleared(rows)[y]),
        count_complete(cleared(rows)) == 0,
        cleared(cleared(rows)) == cleared(rows),
{
    lemma_surviving(rows);
    assert forall|y: int| 0 <= y < rows.len() implies !is_complete(#[trigger] cleared(rows)[y]) by {
        if y < count_complete(rows) {
            assert(cleared(rows)[y] == empty_row());
            assert(empty_row()[0] is None);
        } else {
            assert(cleared(rows)[y] == surviving(rows)[y - count_complete(rows)]);
        }
    }
    lemma_clear_without_complete_row(cleared(rows));
}

/// Clearing moves each row that is not complete down by the number of
/// complete rows below it, and leaves as many empty rows at the top as there
/// were complete rows.
pub proof fn lemma_cleared_shift(rows: Seq<Seq<Cell>>, y: int)
    requires
        0 <= y < rows.len(),
        !is_complete(rows[y]),
    ensures
        y + count_complete(rows.skip(y + 1)) < rows.len(),
        cleared(rows)[y + count_complete(rows.skip(y + 1))] == rows[y],
        forall|i: int| 0 <= i < count_complete(rows) ==> #[trigger] cleared(rows)[i] == empty_row(),
{
    let upper = rows.take(y);
    let row = seq![rows[y]];
    let lower = rows.skip(y + 1);
    assert(rows =~= upper + row + lower);
    lemma_rows_concat(upper + row, lower);
    lemma_rows_concat(upper, row);
    assert(surviving(row) =~= row && count_complete(row) == 0) by {
        reveal_with_fuel(surviving, 2);
        reveal_with_fuel(count_complete, 2);
        assert(row.last() == rows[y]);
    }
    lemma_surviving(upper);
    lemma_surviving(lower);
    lemma_surviving(rows);
    let index = y + count_complete(lower);
    assert(index == count_complete(rows) + surviving(upper).len());
    assert(surviving(rows) == surviving(upper) + row + surviving(lower));
    assert(surviving(rows)[surviving(upper).len() as int] == rows[y]);
}

/// Placing a tetromino that fits keeps the shape of the board and settles
/// exactly those of its squares that are not above the top row: each of them
/// turns an empty cell into a cell of its kind, and no other cell changes.
pub proof fn lemma_placed_settles(rows: Seq<Seq<Cell>>, tetromino: FallingTetromino)
    requires
        rows.len() == Board::HEIGHT,
        forall|y: int| 0 <= y < Board::HEIGHT ==> (#[trigger] rows[y]).len() == Board::WIDTH,
        fits(rows, tetromino),
    ensures
        placed(rows, tetromino).len() == Board::HEIGHT,
        forall|y: int|
            0 <= y < Board::HEIGHT ==> (#[trigger] placed(rows, tetromino)[y]).len() == Board::WIDTH,
        forall|i: int|
            0 <= i < 4 && tetromino.cells()[i].1 >= 0 ==> {
                let (x, y) = #[trigger] tetromino.cells()[i];
                &&& 0 <= x < Board::WIDTH && y < Board::HEIGHT
                &&& rows[y][x] is None
                &&& placed(rows, tetromino)[y][x] == Some(tetromino.tetromino)
            },
        forall|x: int, y: int|
            0 <= x < Board::WIDTH && 0 <= y < Board::HEIGHT && placed(rows, tetromino)[y][x]
                != rows[y][x] ==> exists|i: int|
                0 <= i < 4 && #[trigger] tetromino.cells()[i] == (x, y),
{
    assert forall|i: int| 0 <= i < 4 && tetromino.cells()[i].1 >= 0 implies {
        let (x, y) = #[trigger] tetromino.cells()[i];
        &&& 0 <= x < Board::WIDTH && y < Board::HEIGHT
        &&& rows[y][x] is None
        &&& placed(rows, tetromino)[y][x] == Some(tetromino.tetromino)
    } by {
        assert(admits(rows, tetromino.cells()[i]));
        assert(tetromino.cells().contains(tetromino.cells()[i]));
    }
    assert forall|x: int, y: int|
        0 <= x < Board::WIDTH && 0 <= y < Board::HEIGHT && placed(rows, tetromino)[y][x]
            != rows[y][x] implies exists|i: int|
        0 <= i < 4 && #[trigger] tetromino.cells()[i] == (x, y) by {
        assert(tetromino.cells().contains((x, y)));
        let i = choose|i: int| 0 <= i < tetromino.cells().len() && tetromino.cells()[i] == (x, y);
        assert(0 <= i < 4 && tetromino.cells()[i] == (x, y));
    }
}

/// The number of squares of the tetromino that lie in the rows above row `n`
/// of the board.
pub open spec fn squares_above(tetromino: FallingTetromino, n: int) -> nat {
    let cells = tetromino.cells();
    let within = |i: int| if 0 <= cells[i].1 < n { 1nat } else { 0nat };
    within(0) + within(1) + within(2) + within(3)
}

/// Among the first `n` rows, placing a tetromino on a board without complete
/// rows completes at most as many rows as the tetromino has squares there.
proof fn lemma_completed_by_squares(rows: Seq<Seq<Cell>>, tetromino: FallingTetromino, n: int)
    requires
        0 <= n <= rows.len(),
        forall|y: int| 0 <= y < rows.len() ==> !is_complete(#[trigger] rows[y]),
    ensures
        count_complete(placed(rows, tetromino).take(n)) <= squares_above(tetromino, n),
    decreases n,
{
    if n > 0 {
        let after = placed(rows, tetromino);
        lemma_completed_by_squares(rows, tetromino, n - 1);
        assert(after.take(n).drop_last() =~= after.take(n - 1));
        assert(after.take(n).last() == after[n - 1]);
        if is_complete(after[n - 1]) {
            assert(!is_complete(rows[n - 1]));
            let x = choose|x: int| 0 <= x < rows[n - 1].len() && !(#[trigger] rows[n - 1][x] is Some);
            assert(after[n - 1][x] is Some);
            assert(tetromino.cells().contains((x, n - 1)));
            let j = choose|j: int|
                0 <= j < tetromino.cells().len() && tetromino.cells()[j] == (x, n - 1);
            assert(tetromino.cells()[j].1 == n - 1);
            assert(0 <= j < 4);
        }
    }
}

/// One tetromino completes at most four rows.
pub proof fn lemma_place_completes_at_most_four(rows: Seq<Seq<Cell>>, tetromino: FallingTetromino)
    requires
        forall|y: int| 0 <= y < rows.len() ==> !is_complete(#[trigger] rows[y]),
    ensures
        count_complete(placed(rows, tetromino)) <= 4,
{
    lemma_completed_by_squares(rows, tetromino, rows.len() as int);
    assert(placed(rows, tetromino).take(rows.len() as int) =~= placed(rows, tetromino));
}

} // verus!
