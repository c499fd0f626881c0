//! The seven tetrominoes, their rotation states, and a tetromino that is
//! falling on the board.

use vstd::prelude::*;
use crate::point::Point;

verus! {

/// A tetromino.
#[derive(Clone, Copy, Debug, PartialEq, Eq, Structural)]
pub enum Tetromino {
    I,
    J,
    L,
    O,
    T,
    Z,
    S,
}

/// An RGBA color. Each channel is given in tenths of full intensity and so
/// ranges over `0..=10`.
#[derive(Clone, Copy, Debug, PartialEq, Eq, Structural)]
pub struct Color {
    pub red: u8,
    pub green: u8,
    pub blue: u8,
    pub alpha: u8,
}

/// Four squares, given by their coordinates.
pub open spec fn four(a: (int, int), b: (int, int), c: (int, int), d: (int, int)) -> Seq<Point> {
    seq![
        Point { x: a.0 as i32, y: a.1 as i32 },
        Point { x: b.0 as i32, y: b.1 as i32 },
        Point { x: c.0 as i32, y: c.1 as i32 },
        Point { x: d.0 as i32, y: d.1 as i32 },
    ]
}

impl Tetromino {
    /// All tetrominoes, in the order in which `from_index` numbers them.
    pub open spec fn variants() -> Seq<Tetromino> {
        seq![
            Tetromino::I,
            Tetromino::J,
            Tetromino::L,
            Tetromino::O,
            Tetromino::T,
            Tetromino::Z,
            Tetromino::S,
        ]
    }

    /// The squares that this tetromino occupies on a 4x4 grid in rotation
    /// state `rotation % 4`.
    pub open spec fn spec_squares(self, rotation: u8) -> Seq<Point> {
        let turn = rotation % 4;
        match self {
            Tetromino::I => if turn % 2 == 0 {
                four((0, 2), (1, 2), (2, 2), (3, 2))
            } else {
                four((2, 0), (2, 1), (2, 2), (2, 3))
            },
            Tetromino::O => four((1, 1), (2, 1), (1, 2), (2, 2)),
            Tetromino::J => if turn == 0 {
                four((1, 1), (2, 1), (3, 1), (3, 2))
            } else if turn == 1 {
                four((2, 0), (2, 1), (1, 2), (2, 2))
            } else if turn == 2 {
                four((1, 0), (1, 1), (2, 1), (3, 1))
            } else {
                four((2, 0), (3, 0), (2, 1), (2, 2))
            },
            Tetromino::L => if turn == 0 {
                four((1, 1), (2, 1), (3, 1), (1, 2))
            } else if turn == 1 {
                four((1, 0), (2, 0), (2, 1), (2, 2))
            } else if turn == 2 {
                four((3, 0), (1, 1), (2, 1), (3, 1))
            } else {
                four((2, 0), (2, 1), (2, 2), (3, 2))
            },
            Tetromino::S => if turn % 2 == 0 {
                four((2, 1), (3, 1), (1, 2), (2, 2))
            } else {
                four((2, 0), (2, 1), (3, 1), (3, 2))
            },
            Tetromino::Z => if turn % 2 == 0 {
                four((1, 1), (2, 1), (2, 2), (3, 2))
            } else {
                four((3, 0), (2, 1), (3, 1), (2, 2))
            },
            Tetromino::T => if turn == 0 {
                four((1, 1), (2, 1), (3, 1), (2, 2))
            } else if turn == 1 {
                four((2, 0), (1, 1), (2, 1), (2, 2))
            } else if turn == 2 {
                four((2, 0), (1, 1), (2, 1), (3, 1))
            } else {
                four((2, 0), (2, 1), (3, 1), (2, 2))
            },
        }
    }

    /// Returns the positions of squares which represent this tetromino on a 4x4
    /// grid.
    pub fn squares(self, rotation: u8) -> (squares: [Point; 4])
        ensures
            squares@ == self.spec_squares(rotation),
    {
        let turn: u8 = rotation % 4;
        match self {
            Tetromino::I => if turn % 2 == 0 {
                [Point::new(0, 2), Point::new(1, 2), Point::new(2, 2), Point::new(3, 2)]
            } else {
                [Point::new(2, 0), Point::new(2, 1), Point::new(2, 2), Point::new(2, 3)]
            },
            Tetromino::O => [Point::new(1, 1), Point::new(2, 1), Point::new(1, 2), Point::new(2, 2)],
            Tetromino::J => if turn == 0 {
                [Point::new(1, 1), Point::new(2, 1), Point::new(3, 1), Point::new(3, 2)]
            } else if turn == 1 {
                [Point::new(2, 0), Point::new(2, 1), Point::new(1, 2), Point::new(2, 2)]
            } else if turn == 2 {
                [Point::new(1, 0), Point::new(1, 1), Point::new(2, 1), Point::new(3, 1)]
            } else {
                [Point::new(2, 0), Point::new(3, 0), Point::new(2, 1), Point::new(2, 2)]
            },
            Tetromino::L => if turn == 0 {
                [Point::new(1, 1), Point::new(2, 1), Point::new(3, 1), Point::new(1, 2)]
            } else if turn == 1 {
                [Point::new(1, 0), Point::new(2, 0), Point::new(2, 1), Point::new(2, 2)]
            } else if turn == 2 {
                [Point::new(3, 0), Point::new(1, 1), Point::new(2, 1), Point::new(3, 1)]
            } else {
                [Point::new(2, 0), Point::new(2, 1), Point::new(2, 2), Point::new(3, 2)]
            },
            Tetromino::S => if turn % 2 == 0 {
                [Point::new(2, 1), Point::new(3, 1), Point::new(1, 2), Point::new(2, 2)]
            } else {
                [Point::new(2, 0), Point::new(2, 1), Point::new(3, 1), Point::new(3, 2)]
            },
            Tetromino::Z => if turn % 2 == 0 {
                [Point::new(1, 1), Point::new(2, 1), Point::new(2, 2), Point::new(3, 2)]
            } else {
                [Point::new(3, 0), Point::new(2, 1), Point::new(3, 1), Point::new(2, 2)]
            },
            Tetromino::T => if turn == 0 {
                [Point::new(1, 1), Point::new(2, 1), Point::new(3, 1), Point::new(2, 2)]
            } else if turn == 1 {
                [Point::new(2, 0), Point::new(1, 1), Point::new(2, 1), Point::new(2, 2)]
            } else if turn == 2 {
                [Point::new(2, 0), Point::new(1, 1), Point::new(2, 1), Point::new(3, 1)]
            } else {
                [Point::new(2, 0), Point::new(2, 1), Point::new(3, 1), Point::new(2, 2)]
            },
        }
    }

    /// The number of columns that the squares of this tetromino span in
    /// rotation state `rotation % 4`.
    pub open spec fn spec_width(self, rotation: u8) -> int {
        let s = self.spec_squares(rotation);
        largest(s[0].x as int, s[1].x as int, s[2].x as int, s[3].x as int) - smallest(
            s[0].x as int,
            s[1].x as int,
            s[2].x as int,
            s[3].x as int,
        ) + 1
    }

    /// The number of rows that the squares of this tetromino span in rotation
    /// state `rotation % 4`.
    pub open spec fn spec_height(self, rotation: u8) -> int {
        let s = self.spec_squares(rotation);
        largest(s[0].y as int, s[1].y as int, s[2].y as int, s[3].y as int) - smallest(
            s[0].y as int,
            s[1].y as int,
            s[2].y as int,
            s[3].y as int,
        ) + 1
    }

    /// Returns the width of this tetromino as the number of squares.
    pub fn width(self, rotation: u8) -> (width: u8)
        ensures
            width == self.spec_width(rotation),
    {
        let flat: bool = rotation % 2 == 0;
        match self {
            Tetromino::I => if flat { 4 } else { 1 },
            Tetromino::O => 2,
            _ => if flat { 3 } else { 2 },
        }
    }

    /// Returns the height of this tetromino as the number of squares.
    pub fn height(self, rotation: u8) -> (height: u8)
        ensures
            height == self.spec_height(rotation),
    {
        let flat: bool = rotation % 2 == 0;
        match self {
            Tetromino::I => if flat { 1 } else { 4 },
            Tetromino::O => 2,
            _ => if flat { 2 } else { 3 },
        }
    }

    /// The color of each tetromino.
    pub open spec fn spec_color(self) -> Color {
        match self {
            Tetromino::I => Color { red: 2, green: 9, blue: 9, alpha: 10 },
            Tetromino::J => Color { red: 2, green: 2, blue: 9, alpha: 10 },
            Tetromino::L => Color { red: 9, green: 5, blue: 2, alpha: 10 },
            Tetromino::O => Color { red: 9, green: 9, blue: 2, alpha: 10 },
            Tetromino::T => Color { red: 9, green: 2, blue: 9, alpha: 10 },
            Tetromino::Z => Color { red: 9, green: 2, blue: 2, alpha: 10 },
            Tetromino::S => Color { red: 2, green: 9, blue: 2, alpha: 10 },
        }
    }

    /// Returns the color of this tetromino.
    pub fn color(self) -> (color: Color)
        ensures
            color == self.spec_color(),
    {
        match self {
            Tetromino::I => Color { red: 2, green: 9, blue: 9, alpha: 10 },
            Tetromino::J => Color { red: 2, green: 2, blue: 9, alpha: 10 },
            Tetromino::L => Color { red: 9, green: 5, blue: 2, alpha: 10 },
            Tetromino::O => Color { red: 9, green: 9, blue: 2, alpha: 10 },
            Tetromino::T => Color { red: 9, green: 2, blue: 9, alpha: 10 },
            Tetromino::Z => Color { red: 9, green: 2, blue: 2, alpha: 10 },
            Tetromino::S => Color { red: 2, green: 9, blue: 2, alpha: 10 },
        }
    }

    /// Returns the tetromino with the given number.
    pub fn from_index(index: usize) -> (tetromino: Tetromino)
        requires
            index < 7,
        ensures
            tetromino == Self::variants()[index as int],
    {
        if index == 0 {
            Tetromino::I
        } else if index == 1 {
            Tetromino::J
        } else if index == 2 {
            Tetromino::L
        } else if index == 3 {
            Tetromino::O
        } else if index == 4 {
            Tetromino::T
        } else if index == 5 {
            Tetromino::Z
        } else {
            Tetromino::S
        }
    }

    /// Returns a random tetromino: the one whose number is drawn. Each call
    /// draws afresh, so which one comes back is left open.
    pub fn random() -> (tetromino: Tetromino)
        ensures
            exists|index: int| 0 <= index < 7 && tetromino == Self::variants()[index],
    {
        let index = random_below(7);
        let tetromino = Self::from_index(index);
        assert(tetromino == Self::variants()[index as int]);
        tetromino
    }
}

/// A falling tetromino.
///
/// Unlike [`Tetromino`], [`FallingTetromino`] has a position and rotation.
/// The rotation counts quarter turns; only its remainder modulo 4 matters
/// for the squares.
#[derive(Clone, Copy, Debug, PartialEq, Eq, Structural)]
pub struct FallingTetromino {
    pub position: Point,
    pub rotation: u8,
    pub tetromino: Tetromino,
}

impl FallingTetromino {
    /// The starting position of a falling tetromino.
    pub open spec fn origin() -> Point {
        Point { x: 3, y: -1i32 }
    }

    /// The board coordinates of the four squares of this tetromino, as
    /// mathematical integers.
    pub open spec fn cells(self) -> Seq<(int, int)> {
        Seq::new(4, |i: int| self.position.spec_plus(self.tetromino.spec_squares(self.rotation)[i]))
    }

    /// The coordinates of all four squares fit the integer type of [`Point`].
    pub open spec fn representable(self) -> bool {
        &&& self.position.x + 3 <= i32::MAX
        &&& self.position.y + 3 <= i32::MAX
    }

    /// This tetromino turned by `by` quarter turns.
    pub open spec fn spec_rotated(self, by: i8) -> FallingTetromino {
        FallingTetromino { rotation: ((self.rotation + by) % 256) as u8, ..self }
    }

    /// This tetromino shifted by `by`.
    pub open spec fn spec_moved(self, by: Point) -> FallingTetromino {
        FallingTetromino {
            position: Point { x: (self.position.x + by.x) as i32, y: (self.position.y + by.y) as i32 },
            ..self
        }
    }

    /// Creates a new falling tetromino positioned at the origin.
    pub fn new_at_origin(tetromino: Tetromino) -> (falling: Self)
        ensures
            falling == (FallingTetromino { position: Self::origin(), rotation: 0, tetromino }),
    {
        Self { position: Point::new(3, -1), rotation: 0, tetromino }
    }

    /// Creates a new falling tetromino with a random shape positioned at the
    /// origin.
    pub fn random_at_origin() -> (falling: Self)
        ensures
            falling.position == Self::origin(),
            falling.rotation == 0,
    {
        Self { position: Point::new(3, -1), rotation: 0, tetromino: Tetromino::random() }
    }

    /// Returns the positions of squares representing this tetromino.
    pub fn squares(&self) -> (squares: [Point; 4])
        requires
            self.representable(),
        ensures
            forall|i: int|
                0 <= i < 4 ==> (squares[i].x as int, squares[i].y as int) == #[trigger] self.cells()[i],
    {
        let squares = self.tetromino.squares(self.rotation);
        proof {
            lemma_squares_in_frame(self.tetromino, self.rotation);
        }
        [
            self.position.plus(squares[0]),
            self.position.plus(squares[1]),
            self.position.plus(squares[2]),
            self.position.plus(squares[3]),
        ]
    }

    /// The squares among the first `count` of this tetromino that lie on or
    /// below the top row of the board.
    pub open spec fn visible_among(self, count: nat) -> Seq<Point>
        decreases count,
    {
        if count == 0 {
            Seq::empty()
        } else {
            let (x, y) = self.cells()[count - 1];
            if y >= 0 {
                self.visible_among((count - 1) as nat).push(Point { x: x as i32, y: y as i32 })
            } else {
                self.visible_among((count - 1) as nat)
            }
        }
    }

    /// Returns the squares of this tetromino that are not above the top row
    /// of the board, in the order of `squares`.
    pub fn visible_squares(&self) -> (visible: Vec<Point>)
        requires
            self.representable(),
        ensures
            visible@ == self.visible_among(4),
    {
        let squares = self.squares();
        let mut visible: Vec<Point> = Vec::new();
        let mut i: usize = 0;
        while i < 4
            invariant
                i <= 4,
                forall|j: int|
                    0 <= j < 4 ==> (squares[j].x as int, squares[j].y as int)
                        == #[trigger] self.cells()[j],
                visible@ == self.visible_among(i as nat),
            decreases 4 - i,
        {
            let square = squares[i];
            assert((square.x as int, square.y as int) == self.cells()[i as int]);
            if square.y >= 0 {
                visible.push(square);
            }
            i += 1;
        }
        visible
    }

    /// Returns a new rotated instance of this tetromino.
    ///
    /// Rotation is specified in multiples of 90 deg.
    /// (1 = 90 deg. clockwise, -1 = 90 deg. counterclockwise).
    #[verifier::when_used_as_spec(spec_rotated)]
    pub fn rotated(self, by: i8) -> (turned: FallingTetromino)
        ensures
            turned == self.spec_rotated(by),
    {
        FallingTetromino { rotation: self.rotation.wrapping_add_signed(by), ..self }
    }

    /// Returns a new instance of this tetromino moved by `by`.
    #[verifier::when_used_as_spec(spec_moved)]
    pub fn moved(self, by: Point) -> (shifted: FallingTetromino)
        requires
            self.position.can_add(by),
        ensures
            shifted == self.spec_moved(by),
    {
        FallingTetromino { position: self.position.plus(by), ..self }
    }
}

/// Every square of every rotation state lies inside the 4x4 frame, and the
/// four squares of a state are distinct.
pub proof fn lemma_squares_in_frame(tetromino: Tetromino, rotation: u8)
    ensures
        tetromino.spec_squares(rotation).len() == 4,
        forall|i: int|
            0 <= i < 4 ==> {
                let square = #[trigger] tetromino.spec_squares(rotation)[i];
                0 <= square.x <= 3 && 0 <= square.y <= 3
            },
        forall|i: int, j: int|
            0 <= i < j < 4 ==> tetromino.spec_squares(rotation)[i] != tetromino.spec_squares(
                rotation,
            )[j],
{
}

/// Each tetromino has exactly one number, so a number drawn evenly from
/// `0..7` picks each tetromino with the same chance.
pub proof fn lemma_variants_number_each_once(tetromino: Tetromino)
    ensures
        Tetromino::variants().len() == 7,
        exists|index: int| 0 <= index < 7 && Tetromino::variants()[index] == tetromino,
        forall|i: int, j: int|
            0 <= i < j < 7 ==> Tetromino::variants()[i] != Tetromino::variants()[j],
{
    let index: int = match tetromino {
        Tetromino::I => 0,
        Tetromino::J => 1,
        Tetromino::L => 2,
        Tetromino::O => 3,
        Tetromino::T => 4,
        Tetromino::Z => 5,
        Tetromino::S => 6,
    };
    assert(Tetromino::variants()[index] == tetromino);
}

/// Different tetrominoes have different colors, and every color is opaque
/// with channels between 0 and 10 tenths.
pub proof fn lemma_colors(a: Tetromino, b: Tetromino)
    ensures
        a != b ==> a.spec_color() != b.spec_color(),
        a.spec_color().red <= 10,
        a.spec_color().green <= 10,
        a.spec_color().blue <= 10,
        a.spec_color().alpha == 10,
{
}

/// Rotation states repeat with period four: rotations that agree modulo 4
/// give the same squares.
pub proof fn lemma_equivalent_rotations(tetromino: Tetromino, a: u8, b: u8)
    requires
        a % 4 == b % 4,
    ensures
        tetromino.spec_squares(a) == tetromino.spec_squares(b),
{
}

/// Turning a falling tetromino by a multiple of four quarter turns leaves its
/// squares where they are.
pub proof fn lemma_full_turn(falling: FallingTetromino, by: i8)
    requires
        by % 4 == 0,
    ensures
        falling.rotated(by).cells() == falling.cells(),
{
    lemma_equivalent_rotations(falling.tetromino, falling.rotated(by).rotation, falling.rotation);
}

/// Four quarter turns in the same direction bring every square back.
pub proof fn lemma_four_quarter_turns(falling: FallingTetromino, by: i8)
    requires
        by == 1 || by == -1,
    ensures
        falling.rotated(by).rotated(by).rotated(by).rotated(by).cells() == falling.cells(),
{
}

/// A quarter turn and the opposite quarter turn cancel.
pub proof fn lemma_turn_back(falling: FallingTetromino, by: i8)
    requires
        -128 < by,
    ensures
        falling.rotated(by).rotated((-by) as i8) == falling,
{
}

/// Moving a tetromino shifts each of its squares by the same offset and keeps
/// its shape.
pub proof fn lemma_moved_cells(falling: FallingTetromino, by: Point)
    requires
        falling.position.can_add(by),
    ensures
        forall|i: int|
            0 <= i < 4 ==> #[trigger] falling.moved(by).cells()[i] == (
                falling.cells()[i].0 + by.x,
                falling.cells()[i].1 + by.y,
            ),
{
}

/// The largest of four integers.
pub open spec fn largest(a: int, b: int, c: int, d: int) -> int {
    let ab = if a >= b { a } else { b };
    let cd = if c >= d { c } else { d };
    if ab >= cd { ab } else { cd }
}

/// The smallest of four integers.
pub open spec fn smallest(a: int, b: int, c: int, d: int) -> int {
    let ab = if a <= b { a } else { b };
    let cd = if c <= d { c } else { d };
    if ab <= cd { ab } else { cd }
}

/// Draws a number below `bound` from the thread-local generator of the `rand`
/// crate: `rand::thread_rng().gen_range(0..bound)`.
///
/// Trusted: `gen_range` returns a value inside the range it is given and
/// panics on an empty range, which `bound > 0` rules out. Two calls may
/// return different numbers. That the operating system can seed the
/// generator is taken for granted.
#[verifier::external_body]
fn random_below(bound: usize) -> (drawn: usize)
    requires
        bound > 0,
    ensures
        drawn < bound,
{
    rand::Rng::gen_range(&mut rand::thread_rng(), 0..bound)
}

} // verus!
