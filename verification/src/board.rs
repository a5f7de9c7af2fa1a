use vstd::prelude::*;

verus! {

/// A position on the board identified by row and column.
///
/// Valid squares follow the Finkel 3×8 layout with four removed squares:
/// row 0 and row 2 have no columns 4 or 5.
#[derive(Clone, Copy, Debug, PartialEq, Eq, Hash, PartialOrd, Ord, Structural)]
pub struct Square {
    pub row: u8,
    pub col: u8,
}

impl Square {
    pub fn new(row: u8, col: u8) -> (r: Self)
        ensures
            r.row == row,
            r.col == col,
    {
        Self { row, col }
    }
}

/// Shorthand for a square in specifications.
pub open spec fn sq(row: u8, col: u8) -> Square {
    Square { row, col }
}

/// The first position of `x` in `s`, if it occurs.
pub open spec fn is_first_index(s: Seq<Square>, x: Square, i: int) -> bool {
    &&& 0 <= i < s.len()
    &&& s[i] == x
    &&& forall|j: int| 0 <= j < i ==> s[j] != x
}

/// The position of the first occurrence of `x` in `s`, or `None`.
pub open spec fn seq_index_of(s: Seq<Square>, x: Square) -> Option<int> {
    if exists|i: int| 0 <= i < s.len() && s[i] == x {
        Some(choose|i: int| is_first_index(s, x, i))
    } else {
        None
    }
}

/// The element of `s` at `i`, or `None` past the end.
pub open spec fn seq_get(s: Seq<Square>, i: int) -> Option<Square> {
    if 0 <= i < s.len() {
        Some(s[i])
    } else {
        None
    }
}

/// A first index exists whenever `x` occurs, and it is unique.
pub proof fn lemma_first_index(s: Seq<Square>, x: Square)
    ensures
        (exists|i: int| 0 <= i < s.len() && s[i] == x) ==> is_first_index(s, x, seq_index_of(s, x).unwrap()),
        forall|i: int, j: int| is_first_index(s, x, i) && is_first_index(s, x, j) ==> i == j,
        seq_index_of(s, x) is None <==> !s.contains(x),
{
    if exists|i: int| 0 <= i < s.len() && s[i] == x {
        let k = choose|i: int| 0 <= i < s.len() && s[i] == x;
        lemma_first_index_exists(s, x, k);
    }
    assert forall|i: int, j: int| is_first_index(s, x, i) && is_first_index(s, x, j) implies i == j by {
        if i < j {
            assert(s[i] == x);
        } else if j < i {
            assert(s[j] == x);
        }
    }
}

proof fn lemma_first_index_exists(s: Seq<Square>, x: Square, k: int)
    requires
        0 <= k < s.len(),
        s[k] == x,
    ensures
        exists|i: int| is_first_index(s, x, i),
    decreases k,
{
    if exists|j: int| 0 <= j < k && s[j] == x {
        let j = choose|j: int| 0 <= j < k && s[j] == x;
        lemma_first_index_exists(s, x, j);
    } else {
        assert(is_first_index(s, x, k));
    }
}

/// The exact contents of the standard Finkel board: squares in row-major order.
pub open spec fn finkel_valid_squares() -> Seq<Square> {
    seq![
        sq(0, 0), sq(0, 1), sq(0, 2), sq(0, 3), sq(0, 6), sq(0, 7),
        sq(1, 0), sq(1, 1), sq(1, 2), sq(1, 3), sq(1, 4), sq(1, 5), sq(1, 6), sq(1, 7),
        sq(2, 0), sq(2, 1), sq(2, 2), sq(2, 3), sq(2, 6), sq(2, 7),
    ]
}

/// The five rosettes of the Finkel board.
pub open spec fn finkel_rosettes() -> Seq<Square> {
    seq![sq(0, 0), sq(0, 6), sq(1, 3), sq(2, 0), sq(2, 6)]
}

/// Abstract contents of a board shape.
#[verifier::ext_equal]
pub struct ShapeModel {
    pub valid: Seq<Square>,
    pub rosettes: Seq<Square>,
}

/// Defines which squares exist on the board and which are rosettes.
#[derive(Debug, PartialEq, Eq, Hash)]
pub struct BoardShape {
    valid_squares: Vec<Square>,
    rosettes: Vec<Square>,
}

impl View for BoardShape {
    type V = ShapeModel;

    closed spec fn view(&self) -> ShapeModel {
        ShapeModel { valid: self.valid_squares@, rosettes: self.rosettes@ }
    }
}

/// Whether `x` occurs in `v`, computed by a scan.
fn vec_contains(v: &Vec<Square>, x: Square) -> (r: bool)
    ensures
        r == v@.contains(x),
{
    let mut i: usize = 0;
    while i < v.len()
        invariant
            i <= v.len(),
            forall|j: int| 0 <= j < i ==> v@[j] != x,
        decreases v.len() - i,
    {
        if v[i] == x {
            return true;
        }
        i = i + 1;
    }
    false
}

/// A square-by-square copy of `v`.
fn copy_squares(v: &Vec<Square>) -> (r: Vec<Square>)
    ensures
        r@ == v@,
{
    let mut r: Vec<Square> = Vec::new();
    let mut i: usize = 0;
    while i < v.len()
        invariant
            i <= v.len(),
            r@ == v@.take(i as int),
        decreases v.len() - i,
    {
        r.push(v[i]);
        i = i + 1;
        assert(r@ =~= v@.take(i as int));
    }
    assert(v@.take(v.len() as int) =~= v@);
    r
}

impl Clone for BoardShape {
    fn clone(&self) -> (r: Self)
        ensures
            r@ == self@,
    {
        BoardShape {
            valid_squares: copy_squares(&self.valid_squares),
            rosettes: copy_squares(&self.rosettes),
        }
    }
}

impl BoardShape {
    /// Returns the standard 20-square Finkel board shape.
    ///
    /// Valid squares: row 0 cols 0-3 and 6-7; row 1 cols 0-7; row 2 cols 0-3 and 6-7.
    /// Rosettes: (0,0), (0,6), (1,3), (2,0), (2,6).
    pub fn finkel() -> (r: Self)
        ensures
            r@.valid == finkel_valid_squares(),
            r@.rosettes == finkel_rosettes(),
    {
        let mut valid_squares: Vec<Square> = Vec::new();
        let mut row: u8 = 0;
        while row < 3
            invariant
                row <= 3,
                valid_squares@ == finkel_valid_squares().take(6 * row + if row >= 2 { 2int } else { 0int }),
            decreases 3 - row,
        {
            let ghost start = valid_squares@.len();
            let mut col: u8 = 0;
            while col < 8
                invariant
                    row < 3,
                    col <= 8,
                    start == 6 * row + if row >= 2 { 2int } else { 0int },
                    valid_squares@ == finkel_valid_squares().take(start + Self::row_count_before(row, col)),
                decreases 8 - col,
            {
                if row != 1 && (col == 4 || col == 5) {
                } else {
                    valid_squares.push(Square::new(row, col));
                }
                col = col + 1;
                assert(valid_squares@ =~= finkel_valid_squares().take(start + Self::row_count_before(row, col)));
            }
            row = row + 1;
        }
        assert(valid_squares@ =~= finkel_valid_squares());
        let mut rosettes: Vec<Square> = Vec::new();
        rosettes.push(Square::new(0, 0));
        rosettes.push(Square::new(0, 6));
        rosettes.push(Square::new(1, 3));
        rosettes.push(Square::new(2, 0));
        rosettes.push(Square::new(2, 6));
        assert(rosettes@ =~= finkel_rosettes());
        Self { valid_squares, rosettes }
    }

    /// How many squares of `row` lie in columns before `col`.
    spec fn row_count_before(row: u8, col: u8) -> int {
        if row == 1 || col <= 4 {
            col as int
        } else if col == 5 {
            4
        } else {
            col - 2
        }
    }

    /// Returns true if the given square exists on this board.
    pub fn is_valid(&self, sq: Square) -> (r: bool)
        ensures
            r == self@.valid.contains(sq),
    {
        vec_contains(&self.valid_squares, sq)
    }

    /// Returns true if the given square is a rosette.
    pub fn is_rosette(&self, sq: Square) -> (r: bool)
        ensures
            r == self@.rosettes.contains(sq),
    {
        vec_contains(&self.rosettes, sq)
    }

    pub fn valid_squares(&self) -> (r: &[Square])
        ensures
            r@ == self@.valid,
    {
        self.valid_squares.as_slice()
    }

    pub fn rosettes(&self) -> (r: &[Square])
        ensures
            r@ == self@.rosettes,
    {
        self.rosettes.as_slice()
    }
}

/// An ordered sequence of squares defining a player's route from entry to exit.
///
/// Does not include the logical off-board entry or exit positions; those are
/// handled by `PieceLocation` in the state module.
#[derive(Debug, PartialEq, Eq, Hash)]
pub struct Path {
    squares: Vec<Square>,
}

impl View for Path {
    type V = Seq<Square>;

    closed spec fn view(&self) -> Seq<Square> {
        self.squares@
    }
}

impl Clone for Path {
    fn clone(&self) -> (r: Self)
        ensures
            r@ == self@,
    {
        Path { squares: copy_squares(&self.squares) }
    }
}

impl Path {
    pub fn new(squares: Vec<Square>) -> (r: Self)
        ensures
            r@ == squares@,
    {
        Self { squares }
    }

    pub fn squares(&self) -> (r: &[Square])
        ensures
            r@ == self@,
    {
        self.squares.as_slice()
    }

    pub fn len(&self) -> (r: usize)
        ensures
            r == self@.len(),
    {
        self.squares.len()
    }

    pub fn is_empty(&self) -> (r: bool)
        ensures
            r == (self@.len() == 0),
    {
        self.squares.len() == 0
    }

    /// Returns the square at position `index` along the path, if it exists.
    pub fn get(&self, index: usize) -> (r: Option<Square>)
        ensures
            r == seq_get(self@, index as int),
    {
        if index < self.squares.len() {
            Some(self.squares[index])
        } else {
            None
        }
    }

    /// Returns the index of `sq` in this path, if present.
    pub fn index_of(&self, sq: Square) -> (r: Option<usize>)
        ensures
            match r {
                Some(i) => seq_index_of(self@, sq) == Some(i as int),
                None => seq_index_of(self@, sq) is None,
            },
    {
        proof {
            lemma_first_index(self@, sq);
        }
        let mut i: usize = 0;
        while i < self.squares.len()
            invariant
                i <= self.squares@.len(),
                forall|j: int| 0 <= j < i ==> self.squares@[j] != sq,
            decreases self.squares.len() - i,
        {
            if self.squares[i] == sq {
                assert(is_first_index(self@, sq, i as int));
                return Some(i);
            }
            i = i + 1;
        }
        None
    }
}

/// Looking up the position of a square on a path and reading the path at that
/// position gives back the square; a square that is not found does not occur.
pub proof fn lemma_index_of_roundtrip(path: Seq<Square>, x: Square)
    ensures
        match seq_index_of(path, x) {
            Some(i) => seq_get(path, i) == Some(x) && 0 <= i < path.len(),
            None => !path.contains(x),
        },
{
    lemma_first_index(path, x);
}

} // verus!
