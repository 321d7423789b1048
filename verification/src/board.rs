//! The board model: sixty-four squares in file-then-rank order (index
//! `file + rank * 8`, rank zero at the top holding the black pieces) and a
//! side-to-move flag. The board owns the standard starting setup and a raw
//! piece-relocation primitive; it enforces no move legality, by design.

use vstd::prelude::*;

use crate::mapping::{spec_square_at, square_at};
use crate::piece::{empty_piece, piece_of, Color, Piece, PieceType};

verus! {

/// The standard back-rank kind at a file, the same for both colors.
pub open spec fn back_rank_kind(file: int) -> PieceType
    recommends
        0 <= file < 8,
{
    if file == 0 || file == 7 {
        PieceType::Rook
    } else if file == 1 || file == 6 {
        PieceType::Knight
    } else if file == 2 || file == 5 {
        PieceType::Bishop
    } else if file == 3 {
        PieceType::Queen
    } else {
        PieceType::King
    }
}

/// The standard starting content of square `i`: black's back rank on rank
/// zero, black pawns on rank one, white pawns on rank six, white's back rank
/// on rank seven, everything between empty.
pub open spec fn start_piece(i: int) -> Piece
    recommends
        0 <= i < 64,
{
    if 0 <= i < 8 {
        piece_of(back_rank_kind(i), Color::Black)
    } else if 8 <= i < 16 {
        piece_of(PieceType::Pawn, Color::Black)
    } else if 48 <= i < 56 {
        piece_of(PieceType::Pawn, Color::White)
    } else if 56 <= i < 64 {
        piece_of(back_rank_kind(i - 56), Color::White)
    } else {
        empty_piece()
    }
}

/// An 8-by-8 board: a sequence of 64 squares and the side to move.
pub struct Board {
    pub squares: Vec<Piece>,
    pub white_turn: bool,
}

/// The starting content of square `i`, executable form.
fn starting_square(i: usize) -> (p: Piece)
    requires
        i < 64,
    ensures
        p == start_piece(i as int),
{
    if i < 8 || i >= 56 {
        let file = if i < 8 {
            i
        } else {
            i - 56
        };
        let color = if i < 8 {
            Color::Black
        } else {
            Color::White
        };
        let kind = if file == 0 || file == 7 {
            PieceType::Rook
        } else if file == 1 || file == 6 {
            PieceType::Knight
        } else if file == 2 || file == 5 {
            PieceType::Bishop
        } else if file == 3 {
            PieceType::Queen
        } else {
            PieceType::King
        };
        Piece::new(kind, Some(color))
    } else if i < 16 {
        Piece::new(PieceType::Pawn, Some(Color::Black))
    } else if i >= 48 {
        Piece::new(PieceType::Pawn, Some(Color::White))
    } else {
        Piece::empty()
    }
}

impl Board {
    /// Well-formed: exactly sixty-four squares, each holding a well-formed
    /// piece.
    pub open spec fn wf(&self) -> bool {
        &&& self.squares@.len() == 64
        &&& forall|i: int| 0 <= i < 64 ==> (#[trigger] self.squares@[i]).wf()
    }

    /// The canonical starting position, white to move.
    pub fn new_standard() -> (b: Board)
        ensures
            b.wf(),
            b.white_turn,
            forall|i: int| 0 <= i < 64 ==> b.squares@[i] == start_piece(i),
    {
        let mut squares: Vec<Piece> = Vec::new();
        let mut i: usize = 0;
        while i < 64
            invariant
                i <= 64,
                squares@.len() == i as int,
                forall|j: int| 0 <= j < i as int ==> squares@[j] == start_piece(j),
            decreases 64 - i,
        {
            squares.push(starting_square(i));
            i = i + 1;
        }
        let b = Board { squares, white_turn: true };
        assert forall|i: int| 0 <= i < 64 implies (#[trigger] b.squares@[i]).wf() by {
            assert(b.squares@[i] == start_piece(i));
        }
        b
    }

    /// The content of a square; the empty sentinel where no piece stands.
    pub fn piece_at(&self, index: usize) -> (p: Piece)
        requires
            self.wf(),
            index < 64,
        ensures
            p == self.squares@[index as int],
            p.wf(),
    {
        self.squares[index]
    }

    /// Overwrite square `to` with the content of square `from` and clear
    /// square `from`. No legality check is made: this is the raw relocation
    /// primitive a rule engine would sit above.
    pub fn move_piece(&mut self, from: usize, to: usize)
        requires
            old(self).wf(),
            from < 64,
            to < 64,
            from != to,
        ensures
            final(self).wf(),
            final(self).squares@[to as int] == old(self).squares@[from as int],
            final(self).squares@[from as int] == empty_piece(),
            forall|i: int|
                0 <= i < 64 && i != from as int && i != to as int ==> final(self).squares@[i]
                    == old(self).squares@[i],
            final(self).white_turn == old(self).white_turn,
    {
        let p = self.squares[from];
        self.squares[to] = p;
        self.squares[from] = Piece::empty();
    }

    /// Flip the side to move; the squares stay as they are. The flag is inert
    /// state for the caller: nothing here ties it to which piece last moved.
    pub fn toggle_side_to_move(&mut self)
        ensures
            final(self).white_turn == !old(self).white_turn,
            final(self).squares@ == old(self).squares@,
    {
        self.white_turn = !self.white_turn;
    }

    /// Whether a drag may start on a square: white to move and a white piece
    /// under the pointer, or black to move and anything else (a black piece or
    /// an empty square) under it.
    pub fn can_grab(&self, index: usize) -> (r: bool)
        requires
            self.wf(),
            index < 64,
        ensures
            r == (self.white_turn == (self.squares@[index as int].color == Some(Color::White))),
    {
        let c = self.squares[index].color();
        self.white_turn == (c == Some(Color::White))
    }

    /// Finish a drag that started on square `from` with the pointer released
    /// at `(x, y)`: when the pointer lies on a square of the grid other than
    /// `from`, move the dragged piece there and flip the side to move;
    /// otherwise leave the board untouched. Returns the destination of a
    /// completed move.
    pub fn complete_drag(
        &mut self,
        from: usize,
        x: u32,
        y: u32,
        left: u32,
        top: u32,
        tile: u32,
    ) -> (dest: Option<usize>)
        requires
            old(self).wf(),
            from < 64,
            tile > 0,
        ensures
            final(self).wf(),
            dest is Some <==> drop_target(from as int, x as int, y as int, left as int, top as int, tile as int) is Some,
            dest matches Some(d) ==> drop_target(from as int, x as int, y as int, left as int, top as int, tile as int)
                == Some(d as int) && d < 64 && d != from,
            dest matches Some(d) ==> final(self).squares@[d as int] == old(
                self,
            ).squares@[from as int] && final(self).squares@[from as int] == empty_piece() && (
            forall|i: int|
                0 <= i < 64 && i != from as int && i != d as int ==> final(self).squares@[i] == old(
                    self,
                ).squares@[i]) && final(self).white_turn == !old(self).white_turn,
            dest is None ==> *final(self) == *old(self),
    {
        match square_at(x, y, left, top, tile) {
            Some(d) => {
                if d != from {
                    self.move_piece(from, d);
                    self.toggle_side_to_move();
                    Some(d)
                } else {
                    None
                }
            },
            None => None,
        }
    }
}

/// Where a drag from square `from` may drop: the square under the pointer,
/// unless the pointer is off the grid or back over `from`.
pub open spec fn drop_target(from: int, x: int, y: int, left: int, top: int, tile: int) -> Option<
    int,
> {
    match spec_square_at(x, y, left, top, tile) {
        Some(d) => if d != from {
            Some(d)
        } else {
            None
        },
        None => None,
    }
}

/// The number of squares among the first `n` of `s` whose piece has color
/// `c`.
pub open spec fn count_color_upto(s: Seq<Piece>, c: Color, n: int) -> int
    decreases n,
{
    if n <= 0 {
        0
    } else {
        count_color_upto(s, c, n - 1) + if s[n - 1].color == Some(c) {
            1int
        } else {
            0int
        }
    }
}

/// The number of squares among the first `n` of `s` that hold exactly the
/// piece `p`.
pub open spec fn count_piece_upto(s: Seq<Piece>, p: Piece, n: int) -> int
    decreases n,
{
    if n <= 0 {
        0
    } else {
        count_piece_upto(s, p, n - 1) + if s[n - 1] == p {
            1int
        } else {
            0int
        }
    }
}

/// Running counts over every prefix of the standard starting position: the
/// sixteen black pieces fill squares zero through fifteen, the sixteen white
/// ones squares forty-eight through sixty-three, and each color's eight pawns
/// sit on its pawn rank.
proof fn lemma_start_counts(s: Seq<Piece>, n: int)
    requires
        s.len() == 64,
        forall|i: int| 0 <= i < 64 ==> s[i] == start_piece(i),
        0 <= n <= 64,
    ensures
        count_color_upto(s, Color::Black, n) == if n <= 16 {
            n
        } else {
            16int
        },
        count_color_upto(s, Color::White, n) == if n <= 48 {
            0int
        } else {
            n - 48
        },
        count_piece_upto(s, piece_of(PieceType::Pawn, Color::Black), n) == if n <= 8 {
            0int
        } else if n <= 16 {
            n - 8
        } else {
            8int
        },
        count_piece_upto(s, piece_of(PieceType::Pawn, Color::White), n) == if n <= 48 {
            0int
        } else if n <= 56 {
            n - 48
        } else {
            8int
        },
    decreases n,
{
    if n > 0 {
        lemma_start_counts(s, n - 1);
        assert(s[n - 1] == start_piece(n - 1));
    }
}

/// Law: the standard starting position holds exactly sixteen pieces of each
/// color and exactly eight pawns of each color, the pawns stand on their home
/// ranks, the back-rank piece order is mirrored between the colors, and the
/// thirty-two middle squares are empty.
#[verifier::rlimit(50)]
pub proof fn lemma_standard_setup(s: Seq<Piece>)
    requires
        s.len() == 64,
        forall|i: int| 0 <= i < 64 ==> s[i] == start_piece(i),
    ensures
        count_color_upto(s, Color::White, 64) == 16,
        count_color_upto(s, Color::Black, 64) == 16,
        count_piece_upto(s, piece_of(PieceType::Pawn, Color::White), 64) == 8,
        count_piece_upto(s, piece_of(PieceType::Pawn, Color::Black), 64) == 8,
        forall|i: int| 8 <= i < 16 ==> #[trigger] s[i] == piece_of(PieceType::Pawn, Color::Black),
        forall|i: int| 48 <= i < 56 ==> #[trigger] s[i] == piece_of(PieceType::Pawn, Color::White),
        forall|f: int|
            0 <= f < 8 ==> (#[trigger] s[f]).kind == s[56 + f].kind && s[f].color == Some(
                Color::Black,
            ) && s[56 + f].color == Some(Color::White),
        forall|i: int| 16 <= i < 48 ==> #[trigger] s[i] == empty_piece(),
{
    lemma_start_counts(s, 64);
    assert forall|i: int| 8 <= i < 16 implies #[trigger] s[i] == piece_of(
        PieceType::Pawn,
        Color::Black,
    ) by {
        assert(s[i] == start_piece(i));
    }
    assert forall|i: int| 48 <= i < 56 implies #[trigger] s[i] == piece_of(
        PieceType::Pawn,
        Color::White,
    ) by {
        assert(s[i] == start_piece(i));
    }
    assert forall|i: int| 16 <= i < 48 implies #[trigger] s[i] == empty_piece() by {
        assert(s[i] == start_piece(i));
    }
    assert forall|f: int| 0 <= f < 8 implies (#[trigger] s[f]).kind == s[56 + f].kind && s[f].color
        == Some(Color::Black) && s[56 + f].color == Some(Color::White) by {
        assert(s[f] == start_piece(f));
        assert(s[56 + f] == start_piece(56 + f));
    }
}

impl Default for Board {
    /// The default board is the standard starting position.
    fn default() -> (b: Board)
        ensures
            b.wf(),
            b.white_turn,
            forall|i: int| 0 <= i < 64 ==> b.squares@[i] == start_piece(i),
    {
        Board::new_standard()
    }
}

} // verus!
