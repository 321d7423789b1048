//! The piece codec: a piece is a kind with, exactly when the kind is not
//! `Empty`, a color. Pieces are packed into a single byte (kind in the low
//! three bits, the color as a flag bit above them) for storage and as the key
//! of the image lookup table; the codec inverts that packing exactly.

use vstd::prelude::*;

verus! {

/// The kind of a chess piece; `Empty` marks an empty square.
#[derive(Debug, PartialEq, Eq, Copy, Clone, Structural)]
pub enum PieceType {
    Empty,
    Pawn,
    Bishop,
    Knight,
    Rook,
    King,
    Queen,
}

/// A piece's color.
#[derive(Debug, PartialEq, Eq, Copy, Clone, Structural)]
pub enum Color {
    White,
    Black,
}

/// A square's content: a kind and, exactly when the kind is not `Empty`, a
/// color.
#[derive(Debug, PartialEq, Eq, Copy, Clone, Structural)]
pub struct Piece {
    pub kind: PieceType,
    pub color: Option<Color>,
}

/// The empty-square sentinel piece.
pub open spec fn empty_piece() -> Piece {
    Piece { kind: PieceType::Empty, color: None }
}

/// The piece of a given kind and color.
pub open spec fn piece_of(kind: PieceType, color: Color) -> Piece {
    Piece { kind, color: Some(color) }
}

/// The code packed into the low three bits of an encoded piece.
pub open spec fn kind_code(kind: PieceType) -> int {
    match kind {
        PieceType::Empty => 0,
        PieceType::Pawn => 1,
        PieceType::Bishop => 2,
        PieceType::Knight => 3,
        PieceType::Rook => 4,
        PieceType::King => 5,
        PieceType::Queen => 6,
    }
}

/// The color flag packed above the kind bits: bit 3 for white, bit 4 for
/// black, neither for the empty square.
pub open spec fn color_code(color: Option<Color>) -> int {
    match color {
        None => 0,
        Some(Color::White) => 8,
        Some(Color::Black) => 16,
    }
}

/// The packed form of a kind and color: the kind code in the low three bits
/// with the color flag or-ed (here: added, the bit ranges are disjoint) above.
pub open spec fn spec_encode(kind: PieceType, color: Option<Color>) -> int {
    kind_code(kind) + color_code(color)
}

/// The kind whose code is `code`, for codes of occupied pieces (one through
/// six).
pub open spec fn kind_of_code(code: int) -> PieceType
    recommends
        1 <= code <= 6,
{
    if code == 1 {
        PieceType::Pawn
    } else if code == 2 {
        PieceType::Bishop
    } else if code == 3 {
        PieceType::Knight
    } else if code == 4 {
        PieceType::Rook
    } else if code == 5 {
        PieceType::King
    } else {
        PieceType::Queen
    }
}

/// The decoding of a packed value: the exact inverse of `spec_encode` on the
/// thirteen patterns it produces (the zero sentinel, and six kinds times two
/// colors), `None` on every other value.
pub open spec fn spec_decode(v: int) -> Option<Piece> {
    let k = v % 8;
    let c = v / 8;
    if v == 0 {
        Some(empty_piece())
    } else if 1 <= k <= 6 && (c == 1 || c == 2) {
        Some(piece_of(kind_of_code(k), if c == 1 { Color::White } else { Color::Black }))
    } else {
        None
    }
}

impl Piece {
    /// A piece is well formed when it has a color exactly where it has a kind.
    pub open spec fn wf(self) -> bool {
        self.color is Some <==> self.kind != PieceType::Empty
    }

    /// The empty-square sentinel.
    pub fn empty() -> (p: Piece)
        ensures
            p == empty_piece(),
    {
        Piece { kind: PieceType::Empty, color: None }
    }

    /// Build a piece. A color must be given exactly when the kind is not
    /// `Empty`; any other combination is a caller error.
    pub fn new(piece_type: PieceType, color: Option<Color>) -> (p: Piece)
        requires
            (color is Some) <==> piece_type != PieceType::Empty,
        ensures
            p.kind == piece_type,
            p.color == color,
            p.wf(),
    {
        Piece { kind: piece_type, color }
    }

    /// Checked construction: `Some` exactly for the matched kind/color pairs
    /// that `new` accepts, `None` for every mismatched pair.
    pub fn try_new(piece_type: PieceType, color: Option<Color>) -> (r: Option<Piece>)
        ensures
            r is Some <==> ((color is Some) <==> piece_type != PieceType::Empty),
            r matches Some(p) ==> p.kind == piece_type && p.color == color,
    {
        let occupied = piece_type != PieceType::Empty;
        if color.is_some() == occupied {
            Some(Piece { kind: piece_type, color })
        } else {
            None
        }
    }

    /// The kind stored in the piece.
    pub fn piece_type(&self) -> (k: PieceType)
        ensures
            k == self.kind,
    {
        self.kind
    }

    /// The color stored in the piece, `None` for the empty square.
    pub fn color(&self) -> (c: Option<Color>)
        ensures
            c == self.color,
    {
        self.color
    }

    /// Pack the piece into its single-byte form: the kind code in the low
    /// three bits, the color flag above them.
    pub fn encode(&self) -> (v: u8)
        ensures
            v as int == spec_encode(self.kind, self.color),
    {
        let k: u8 = match self.kind {
            PieceType::Empty => 0,
            PieceType::Pawn => 1,
            PieceType::Bishop => 2,
            PieceType::Knight => 3,
            PieceType::Rook => 4,
            PieceType::King => 5,
            PieceType::Queen => 6,
        };
        let c: u8 = match self.color {
            None => 0,
            Some(Color::White) => 8,
            Some(Color::Black) => 16,
        };
        k + c
    }

    /// Unpack a single-byte value; `None` for every pattern `encode` never
    /// produces.
    pub fn decode(value: u8) -> (r: Option<Piece>)
        ensures
            r == spec_decode(value as int),
    {
        let k: u8 = value % 8;
        let c: u8 = value / 8;
        if value == 0 {
            Some(Piece::empty())
        } else if 1 <= k && k <= 6 && (c == 1 || c == 2) {
            let kind = if k == 1 {
                PieceType::Pawn
            } else if k == 2 {
                PieceType::Bishop
            } else if k == 3 {
                PieceType::Knight
            } else if k == 4 {
                PieceType::Rook
            } else if k == 5 {
                PieceType::King
            } else {
                PieceType::Queen
            };
            let color = if c == 1 {
                Color::White
            } else {
                Color::Black
            };
            Some(Piece { kind, color: Some(color) })
        } else {
            None
        }
    }
}

/// The twelve occupied piece values, each kind with each color: the key set
/// of the piece-image lookup table, which is keyed by `encode`.
pub open spec fn occupied_piece_list() -> Seq<Piece> {
    seq![
        piece_of(PieceType::Pawn, Color::White),
        piece_of(PieceType::Pawn, Color::Black),
        piece_of(PieceType::Bishop, Color::White),
        piece_of(PieceType::Bishop, Color::Black),
        piece_of(PieceType::Knight, Color::White),
        piece_of(PieceType::Knight, Color::Black),
        piece_of(PieceType::Rook, Color::White),
        piece_of(PieceType::Rook, Color::Black),
        piece_of(PieceType::King, Color::White),
        piece_of(PieceType::King, Color::Black),
        piece_of(PieceType::Queen, Color::White),
        piece_of(PieceType::Queen, Color::Black),
    ]
}

/// The twelve occupied piece values, in the order of `occupied_piece_list`:
/// one entry per image of the asset lookup table.
pub fn occupied_pieces() -> (v: Vec<Piece>)
    ensures
        v@ == occupied_piece_list(),
        v@.len() == 12,
{
    let mut v: Vec<Piece> = Vec::new();
    v.push(Piece::new(PieceType::Pawn, Some(Color::White)));
    v.push(Piece::new(PieceType::Pawn, Some(Color::Black)));
    v.push(Piece::new(PieceType::Bishop, Some(Color::White)));
    v.push(Piece::new(PieceType::Bishop, Some(Color::Black)));
    v.push(Piece::new(PieceType::Knight, Some(Color::White)));
    v.push(Piece::new(PieceType::Knight, Some(Color::Black)));
    v.push(Piece::new(PieceType::Rook, Some(Color::White)));
    v.push(Piece::new(PieceType::Rook, Some(Color::Black)));
    v.push(Piece::new(PieceType::King, Some(Color::White)));
    v.push(Piece::new(PieceType::King, Some(Color::Black)));
    v.push(Piece::new(PieceType::Queen, Some(Color::White)));
    v.push(Piece::new(PieceType::Queen, Some(Color::Black)));
    proof {
        assert(v@ =~= occupied_piece_list());
    }
    v
}

/// Law: decoding inverts encoding for every piece that has a kind and a
/// color.
pub proof fn lemma_decode_encode(kind: PieceType, color: Color)
    requires
        kind != PieceType::Empty,
    ensures
        spec_decode(spec_encode(kind, Some(color))) == Some(piece_of(kind, color)),
{
    let v = spec_encode(kind, Some(color));
    assert(1 <= kind_code(kind) <= 6);
    assert(v % 8 == kind_code(kind));
    assert(v / 8 == color_code(Some(color)) / 8);
    assert(kind_of_code(kind_code(kind)) == kind);
}

/// Law: the empty piece encodes to the all-zero sentinel, and the sentinel
/// decodes back to the empty piece.
pub proof fn lemma_empty_sentinel()
    ensures
        spec_encode(PieceType::Empty, None) == 0,
        spec_decode(0) == Some(empty_piece()),
{
}

} // verus!
