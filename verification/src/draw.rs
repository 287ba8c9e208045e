//! The fixed walk the path assembler takes around the rectangle: one move
//! command, the four corner pieces in clockwise order with an edge line
//! before each corner after the first, and one close command.

use vstd::prelude::*;
use crate::distribute::Corner;
use crate::distribute::Side;

verus! {

/// One structural piece of the assembled outline. The numeric coordinates of
/// a piece are not part of this model; only the kind and order of the pieces
/// are.
#[derive(Clone, Copy, Debug, PartialEq, Eq, Structural)]
pub enum PathPiece {
    /// The absolute move that opens the contour, on the top edge.
    MoveTo,
    /// A corner drawn as two cubic curves flanking a circular arc.
    CornerArc(Corner),
    /// A degenerate corner with zero radius: a straight segment of length
    /// `p`, which is zero there.
    CornerStraight(Corner),
    /// The straight run along a side, up to the start of the next corner.
    EdgeLine(Side),
    /// The close that returns the contour to its start point.
    ClosePath,
}

/// The piece a single corner contributes: an arc-and-curves piece when the
/// corner is rounded, a straight joint when its radius is zero.
pub open spec fn corner_piece(corner: Corner, rounded: bool) -> PathPiece {
    if rounded {
        PathPiece::CornerArc(corner)
    } else {
        PathPiece::CornerStraight(corner)
    }
}

/// The full walk: start on the top edge, then top-right corner, right edge,
/// bottom-right corner, bottom edge, bottom-left corner, left edge, top-left
/// corner, close. Each `rounded` flag says whether that corner's clamped
/// radius is positive.
pub open spec fn path_outline(
    top_right_rounded: bool,
    bottom_right_rounded: bool,
    bottom_left_rounded: bool,
    top_left_rounded: bool,
) -> Seq<PathPiece> {
    seq![
        PathPiece::MoveTo,
        corner_piece(Corner::TopRight, top_right_rounded),
        PathPiece::EdgeLine(Side::Right),
        corner_piece(Corner::BottomRight, bottom_right_rounded),
        PathPiece::EdgeLine(Side::Bottom),
        corner_piece(Corner::BottomLeft, bottom_left_rounded),
        PathPiece::EdgeLine(Side::Left),
        corner_piece(Corner::TopLeft, top_left_rounded),
        PathPiece::ClosePath,
    ]
}

/// The ordered pieces of the outline for the given per-corner rounding flags.
pub fn plan_path(
    top_right_rounded: bool,
    bottom_right_rounded: bool,
    bottom_left_rounded: bool,
    top_left_rounded: bool,
) -> (r: Vec<PathPiece>)
    ensures
        r@ == path_outline(
            top_right_rounded,
            bottom_right_rounded,
            bottom_left_rounded,
            top_left_rounded,
        ),
{
    let mut pieces: Vec<PathPiece> = Vec::new();
    pieces.push(PathPiece::MoveTo);
    pieces.push(corner_piece_exec(Corner::TopRight, top_right_rounded));
    pieces.push(PathPiece::EdgeLine(Side::Right));
    pieces.push(corner_piece_exec(Corner::BottomRight, bottom_right_rounded));
    pieces.push(PathPiece::EdgeLine(Side::Bottom));
    pieces.push(corner_piece_exec(Corner::BottomLeft, bottom_left_rounded));
    pieces.push(PathPiece::EdgeLine(Side::Left));
    pieces.push(corner_piece_exec(Corner::TopLeft, top_left_rounded));
    pieces.push(PathPiece::ClosePath);
    proof {
        assert(pieces@ =~= path_outline(
            top_right_rounded,
            bottom_right_rounded,
            bottom_left_rounded,
            top_left_rounded,
        ));
    }
    pieces
}

/// The piece one corner contributes, as executable code.
fn corner_piece_exec(corner: Corner, rounded: bool) -> (r: PathPiece)
    ensures
        r == corner_piece(corner, rounded),
{
    if rounded {
        PathPiece::CornerArc(corner)
    } else {
        PathPiece::CornerStraight(corner)
    }
}

/// Whatever the rounding flags, the walk is a single closed contour: it opens
/// with the one move command, visits each of the four corners exactly once,
/// clockwise from the top-right corner, and ends with the close command that
/// returns to the start. A zero-radius corner still stands in the walk, as
/// its straight joint, so the contour closes in that case too.
pub proof fn lemma_outline_closed(
    top_right_rounded: bool,
    bottom_right_rounded: bool,
    bottom_left_rounded: bool,
    top_left_rounded: bool,
)
    ensures
        ({
            let outline = path_outline(
                top_right_rounded,
                bottom_right_rounded,
                bottom_left_rounded,
                top_left_rounded,
            );
            &&& outline.len() == 9
            &&& outline.first() == PathPiece::MoveTo
            &&& outline.last() == PathPiece::ClosePath
            &&& outline[1] == corner_piece(Corner::TopRight, top_right_rounded)
            &&& outline[3] == corner_piece(Corner::BottomRight, bottom_right_rounded)
            &&& outline[5] == corner_piece(Corner::BottomLeft, bottom_left_rounded)
            &&& outline[7] == corner_piece(Corner::TopLeft, top_left_rounded)
            &&& forall|i: int|
                #![trigger outline[i]]
                1 < i < 8 && i % 2 == 0 ==> outline[i] matches PathPiece::EdgeLine(_)
        }),
{
}

} // verus!
