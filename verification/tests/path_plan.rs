use squircle::distribute::Corner;
use squircle::distribute::Side;
use squircle::draw::PathPiece;
use squircle::draw::plan_path;

#[test]
fn fully_rounded_outline() {
    let pieces = plan_path(true, true, true, true);
    assert_eq!(
        pieces,
        vec![
            PathPiece::MoveTo,
            PathPiece::CornerArc(Corner::TopRight),
            PathPiece::EdgeLine(Side::Right),
            PathPiece::CornerArc(Corner::BottomRight),
            PathPiece::EdgeLine(Side::Bottom),
            PathPiece::CornerArc(Corner::BottomLeft),
            PathPiece::EdgeLine(Side::Left),
            PathPiece::CornerArc(Corner::TopLeft),
            PathPiece::ClosePath,
        ]
    );
}

#[test]
fn zero_radius_rectangle_outline() {
    // all radii zero: straight joints at every corner, still one closed walk
    let pieces = plan_path(false, false, false, false);
    assert_eq!(
        pieces,
        vec![
            PathPiece::MoveTo,
            PathPiece::CornerStraight(Corner::TopRight),
            PathPiece::EdgeLine(Side::Right),
            PathPiece::CornerStraight(Corner::BottomRight),
            PathPiece::EdgeLine(Side::Bottom),
            PathPiece::CornerStraight(Corner::BottomLeft),
            PathPiece::EdgeLine(Side::Left),
            PathPiece::CornerStraight(Corner::TopLeft),
            PathPiece::ClosePath,
        ]
    );
}

#[test]
fn single_zero_radius_corner_still_closes() {
    let pieces = plan_path(true, true, false, true);
    assert_eq!(pieces.len(), 9);
    assert_eq!(pieces[0], PathPiece::MoveTo);
    assert_eq!(pieces[1], PathPiece::CornerArc(Corner::TopRight));
    assert_eq!(pieces[5], PathPiece::CornerStraight(Corner::BottomLeft));
    assert_eq!(pieces[8], PathPiece::ClosePath);
}

#[test]
fn walk_is_clockwise_from_top_right() {
    let pieces = plan_path(true, false, true, false);
    let corners: Vec<Corner> = pieces
        .iter()
        .filter_map(|piece| match piece {
            PathPiece::CornerArc(c) | PathPiece::CornerStraight(c) => Some(*c),
            _ => None,
        })
        .collect();
    assert_eq!(
        corners,
        vec![Corner::TopRight, Corner::BottomRight, Corner::BottomLeft, Corner::TopLeft]
    );
}
