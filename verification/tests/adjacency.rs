use squircle::distribute::Adjacent;
use squircle::distribute::Corner;
use squircle::distribute::Side;
use squircle::distribute::get_adjacents;
use squircle::distribute::side_is_horizontal;

#[test]
fn adjacents_of_top_left() {
    let (a1, a2) = get_adjacents(&Corner::TopLeft);
    assert_eq!(a1, Adjacent { corner: Corner::TopRight, side: Side::Top });
    assert_eq!(a2, Adjacent { corner: Corner::BottomLeft, side: Side::Left });
}

#[test]
fn adjacents_of_top_right() {
    let (a1, a2) = get_adjacents(&Corner::TopRight);
    assert_eq!(a1, Adjacent { corner: Corner::TopLeft, side: Side::Top });
    assert_eq!(a2, Adjacent { corner: Corner::BottomRight, side: Side::Right });
}

#[test]
fn adjacents_of_bottom_left() {
    let (a1, a2) = get_adjacents(&Corner::BottomLeft);
    assert_eq!(a1, Adjacent { corner: Corner::BottomRight, side: Side::Bottom });
    assert_eq!(a2, Adjacent { corner: Corner::TopLeft, side: Side::Left });
}

#[test]
fn adjacents_of_bottom_right() {
    let (a1, a2) = get_adjacents(&Corner::BottomRight);
    assert_eq!(a1, Adjacent { corner: Corner::BottomLeft, side: Side::Bottom });
    assert_eq!(a2, Adjacent { corner: Corner::TopRight, side: Side::Right });
}

#[test]
fn adjacency_is_symmetric() {
    let corners = [Corner::TopLeft, Corner::TopRight, Corner::BottomLeft, Corner::BottomRight];
    for corner in corners {
        let (a1, a2) = get_adjacents(&corner);
        for adj in [a1, a2] {
            let (b1, b2) = get_adjacents(&adj.corner);
            assert!(
                (b1.corner == corner && b1.side == adj.side)
                    || (b2.corner == corner && b2.side == adj.side)
            );
        }
    }
}

#[test]
fn horizontal_sides_use_the_width() {
    assert!(side_is_horizontal(&Side::Top));
    assert!(side_is_horizontal(&Side::Bottom));
    assert!(!side_is_horizontal(&Side::Left));
    assert!(!side_is_horizontal(&Side::Right));
}
