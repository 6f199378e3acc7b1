use engine::math::UVec2;
use engine::tile::{Passability, Tile, TileEdge};

const ALL: [Passability; 5] = [
    Passability::Always,
    Passability::Never,
    Passability::Bike,
    Passability::Surf,
    Passability::Waterfall,
];

#[test]
fn combining_keeps_the_more_demanding() {
    assert_eq!(Passability::Always & Passability::Surf, Passability::Surf);
    assert_eq!(Passability::Surf & Passability::Bike, Passability::Surf);
    assert_eq!(Passability::Bike & Passability::Waterfall, Passability::Waterfall);
    assert_eq!(Passability::Waterfall & Passability::Never, Passability::Never);
    assert_eq!(Passability::Never & Passability::Always, Passability::Never);
    let mut p = Passability::Bike;
    p &= Passability::Always;
    assert_eq!(p, Passability::Bike);
    p &= Passability::Surf;
    assert_eq!(p, Passability::Surf);
}

#[test]
fn combining_is_commutative_and_associative() {
    for a in ALL {
        assert_eq!(a & a, a);
        assert_eq!(Passability::Always & a, a);
        assert_eq!(a & Passability::Never, Passability::Never);
        for b in ALL {
            assert_eq!(a & b, b & a);
            for c in ALL {
                assert_eq!((a & b) & c, a & (b & c));
            }
        }
    }
}

#[test]
fn default_passability_is_always() {
    assert_eq!(Passability::default(), Passability::Always);
}

#[test]
fn edges_reverse_and_convert() {
    let e = TileEdge::from((UVec2::new(1, 2), UVec2::new(1, 3)));
    assert_eq!(e, TileEdge { from: UVec2::new(1, 2), to: UVec2::new(1, 3) });
    let r = e.reverse();
    assert_eq!(r.from, UVec2::new(1, 3));
    assert_eq!(r.to, UVec2::new(1, 2));
    assert_eq!(r.reverse(), e);
}

#[test]
fn tile_fields() {
    let t = Tile { passability: Passability::Surf, blocked: true };
    assert!(t.blocked);
    assert_eq!(t.passability, Passability::Surf);
}
