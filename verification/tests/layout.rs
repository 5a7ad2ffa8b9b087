use cgmath::{ortho, Vector4};
use hexgui::button::{quad_mesh, Button, QuadVertex, Translation};
use hexgui::geom::{map_pos_to_lattice_pos, row_is_shifted, LatticePos, MapPos};
use hexgui::gui::{
    basic_text_size, screen_projection_bounds, small_text_size, OrthoBounds, TextSize,
    LINES_PER_SCREEN_H,
};
use hexgui::types::{ScreenPos, Size2};

#[test]
fn even_rows_are_shifted() {
    assert!(row_is_shifted(MapPos { x: 0, y: 0 }));
    assert!(row_is_shifted(MapPos { x: 5, y: 2 }));
    assert!(row_is_shifted(MapPos { x: 5, y: -2 }));
    assert!(!row_is_shifted(MapPos { x: 5, y: 1 }));
    assert!(!row_is_shifted(MapPos { x: 5, y: -1 }));
    assert!(!row_is_shifted(MapPos { x: 5, y: -3 }));
    assert!(!row_is_shifted(MapPos { x: 0, y: i32::MAX }));
    assert!(row_is_shifted(MapPos { x: 0, y: i32::MIN }));
}

#[test]
fn lattice_position_of_even_row() {
    assert_eq!(map_pos_to_lattice_pos(MapPos { x: 0, y: 0 }), LatticePos { x: 1, y: 0 });
    assert_eq!(map_pos_to_lattice_pos(MapPos { x: 3, y: 4 }), LatticePos { x: 7, y: 12 });
    assert_eq!(map_pos_to_lattice_pos(MapPos { x: -3, y: -2 }), LatticePos { x: -5, y: -6 });
}

#[test]
fn lattice_position_of_odd_row() {
    assert_eq!(map_pos_to_lattice_pos(MapPos { x: 3, y: 5 }), LatticePos { x: 6, y: 15 });
    assert_eq!(map_pos_to_lattice_pos(MapPos { x: -3, y: -1 }), LatticePos { x: -6, y: -3 });
}

#[test]
fn lattice_position_at_the_limits() {
    assert_eq!(
        map_pos_to_lattice_pos(MapPos { x: i32::MAX, y: i32::MAX }),
        LatticePos { x: 2 * (i32::MAX as i64), y: 3 * (i32::MAX as i64) }
    );
    assert_eq!(
        map_pos_to_lattice_pos(MapPos { x: i32::MIN, y: i32::MIN }),
        LatticePos { x: 2 * (i32::MIN as i64) + 1, y: 3 * (i32::MIN as i64) }
    );
}

#[test]
fn text_sizes_are_fractions_of_the_window_height() {
    let win = Size2 { w: 800, h: 700 };
    assert_eq!(LINES_PER_SCREEN_H, 14);
    assert_eq!(basic_text_size(win), TextSize { numer: 700, denom: 14 });
    assert_eq!(small_text_size(win), TextSize { numer: 700, denom: 28 });
}

#[test]
fn small_text_is_half_the_basic_text() {
    let win = Size2 { w: 1024, h: 768 };
    let basic = basic_text_size(win);
    let small = small_text_size(win);
    let basic_px = basic.numer as f32 / basic.denom as f32;
    let small_px = small.numer as f32 / small.denom as f32;
    assert_eq!(small_px, basic_px / 2.0);
    assert_eq!(basic_px, 768.0 / 14.0);
}

#[test]
fn projection_bounds_of_a_window() {
    assert_eq!(
        screen_projection_bounds(Size2 { w: 640, h: 480 }),
        OrthoBounds { left: 0, right: 640, bottom: 0, top: 480, near: -1, far: 1 }
    );
}

#[test]
fn window_corners_project_to_the_unit_square() {
    let win = Size2 { w: 640, h: 480 };
    let b = screen_projection_bounds(win);
    let m = ortho(
        b.left as f32,
        b.right as f32,
        b.bottom as f32,
        b.top as f32,
        b.near as f32,
        b.far as f32,
    );
    let corner = |x: f32, y: f32| m * Vector4::new(x, y, 0.0, 1.0);
    let bl = corner(0.0, 0.0);
    let tr = corner(640.0, 480.0);
    let tl = corner(0.0, 480.0);
    let br = corner(640.0, 0.0);
    assert_eq!((bl.x, bl.y, bl.w), (-1.0, -1.0, 1.0));
    assert_eq!((tr.x, tr.y, tr.w), (1.0, 1.0, 1.0));
    assert_eq!((tl.x, tl.y), (-1.0, 1.0));
    assert_eq!((br.x, br.y), (1.0, -1.0));
}

#[test]
fn quad_covers_the_label() {
    let mesh = quad_mesh(Size2 { w: 50, h: 20 });
    assert_eq!(
        mesh.vertices,
        [
            QuadVertex { x: 0, y: 0, z: 0, u: 0, v: 1 },
            QuadVertex { x: 0, y: 20, z: 0, u: 0, v: 0 },
            QuadVertex { x: 50, y: 0, z: 0, u: 1, v: 1 },
            QuadVertex { x: 50, y: 20, z: 0, u: 1, v: 0 },
        ]
    );
    assert_eq!(mesh.indices, [0, 1, 2, 1, 2, 3]);
}

#[test]
fn quad_of_an_empty_label() {
    let mesh = quad_mesh(Size2 { w: 0, h: 0 });
    for vertex in mesh.vertices.iter() {
        assert_eq!((vertex.x, vertex.y, vertex.z), (0, 0, 0));
    }
    assert_eq!(mesh.indices, [0, 1, 2, 1, 2, 3]);
}

#[test]
fn button_keeps_what_it_was_made_of() {
    let button = Button::new_with_size("mesh", Size2 { w: 50, h: 20 }, ScreenPos { x: 10, y: 30 });
    assert_eq!(button.pos(), ScreenPos { x: 10, y: 30 });
    assert_eq!(button.size(), Size2 { w: 50, h: 20 });
    assert_eq!(*button.mesh(), "mesh");
    assert_eq!(button.translation(), Translation { x: 10, y: 30, z: 0 });
}

#[test]
fn set_pos_moves_only_the_position() {
    let mut button = Button::new_with_size(7u8, Size2 { w: 50, h: 20 }, ScreenPos { x: 10, y: 30 });
    button.set_pos(ScreenPos { x: -4, y: 99 });
    assert_eq!(button.pos(), ScreenPos { x: -4, y: 99 });
    assert_eq!(button.size(), Size2 { w: 50, h: 20 });
    assert_eq!(*button.mesh(), 7u8);
    assert_eq!(button.translation(), Translation { x: -4, y: 99, z: 0 });
}
