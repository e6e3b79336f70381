use falling_sand::brush::{adjust_brush_size, bresenham_line, place_material_with_brush, spawn_test_materials};
use falling_sand::grid::Grid;
use falling_sand::material::Material;
use falling_sand::particle::Particle;
use falling_sand::render::render_grid;
use falling_sand::scan::{find_horizontal_space, find_vertical_space};

#[test]
fn material_ids_round_trip() {
    let all = [
        Material::Empty,
        Material::Sand,
        Material::Water,
        Material::Concrete,
        Material::Smoke,
        Material::Fire,
    ];
    for (i, m) in all.iter().enumerate() {
        assert_eq!(m.id() as usize, i);
        assert_eq!(Material::from_id(m.id()), *m);
    }
    assert_eq!(Material::from_id(6), Material::Empty);
    assert_eq!(Material::from_id(255), Material::Empty);
}

#[test]
fn property_table_values() {
    let sand = Material::Sand.properties();
    assert_eq!(sand.color, (194, 178, 128));
    assert_eq!(sand.density, 16);
    assert_eq!(sand.viscosity, 9);
    let water = Material::Water.properties();
    assert_eq!(water.density, 10);
    assert_eq!(water.viscosity, 1);
    let concrete = Material::Concrete.properties();
    assert_eq!(concrete.density, 24);
    assert_eq!(concrete.viscosity, 10);
    let smoke = Material::Smoke.properties();
    assert_eq!(smoke.density, 1);
    let fire = Material::Fire.properties();
    assert_eq!(fire.density, 1);
    assert_eq!(fire.viscosity, 2);
    assert_eq!(Material::Empty.properties().density, 0);
}

#[test]
fn pack_properties_exact_layout() {
    // density in the top 5 bits, viscosity in the next 4, then 3-3-2 RGB;
    // the low bit of the green field and the high bit of the blue field
    // share bit 1 of the word.
    let w = Particle::pack_properties(194, 178, 128, 16, 9);
    assert_eq!(w, (16 << 11) | (9 << 7) | (6 << 4) | (5 << 1) | 2);
    assert_eq!(w, 34026);
}

#[test]
fn particle_new_caches_the_table() {
    let p = Particle::new(Material::Sand);
    assert_eq!(p.material_type, 1);
    assert_eq!(p.flags, 1);
    assert_eq!(p.get_density(), 16);
    assert_eq!(p.get_viscosity(), 9);
    // 3-3-2 truncation of (194, 178, 128).
    assert_eq!(p.get_color(), (192, 160, 128));

    let w = Particle::new(Material::Water);
    assert_eq!(w.flags, 3);
    assert_eq!(w.get_density(), 10);
    assert_eq!(w.get_color(), (0, 96, 128));

    let s = Particle::new(Material::Smoke);
    assert_eq!(s.flags, 15);
    let f = Particle::new(Material::Fire);
    assert_eq!(f.flags, 13);
    let c = Particle::new(Material::Concrete);
    assert_eq!(c.flags, 0);
}

#[test]
fn with_color_keeps_physics() {
    let p = Particle::new(Material::Fire).with_color(255, 60, 0);
    assert_eq!(p.material_type, 5);
    assert_eq!(p.get_density(), 1);
    assert_eq!(p.get_viscosity(), 2);
    assert_eq!(p.get_color(), (224, 32, 128));
}

#[test]
fn grid_primitive_operations() {
    let mut g = Grid::new();
    assert!(g.in_bounds(0, 0));
    assert!(g.in_bounds(249, 249));
    assert!(!g.in_bounds(-1, 0));
    assert!(!g.in_bounds(0, 250));
    assert_eq!(g.get(10, 10).material_type, 0);

    g.set(10, 10, Material::Sand);
    assert_eq!(g.get(10, 10).material_type, 1);
    g.set_velocity(10, 10, 35);
    assert_eq!(g.get_velocity(10, 10), 35);

    g.swap(10, 10, 11, 10);
    assert_eq!(g.get(10, 10).material_type, 0);
    assert_eq!(g.get(11, 10).material_type, 1);
    // swap leaves velocities in place
    assert_eq!(g.get_velocity(10, 10), 35);

    // move_to only acts when the destination is empty
    g.set(12, 10, Material::Concrete);
    g.move_to(11, 10, 12, 10);
    assert_eq!(g.get(11, 10).material_type, 1);
    g.move_to(11, 10, 13, 10);
    assert_eq!(g.get(11, 10).material_type, 0);
    assert_eq!(g.get(13, 10).material_type, 1);
}

#[test]
fn move_with_velocity_carries_and_zeroes() {
    let mut g = Grid::new();
    g.set(5, 5, Material::Sand);
    g.set_velocity(5, 5, 20);
    g.move_to_with_velocity(5, 5, 5, 9);
    assert_eq!(g.get(5, 5).material_type, 0);
    assert_eq!(g.get(5, 9).material_type, 1);
    assert_eq!(g.get_velocity(5, 9), 20);
    assert_eq!(g.get_velocity(5, 5), 0);

    // blocked destination: nothing happens
    g.set(6, 5, Material::Water);
    g.set_velocity(6, 5, 7);
    g.move_to_with_velocity(6, 5, 5, 9);
    assert_eq!(g.get(6, 5).material_type, 2);
    assert_eq!(g.get_velocity(6, 5), 7);
}

#[test]
fn duplicate_is_independent() {
    let mut g = Grid::new();
    g.set(3, 4, Material::Water);
    let copy = g.duplicate();
    g.set(3, 4, Material::Empty);
    assert_eq!(copy.get(3, 4).material_type, 2);
    assert_eq!(g.get(3, 4).material_type, 0);
}

#[test]
fn vertical_scan_stops_at_obstacle_and_edge() {
    let mut g = Grid::new();
    g.set(7, 20, Material::Concrete);
    // from (7, 10): cells 11..=19 are empty, 20 is blocked
    assert_eq!(find_vertical_space(&g, 7, 10, 4), 14);
    assert_eq!(find_vertical_space(&g, 7, 10, 9), 19);
    assert_eq!(find_vertical_space(&g, 7, 10, 50), 19);
    assert_eq!(find_vertical_space(&g, 7, 19, 3), 19);
    assert_eq!(find_vertical_space(&g, 7, 10, 0), 10);
    // open column is limited by the bottom edge
    assert_eq!(find_vertical_space(&g, 8, 240, 50), 249);
}

#[test]
fn horizontal_scan_stops_independently() {
    let mut g = Grid::new();
    g.set(4, 30, Material::Concrete);
    g.set(9, 30, Material::Concrete);
    // from (6, 30): left blocked at 4, right blocked at 9
    assert_eq!(find_horizontal_space(&g, 6, 30, 5), (5, 8));
    assert_eq!(find_horizontal_space(&g, 6, 30, 1), (5, 7));
    assert_eq!(find_horizontal_space(&g, 6, 30, 0), (6, 6));
    // immediately blocked on the left only
    assert_eq!(find_horizontal_space(&g, 5, 30, 3), (5, 8));
    // grid edge stops the scan
    assert_eq!(find_horizontal_space(&g, 1, 40, 5), (0, 6));
    assert_eq!(find_horizontal_space(&g, 248, 40, 5), (243, 249));
}

#[test]
fn brush_fills_empty_disc_cells_only() {
    let mut g = Grid::new();
    g.set(20, 20, Material::Concrete);
    place_material_with_brush(&mut g, 20, 20, Material::Sand, 6);
    // half size 3: the disc has radius 3
    assert_eq!(g.get(20, 20).material_type, 3, "occupied cell is not overwritten");
    assert_eq!(g.get(20, 17).material_type, 1);
    assert_eq!(g.get(17, 20).material_type, 1);
    assert_eq!(g.get(22, 22).material_type, 1);
    assert_eq!(g.get(23, 23).material_type, 0, "corner outside the disc");
    assert_eq!(g.get(20, 16).material_type, 0, "outside the radius");
}

#[test]
fn brush_seeds_velocity_on_top_of_particles() {
    let mut g = Grid::new();
    // stamp in mid-air: no velocity seeded
    place_material_with_brush(&mut g, 30, 30, Material::Sand, 2);
    assert_eq!(g.get(30, 30).material_type, 1);
    assert_eq!(g.get_velocity(30, 30), 0);

    // stamp on top of a floor: the freefall-start velocity is seeded
    let mut g2 = Grid::new();
    g2.set(50, 51, Material::Concrete);
    place_material_with_brush(&mut g2, 50, 50, Material::Sand, 2);
    assert_eq!(g2.get(50, 50).material_type, 1);
    assert_eq!(g2.get_velocity(50, 50), 10);
}

#[test]
fn brush_at_the_corner_stays_in_bounds() {
    let mut g = Grid::new();
    place_material_with_brush(&mut g, 0, 0, Material::Water, 8);
    assert_eq!(g.get(0, 0).material_type, 2);
    assert_eq!(g.get(0, 4).material_type, 2);
    place_material_with_brush(&mut g, 249, 249, Material::Water, 8);
    assert_eq!(g.get(249, 249).material_type, 2);
}

#[test]
fn brush_size_adjustment_stays_in_range() {
    assert_eq!(adjust_brush_size(3, true), 4);
    assert_eq!(adjust_brush_size(3, false), 2);
    assert_eq!(adjust_brush_size(30, true), 30);
    assert_eq!(adjust_brush_size(29, true), 30);
    assert_eq!(adjust_brush_size(1, false), 1);
    assert_eq!(adjust_brush_size(0, false), 1);
    assert_eq!(adjust_brush_size(255, true), 30);
}

#[test]
fn spawn_test_materials_places_one_of_each() {
    let mut g = Grid::new();
    spawn_test_materials(&mut g);
    assert_eq!(g.get(50, 10).material_type, 1);
    assert_eq!(g.get(40, 20).material_type, 2);
    assert_eq!(g.get(60, 30).material_type, 3);
    assert_eq!(g.get(50, 40).material_type, 4);
}

#[test]
fn bresenham_diagonal_and_axis_lines() {
    let d: Vec<(usize, usize)> = bresenham_line(0, 0, 3, 3);
    assert_eq!(d, vec![(0, 0), (1, 1), (2, 2)]);
    let h: Vec<(usize, usize)> = bresenham_line(0, 0, 4, 0);
    assert_eq!(h, vec![(0, 0), (1, 0), (2, 0), (3, 0)]);
    let v: Vec<(usize, usize)> = bresenham_line(5, 9, 5, 6);
    assert_eq!(v, vec![(5, 9), (5, 8), (5, 7)]);
    let none: Vec<(usize, usize)> = bresenham_line(7, 7, 7, 7);
    assert!(none.is_empty());
}

#[test]
fn render_resolves_cell_colors() {
    let mut g = Grid::new();
    g.set(0, 0, Material::Water);
    g.set(1, 0, Material::Concrete);
    let buf = render_grid(&g);
    assert_eq!(buf.len(), 250 * 250 * 4);
    // water (0, 119, 190) truncated 3-3-2 -> (0, 96, 128)
    assert_eq!(&buf[0..4], &[0, 96, 128, 255]);
    // concrete (128, 128, 128) truncated, with the green/blue bit overlap
    assert_eq!(&buf[4..8], &[128, 160, 128, 255]);
    // empty -> black
    assert_eq!(&buf[8..12], &[0, 0, 0, 255]);
}
