use raytracer::diorama::{generate_diorama, generate_diorama2, CubePlacement};
use raytracer::shading::{skybox_color, MAX_RAY_DEPTH};
use raytracer::color::Color;

#[test]
fn diorama_has_one_placement_per_nonzero_cell() {
    let placements = generate_diorama();
    assert_eq!(placements.len(), 236);
    // Bottom layer: a full 8x8 slab of material 2.
    for z in 0..8 {
        for x in 0..8 {
            let p = placements[z * 8 + x];
            assert_eq!(p, CubePlacement { x, y: 0, z, material_index: 2 });
        }
    }
    // The first placement above the slab starts layer 1.
    assert_eq!(placements[64], CubePlacement { x: 0, y: 1, z: 0, material_index: 1 });
    // The single crafting table of the scene.
    assert!(placements.contains(&CubePlacement { x: 3, y: 3, z: 4, material_index: 7 }));
    // The last placement: a lamp at the top layer's far row.
    assert_eq!(*placements.last().unwrap(), CubePlacement { x: 0, y: 10, z: 5, material_index: 11 });
}

#[test]
fn diorama_placements_are_in_scan_order() {
    let placements = generate_diorama();
    for w in placements.windows(2) {
        let (a, b) = (w[0], w[1]);
        assert!((a.y, a.z, a.x) < (b.y, b.z, b.x));
    }
    for p in &placements {
        assert!(p.x < 8 && p.y < 11 && p.z < 8);
        assert!(p.material_index >= 1 && p.material_index <= 11);
    }
}

#[test]
fn second_diorama_layout() {
    let placements = generate_diorama2();
    assert_eq!(placements.len(), 44);
    assert_eq!(placements[0], CubePlacement { x: 1, y: 0, z: 1, material_index: 11 });
    assert_eq!(*placements.last().unwrap(), CubePlacement { x: 4, y: 2, z: 4, material_index: 3 });
    // Its centerpiece: a 2x2x1 block of material 3 at height 2.
    for (x, z) in [(3, 3), (4, 3), (3, 4), (4, 4)] {
        assert!(placements.contains(&CubePlacement { x, y: 2, z, material_index: 3 }));
    }
    // Nothing in the second diorama touches the border columns.
    for p in &placements {
        assert!(p.x >= 1 && p.x <= 6 && p.z >= 1 && p.z <= 6);
    }
}

#[test]
fn shading_constants() {
    assert_eq!(skybox_color(), Color::new(40, 24, 128));
    assert_eq!(skybox_color().to_hex(), 0x281880);
    assert_eq!(MAX_RAY_DEPTH, 1);
}
