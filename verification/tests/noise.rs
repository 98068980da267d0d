use opensimplex_noise::open_simplex_noise_2d::OpenSimplexNoise2D;
use opensimplex_noise::{generate_perm_array, OpenSimplexNoise, DEFAULT_SEED, PSIZE};

#[test]
fn table_generation_is_deterministic() {
    let a = generate_perm_array(7);
    let b = generate_perm_array(7);
    assert_eq!(a, b);
    let n1 = OpenSimplexNoise::new(Some(7));
    let n2 = OpenSimplexNoise::new(Some(7));
    assert_eq!(n1.perm_table(), n2.perm_table());
}

#[test]
fn table_is_a_bijection_for_every_seed_tested() {
    for seed in [0u32, 1, 42, 12345, u32::MAX] {
        let table = generate_perm_array(seed);
        assert_eq!(table.len(), PSIZE as usize);
        let mut seen = vec![false; PSIZE as usize];
        for &value in table.iter() {
            assert!(0 <= value && value < PSIZE);
            assert!(!seen[value as usize]);
            seen[value as usize] = true;
        }
        assert!(seen.iter().all(|&s| s));
    }
}

#[test]
fn different_seeds_give_different_tables() {
    let a = generate_perm_array(0);
    let b = generate_perm_array(1);
    assert_ne!(a, b);
}

#[test]
fn golden_table_entries_seed_zero() {
    let table = generate_perm_array(0);
    let first: Vec<i32> = table.iter().take(16).copied().collect();
    assert_eq!(
        first,
        vec![1162, 0, 4, 21, 7, 52, 88, 6, 36, 861, 12, 20, 32, 964, 22, 709]
    );
    assert_eq!(table[255], 785);
    assert_eq!(table[256], 364);
    assert_eq!(table[1000], 577);
    assert_eq!(table[2046], 123);
    assert_eq!(table[2047], 366);
}

#[test]
fn golden_table_entries_other_seeds() {
    let table1 = generate_perm_array(1);
    assert_eq!(&table1[..8], &[180, 22, 312, 4, 324, 5, 1900, 928]);
    let table42 = generate_perm_array(42);
    assert_eq!(&table42[..8], &[12, 4, 5, 7, 498, 1020, 34, 748]);
}

#[test]
fn default_seed_is_zero() {
    assert_eq!(DEFAULT_SEED, 0);
    let by_default = OpenSimplexNoise::new(None);
    let explicit = OpenSimplexNoise::new(Some(0));
    assert_eq!(by_default.perm_table(), explicit.perm_table());
}

#[test]
fn grad_table_index_golden_values_seed_zero() {
    let noise = OpenSimplexNoise::new(Some(0));
    let table = noise.perm_table();
    let cases = [
        ((0, 0), 0),
        ((1, 0), 5),
        ((0, 1), 2),
        ((5, 7), 2),
        ((-1, -1), 0),
        ((255, 255), 0),
        ((300, -17), 3),
        ((1000, 2000), 2),
    ];
    for ((gx, gy), expected) in cases {
        assert_eq!(
            OpenSimplexNoise2D::get_grad_table_index(gx, gy, table),
            expected
        );
    }
}

#[test]
fn grad_table_index_always_below_eight() {
    let noise = OpenSimplexNoise::new(Some(99));
    let table = noise.perm_table();
    for gx in -40..40 {
        for gy in -40..40 {
            assert!(OpenSimplexNoise2D::get_grad_table_index(gx, gy, table) < 8);
        }
    }
}

#[test]
fn grad_table_entries_are_the_eight_directions() {
    let expected = [
        (5, 2),
        (2, 5),
        (-5, 2),
        (-2, 5),
        (5, -2),
        (2, -5),
        (-5, -2),
        (-2, -5),
    ];
    for (index, &grad) in expected.iter().enumerate() {
        assert_eq!(OpenSimplexNoise2D::grad_table_entry(index), grad);
    }
}

#[test]
fn extrapolated_gradient_matches_table_lookup() {
    let noise = OpenSimplexNoise::new(Some(0));
    let table = noise.perm_table();
    assert_eq!(OpenSimplexNoise2D::extrapolate_gradient(1, 0, table), (2, -5));
    assert_eq!(OpenSimplexNoise2D::extrapolate_gradient(0, 1, table), (-5, 2));
    assert_eq!(OpenSimplexNoise2D::extrapolate_gradient(0, 0, table), (5, 2));
}

#[test]
fn triangle_vertices_lower_triangle() {
    // A point exactly on the dividing grid line counts as lower: the factor
    // vertex is (0, 0), deterministically.
    let (factor, extra) = OpenSimplexNoise2D::inside_triangle_vertices(true, false, false, false);
    assert_eq!(factor, (0, 0));
    assert_eq!(extra, (1, 1));
    let (factor, extra) = OpenSimplexNoise2D::inside_triangle_vertices(true, true, false, true);
    assert_eq!(factor, (0, 0));
    assert_eq!(extra, (1, -1));
    let (factor, extra) = OpenSimplexNoise2D::inside_triangle_vertices(true, false, true, false);
    assert_eq!(factor, (0, 0));
    assert_eq!(extra, (-1, 1));
}

#[test]
fn triangle_vertices_upper_triangle() {
    let (factor, extra) = OpenSimplexNoise2D::inside_triangle_vertices(false, false, false, false);
    assert_eq!(factor, (1, 1));
    assert_eq!(extra, (0, 0));
    let (factor, extra) = OpenSimplexNoise2D::inside_triangle_vertices(false, true, false, true);
    assert_eq!(factor, (1, 1));
    assert_eq!(extra, (2, 0));
    let (factor, extra) = OpenSimplexNoise2D::inside_triangle_vertices(false, false, true, false);
    assert_eq!(factor, (1, 1));
    assert_eq!(extra, (0, 2));
}
