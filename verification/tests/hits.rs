use shade_tree::param::{
    is_below, is_inside, is_non_negative, is_positive, order_key, ONE_BITS, ONE_KEY, ZERO_KEY,
};
use shade_tree::sample::is_rejected;
use shade_tree::sphere::{Quadratic, Root};
use shade_tree::world::{nearest, World};

fn key(t: f64) -> Option<u64> {
    order_key(t.to_bits())
}

#[test]
fn order_key_of_zero_is_the_midpoint() {
    assert_eq!(order_key(0), Some(0x8000_0000_0000_0000));
    assert_eq!(key(0.0), Some(0x8000_0000_0000_0000));
}

#[test]
fn order_key_joins_the_two_zeros() {
    assert_eq!(key(-0.0), key(0.0));
    assert_eq!(order_key(0x8000_0000_0000_0000), order_key(0));
}

#[test]
fn order_key_exact_values() {
    // 1.0 has the bits 0x3ff0_0000_0000_0000.
    assert_eq!(order_key(0x3ff0_0000_0000_0000), Some(0xbff0_0000_0000_0000));
    assert_eq!(key(1.0), Some(0xbff0_0000_0000_0000));
    // -1.0 has the same magnitude below the midpoint.
    assert_eq!(key(-1.0), Some(0x8000_0000_0000_0000 - 0x3ff0_0000_0000_0000));
    assert_eq!(key(f64::INFINITY), Some(0xfff0_0000_0000_0000));
    assert_eq!(key(f64::NEG_INFINITY), Some(0x0010_0000_0000_0000));
}

#[test]
fn order_key_rejects_what_is_no_number() {
    assert_eq!(key(f64::NAN), None);
    assert_eq!(key(-f64::NAN), None);
    assert_eq!(order_key(0x7ff0_0000_0000_0001), None);
    assert_eq!(order_key(0xffff_ffff_ffff_ffff), None);
    assert_eq!(order_key(0x7fff_ffff_ffff_ffff), None);
}

#[test]
fn order_key_keeps_the_numeric_order() {
    let samples = [
        f64::NEG_INFINITY,
        f64::MIN,
        -1.0e300,
        -2.5,
        -1.0,
        -0.0001,
        -f64::MIN_POSITIVE,
        -5e-324,
        -0.0,
        0.0,
        5e-324,
        f64::MIN_POSITIVE,
        0.0001,
        0.5,
        1.0,
        1.5,
        3.7416573867739413,
        1.0e300,
        f64::MAX,
        f64::INFINITY,
    ];
    for a in samples {
        for b in samples {
            let (ka, kb) = (key(a).unwrap(), key(b).unwrap());
            assert_eq!(ka < kb, a < b);
            assert_eq!(ka == kb, a == b);
            assert_eq!(ka > kb, a > b);
        }
    }
}

#[test]
fn is_inside_is_strict_at_both_ends() {
    assert!(is_inside(key(0.5), key(0.0001), key(f64::MAX)));
    assert!(!is_inside(key(0.0001), key(0.0001), key(f64::MAX)));
    assert!(!is_inside(key(f64::MAX), key(0.0001), key(f64::MAX)));
    assert!(!is_inside(key(0.00005), key(0.0001), key(f64::MAX)));
    assert!(!is_inside(key(-3.0), key(0.0001), key(f64::MAX)));
    assert!(is_inside(key(-3.0), key(-4.0), key(-2.0)));
}

#[test]
fn is_inside_fails_on_what_is_no_number() {
    assert!(!is_inside(key(f64::NAN), key(0.0), key(1.0)));
    assert!(!is_inside(key(0.5), key(f64::NAN), key(1.0)));
    assert!(!is_inside(key(0.5), key(0.0), key(f64::NAN)));
    assert!(!is_inside(None, None, None));
}

#[test]
fn is_inside_an_empty_interval_is_false() {
    assert!(!is_inside(key(1.0), key(2.0), key(0.5)));
    assert!(!is_inside(key(1.0), key(1.0), key(1.0)));
}

fn quadratic(discriminant: f64, near: f64, far: f64) -> Quadratic {
    Quadratic {
        discriminant: key(discriminant),
        near: key(near),
        far: key(far),
    }
}

#[test]
fn key_constants_are_the_keys_of_zero_and_one() {
    assert_eq!(key(0.0), Some(ZERO_KEY));
    assert_eq!(key(1.0), Some(ONE_KEY));
    assert_eq!(1.0f64.to_bits(), ONE_BITS);
}

#[test]
fn is_below_compares_as_the_numbers_do() {
    assert!(is_below(key(0.25), key(0.5)));
    assert!(!is_below(key(0.5), key(0.5)));
    assert!(!is_below(key(0.75), key(0.5)));
    assert!(is_below(key(-2.0), key(-1.0)));
    assert!(!is_below(key(0.0), key(-0.0)));
    assert!(!is_below(key(-0.0), key(0.0)));
    assert!(!is_below(key(f64::NAN), key(1.0)));
    assert!(!is_below(key(1.0), key(f64::NAN)));
}

#[test]
fn is_positive_is_strict_at_zero() {
    assert!(is_positive(key(5e-324)));
    assert!(is_positive(key(1.0)));
    assert!(is_positive(key(f64::INFINITY)));
    assert!(!is_positive(key(0.0)));
    assert!(!is_positive(key(-0.0)));
    assert!(!is_positive(key(-1.0)));
    assert!(!is_positive(key(f64::NAN)));
}

#[test]
fn is_non_negative_includes_both_zeros() {
    assert!(is_non_negative(key(0.0)));
    assert!(is_non_negative(key(-0.0)));
    assert!(is_non_negative(key(0.25)));
    assert!(!is_non_negative(key(-5e-324)));
    assert!(!is_non_negative(key(-0.25)));
    assert!(!is_non_negative(key(f64::NAN)));
}

#[test]
fn a_point_is_rejected_from_distance_one_on() {
    assert!(!is_rejected(key(0.0)));
    assert!(!is_rejected(key(0.5)));
    assert!(!is_rejected(key(0.9999999999999999)));
    assert!(is_rejected(key(1.0)));
    assert!(is_rejected(key(1.0000000000000002)));
    assert!(is_rejected(key(3.0)));
    assert!(!is_rejected(key(f64::NAN)));
}

#[test]
fn select_root_prefers_the_near_root() {
    let root = quadratic(0.25, 0.5, 1.5).select_root(key(0.0001), key(f64::MAX));
    assert_eq!(root, Some(Root::Near));
}

#[test]
fn select_root_falls_back_to_the_far_root() {
    // The ray starts inside the sphere: the near root lies behind it.
    let root = quadratic(0.25, -0.5, 0.5).select_root(key(0.0001), key(f64::MAX));
    assert_eq!(root, Some(Root::Far));
    // The near root is cut off by the lower bound itself.
    let root = quadratic(1.0, 0.0001, 2.0).select_root(key(0.0001), key(f64::MAX));
    assert_eq!(root, Some(Root::Far));
}

#[test]
fn select_root_misses_with_a_negative_discriminant() {
    assert_eq!(
        quadratic(-0.75, 0.5, 1.5).select_root(key(0.0001), key(f64::MAX)),
        None
    );
    assert_eq!(
        quadratic(-5e-324, 0.5, 1.5).select_root(key(0.0001), key(f64::MAX)),
        None
    );
    let no_roots = Quadratic {
        discriminant: key(-0.75),
        near: None,
        far: None,
    };
    assert_eq!(no_roots.select_root(key(0.0001), key(f64::MAX)), None);
}

#[test]
fn select_root_hits_with_a_zero_discriminant() {
    // The ray touches the sphere: both roots coincide.
    assert_eq!(
        quadratic(0.0, 1.0, 1.0).select_root(key(0.0001), key(f64::MAX)),
        Some(Root::Near)
    );
    assert_eq!(
        quadratic(-0.0, 1.0, 1.0).select_root(key(0.0001), key(f64::MAX)),
        Some(Root::Near)
    );
}

#[test]
fn select_root_misses_when_both_roots_lie_outside() {
    // The sphere is behind the ray.
    assert_eq!(
        quadratic(0.25, -1.5, -0.5).select_root(key(0.0001), key(f64::MAX)),
        None
    );
    // The sphere is beyond the upper bound.
    assert_eq!(quadratic(0.25, 3.0, 4.0).select_root(key(0.0001), key(2.0)), None);
    // The bound sits on the far root.
    assert_eq!(quadratic(2.25, -1.0, 2.0).select_root(key(0.0001), key(2.0)), None);
}

#[test]
fn select_root_ignores_what_is_no_number() {
    assert_eq!(
        quadratic(1.0, f64::NAN, 1.0).select_root(key(0.0001), key(f64::MAX)),
        Some(Root::Far)
    );
    assert_eq!(
        quadratic(1.0, f64::NAN, f64::NAN).select_root(key(0.0001), key(f64::MAX)),
        None
    );
    assert_eq!(
        quadratic(f64::NAN, 0.5, 1.5).select_root(key(0.0001), key(f64::MAX)),
        None
    );
    assert_eq!(quadratic(0.25, 0.5, 1.5).select_root(key(f64::NAN), key(f64::MAX)), None);
    assert_eq!(quadratic(0.25, 0.5, 1.5).select_root(key(0.0001), key(f64::NAN)), None);
}

#[test]
fn nearest_picks_the_smallest_parameter() {
    let hits = vec![key(3.0), key(1.0), key(2.0)];
    assert_eq!(nearest(&hits, key(f64::MAX).unwrap()), Some(1));
}

#[test]
fn nearest_skips_misses() {
    let hits = vec![None, key(5.0), None, key(4.5), None];
    assert_eq!(nearest(&hits, key(f64::MAX).unwrap()), Some(3));
}

#[test]
fn nearest_of_no_hits_is_none() {
    assert_eq!(nearest(&vec![None, None], key(f64::MAX).unwrap()), None);
    assert_eq!(nearest(&Vec::new(), key(f64::MAX).unwrap()), None);
}

#[test]
fn nearest_ignores_hits_at_or_beyond_the_limit() {
    let limit = key(2.0).unwrap();
    assert_eq!(nearest(&vec![key(2.0), key(3.0)], limit), None);
    assert_eq!(nearest(&vec![key(2.0), key(1.9999), key(3.0)], limit), Some(1));
}

#[test]
fn nearest_keeps_the_first_of_equal_hits() {
    let hits = vec![key(7.0), key(1.0), key(1.0), key(9.0), key(1.0)];
    assert_eq!(nearest(&hits, key(f64::MAX).unwrap()), Some(1));
}

#[test]
fn nearest_parameter_does_not_depend_on_the_order() {
    let limit = key(f64::MAX).unwrap();
    let hits = vec![key(0.75), None, key(0.25), key(12.0), key(0.5)];
    let mut turned = hits.clone();
    turned.reverse();
    let mut rotated = hits.clone();
    rotated.rotate_left(2);
    let a = nearest(&hits, limit).unwrap();
    let b = nearest(&turned, limit).unwrap();
    let c = nearest(&rotated, limit).unwrap();
    assert_eq!(hits[a], key(0.25));
    assert_eq!(turned[b], key(0.25));
    assert_eq!(rotated[c], key(0.25));
}

#[test]
fn nearest_is_the_minimum_of_the_accepted_hits() {
    let limit = key(100.0).unwrap();
    let ts = [55.5, 250.0, 17.25, 99.9, 100.0, 17.5, 300.0];
    let hits: Vec<Option<u64>> = ts.iter().map(|t| key(*t)).collect();
    let best = nearest(&hits, limit).unwrap();
    assert_eq!(best, 2);
    for t in ts {
        if t < 100.0 {
            assert!(ts[best] <= t);
        }
    }
}

#[test]
fn world_starts_empty() {
    let world: World<u32> = World::new();
    assert_eq!(world.len(), 0);
    let world: World<u32> = World::default();
    assert_eq!(world.len(), 0);
}

#[test]
fn world_add_appends_in_order() {
    let mut world: World<&str> = World::new();
    world.add("glass");
    world.add("metal");
    world.add("ground");
    assert_eq!(world.len(), 3);
    assert_eq!(*world.get(0), "glass");
    assert_eq!(*world.get(1), "metal");
    assert_eq!(*world.get(2), "ground");
}

#[test]
fn world_add_keeps_duplicates() {
    let mut world: World<u8> = World::new();
    world.add(4);
    world.add(4);
    assert_eq!(world.len(), 2);
    assert_eq!(*world.get(0), 4);
    assert_eq!(*world.get(1), 4);
}

#[test]
fn ray_through_the_centre_of_a_single_sphere_hits_its_front() {
    // A sphere of radius 0.5 at (0, 0, -1), seen from the origin along -z.
    let (a, b, c) = (1.0f64, -1.0f64, 1.0f64 - 0.25);
    let discriminant = b * b - a * c;
    let near = (-b - discriminant.sqrt()) / a;
    let far = (-b + discriminant.sqrt()) / a;
    assert_eq!(near, 0.5);
    assert_eq!(far, 1.5);
    let root = quadratic(discriminant, near, far).select_root(key(0.0001), key(f64::MAX));
    assert_eq!(root, Some(Root::Near));
    let mut world: World<f64> = World::new();
    world.add(0.5);
    let hits = vec![key(near)];
    assert_eq!(nearest(&hits, key(f64::MAX).unwrap()), Some(0));
    // The hit point is (0, 0, -0.5); its normal is (0, 0, 1).
    let radius = *world.get(0);
    assert_eq!((-near - (-1.0)) / radius, 1.0);
}

#[test]
fn ray_past_a_single_sphere_hits_nothing() {
    // The same sphere, seen from the origin along +y.
    let (a, b, c) = (1.0f64, 0.0f64, 1.0f64 - 0.25);
    let discriminant = b * b - a * c;
    assert!(discriminant < 0.0);
    let near = (-b - discriminant.sqrt()) / a;
    let far = (-b + discriminant.sqrt()) / a;
    let root = quadratic(discriminant, near, far).select_root(key(0.0001), key(f64::MAX));
    assert_eq!(root, None);
    assert_eq!(nearest(&vec![None], key(f64::MAX).unwrap()), None);
}
