use ray_tracer::shading::{trace, PathEnd, MAX_DEPTH};
use std::cell::Cell;

#[test]
fn path_escapes_to_the_sky() {
    // a ray is a depth marker; the scene is hit three times, then missed
    let p = trace(
        0i32,
        |r: i32| if r < 3 { Some(r) } else { None },
        |r: i32, h: i32| Some((h * 10, r + 1)),
    );
    assert_eq!(p.attenuations, vec![0, 10, 20]);
    assert_eq!(p.end, PathEnd::Escaped(3));
}

#[test]
fn path_absorbed_after_two_bounces() {
    let p = trace(
        0i32,
        |r: i32| Some(r),
        |r: i32, _h: i32| if r == 2 { None } else { Some((1u8, r + 1)) },
    );
    assert_eq!(p.attenuations, vec![1u8, 1u8]);
    assert_eq!(p.end, PathEnd::Absorbed);
}

#[test]
fn first_miss_gives_sky_without_bounces() {
    let p = trace(5i32, |_r: i32| None::<i32>, |r: i32, _h: i32| Some((0u8, r)));
    assert!(p.attenuations.is_empty());
    assert_eq!(p.end, PathEnd::Escaped(5));
}

#[test]
fn mirror_cavity_stops_after_fifty_bounces() {
    let probes = Cell::new(0u32);
    let scatters = Cell::new(0u32);
    let p = trace(
        0u32,
        |r: u32| {
            probes.set(probes.get() + 1);
            Some(r)
        },
        |r: u32, _h: u32| {
            scatters.set(scatters.get() + 1);
            Some((0.9f64, r + 1))
        },
    );
    assert_eq!(MAX_DEPTH, 50);
    assert_eq!(p.attenuations.len(), 50);
    assert_eq!(p.end, PathEnd::DepthCap);
    // the capped level is neither probed nor scattered
    assert_eq!(probes.get(), 50);
    assert_eq!(scatters.get(), 50);
}
