use ray_tracer::materials::{Dielectric, Lambertian, Material, Metal, Scatter};

type Color = (f64, f64, f64);

const CLEAR: Color = (1.0, 1.0, 1.0);

#[test]
fn lambertian_attenuation_is_albedo() {
    let m: Material<Color, f64> = Material::Lambertian(Lambertian::new((0.5, 0.5, 0.5)));
    assert_eq!(m.attenuation(CLEAR), (0.5, 0.5, 0.5));
    let m: Material<Color, f64> = Material::Lambertian(Lambertian::new((0.1, 0.2, 0.5)));
    assert_eq!(m.attenuation(CLEAR), (0.1, 0.2, 0.5));
}

#[test]
fn lambertian_never_absorbs() {
    let m: Material<Color, f64> = Material::Lambertian(Lambertian::new((0.8, 0.8, 0.0)));
    for &a in &[false, true] {
        for &b in &[false, true] {
            for &c in &[false, true] {
                assert_eq!(m.scatter(a, b, c), Scatter::Diffuse);
            }
        }
    }
}

#[test]
fn metal_keeps_fields_and_albedo() {
    let metal: Metal<Color, f64> = Metal::new((0.8, 0.6, 0.2), 0.6);
    assert_eq!(metal.albedo, (0.8, 0.6, 0.2));
    assert_eq!(metal.fuzz, 0.6);
    let m = Material::Metal(metal);
    assert_eq!(m.attenuation(CLEAR), (0.8, 0.6, 0.2));
}

#[test]
fn metal_absorbs_rays_that_do_not_leave_the_surface() {
    let metal: Metal<Color, f64> = Metal::new((0.4, 0.2, 0.1), 0.0);
    assert_eq!(metal.scatter(true), Scatter::Reflected);
    assert_eq!(metal.scatter(false), Scatter::Absorbed);
    let m = Material::Metal(metal);
    assert_eq!(m.scatter(false, true, false), Scatter::Absorbed);
    assert_eq!(m.scatter(true, false, true), Scatter::Reflected);
}

#[test]
fn dielectric_is_clear() {
    let d: Dielectric<f64> = Dielectric::new(1.5);
    assert_eq!(d.ref_idx, 1.5);
    let m: Material<Color, f64> = Material::Dielectric(d);
    assert_eq!(m.attenuation(CLEAR), CLEAR);
}

#[test]
fn dielectric_total_internal_reflection_always_reflects() {
    let d: Dielectric<f64> = Dielectric::new(1.5);
    assert_eq!(d.scatter(false, false), Scatter::Reflected);
    assert_eq!(d.scatter(false, true), Scatter::Reflected);
}

#[test]
fn dielectric_coin_flip_between_reflect_and_refract() {
    let m: Material<Color, f64> = Material::Dielectric(Dielectric::new(1.5));
    assert_eq!(m.scatter(false, true, false), Scatter::Refracted);
    assert_eq!(m.scatter(false, true, true), Scatter::Reflected);
}

#[test]
fn material_generic_over_integer_payloads() {
    let m: Material<u8, u8> = Material::Metal(Metal::new(7, 3));
    assert_eq!(m.attenuation(255), 7);
    let d: Material<u8, u8> = Material::Dielectric(Dielectric::new(3));
    assert_eq!(d.attenuation(255), 255);
}
