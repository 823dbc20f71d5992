use vstd::prelude::*;

verus! {

/// What happens to a ray that strikes a surface.
#[derive(Clone, Copy, Debug, PartialEq, Eq, Structural)]
pub enum Scatter {
    /// The ray is swallowed and contributes black.
    Absorbed,
    /// The ray leaves along the normal plus a point of the unit ball.
    Diffuse,
    /// The ray leaves along the mirror direction.
    Reflected,
    /// The ray passes into (or out of) the medium along Snell's direction.
    Refracted,
}

/// Ideal diffuse surface of base colour `albedo`.
#[derive(Clone, Copy, Debug, PartialEq)]
pub struct Lambertian<C> {
    pub albedo: C,
}

/// Specular surface of base colour `albedo`; `fuzz` scales the random
/// perturbation added to the mirror direction.
#[derive(Clone, Copy, Debug, PartialEq)]
pub struct Metal<C, S> {
    pub albedo: C,
    pub fuzz: S,
}

/// Transparent refractive medium of index `ref_idx`.
#[derive(Clone, Copy, Debug, PartialEq)]
pub struct Dielectric<S> {
    pub ref_idx: S,
}

/// The closed set of materials a surface can carry, over a colour type `C`
/// and a scalar type `S`.
#[derive(Clone, Copy, Debug, PartialEq)]
pub enum Material<C, S> {
    Lambertian(Lambertian<C>),
    Metal(Metal<C, S>),
    Dielectric(Dielectric<S>),
}

impl<C> Lambertian<C> {
    pub fn new(albedo: C) -> (r: Lambertian<C>)
        ensures
            r.albedo == albedo,
    {
        Lambertian { albedo }
    }

    /// A diffuse surface never absorbs.
    pub fn scatter(&self) -> (r: Scatter)
        ensures
            r == Scatter::Diffuse,
    {
        Scatter::Diffuse
    }
}

impl<C, S> Metal<C, S> {
    /// `fuzz` is stored as given; a caller holding a larger value clamps it to 1 first.
    pub fn new(albedo: C, fuzz: S) -> (r: Metal<C, S>)
        ensures
            r.albedo == albedo,
            r.fuzz == fuzz,
    {
        Metal { albedo, fuzz }
    }

    /// `leaves_surface`: the perturbed mirror direction has a positive dot
    /// product with the surface normal. Otherwise the ray is absorbed.
    pub fn scatter(&self, leaves_surface: bool) -> (r: Scatter)
        ensures
            r == (if leaves_surface { Scatter::Reflected } else { Scatter::Absorbed }),
    {
        if leaves_surface {
            Scatter::Reflected
        } else {
            Scatter::Absorbed
        }
    }
}

impl<S> Dielectric<S> {
    pub fn new(ref_idx: S) -> (r: Dielectric<S>)
        ensures
            r.ref_idx == ref_idx,
    {
        Dielectric { ref_idx }
    }

    /// `refracts`: Snell's law has a solution (no total internal reflection).
    /// `below_reflectance`: the uniform draw fell below Schlick's reflectance.
    /// Without a refracted direction the reflectance is taken to be 1, so the
    /// ray reflects whatever was drawn.
    pub fn scatter(&self, refracts: bool, below_reflectance: bool) -> (r: Scatter)
        ensures
            r == (if refracts && !below_reflectance {
                Scatter::Refracted
            } else {
                Scatter::Reflected
            }),
            !refracts ==> r == Scatter::Reflected,
    {
        if refracts && !below_reflectance {
            Scatter::Refracted
        } else {
            Scatter::Reflected
        }
    }
}

/// The colour factor a material applies to what its scattered ray brings
/// back; `clear` is the colour that leaves light unchanged.
pub open spec fn attenuation_of<C, S>(m: Material<C, S>, clear: C) -> C {
    match m {
        Material::Lambertian(l) => l.albedo,
        Material::Metal(mt) => mt.albedo,
        Material::Dielectric(_) => clear,
    }
}

/// The outcome of a bounce on material `m`, given the measurements of the
/// incoming ray that each variant consults.
pub open spec fn scatter_of<C, S>(
    m: Material<C, S>,
    leaves_surface: bool,
    refracts: bool,
    below_reflectance: bool,
) -> Scatter {
    match m {
        Material::Lambertian(_) => Scatter::Diffuse,
        Material::Metal(_) => if leaves_surface {
            Scatter::Reflected
        } else {
            Scatter::Absorbed
        },
        Material::Dielectric(_) => if refracts && !below_reflectance {
            Scatter::Refracted
        } else {
            Scatter::Reflected
        },
    }
}

/// A diffuse surface passes on exactly its albedo and scatters every ray,
/// whatever was measured of the incoming one.
pub proof fn lemma_lambertian_scatters_with_albedo<C, S>(
    l: Lambertian<C>,
    clear: C,
    leaves_surface: bool,
    refracts: bool,
    below_reflectance: bool,
)
    ensures
        attenuation_of(Material::<C, S>::Lambertian(l), clear) == l.albedo,
        scatter_of(Material::<C, S>::Lambertian(l), leaves_surface, refracts, below_reflectance)
            == Scatter::Diffuse,
{
}

impl<C: Copy, S: Copy> Material<C, S> {
    /// Attenuation of a bounce: the albedo of a diffuse or metal surface,
    /// `clear` for a dielectric, which absorbs nothing.
    pub fn attenuation(&self, clear: C) -> (r: C)
        ensures
            r == attenuation_of(*self, clear),
    {
        match self {
            Material::Lambertian(l) => l.albedo,
            Material::Metal(m) => m.albedo,
            Material::Dielectric(_) => clear,
        }
    }

    /// Outcome of a bounce. `leaves_surface` is read by a metal,
    /// `refracts` and `below_reflectance` by a dielectric.
    pub fn scatter(&self, leaves_surface: bool, refracts: bool, below_reflectance: bool) -> (r:
        Scatter)
        ensures
            r == scatter_of(*self, leaves_surface, refracts, below_reflectance),
    {
        match self {
            Material::Lambertian(l) => l.scatter(),
            Material::Metal(m) => m.scatter(leaves_surface),
            Material::Dielectric(d) => d.scatter(refracts, below_reflectance),
        }
    }
}

} // verus!
