use vstd::prelude::*;

verus! {

/// Number of bounces after which a path is cut off and contributes black.
pub const MAX_DEPTH: usize = 50;

/// How a traced path ended.
#[derive(Clone, Copy, Debug, PartialEq)]
pub enum PathEnd<R> {
    /// The last ray met nothing; it carries the sky colour.
    Escaped(R),
    /// A surface absorbed the last ray: black.
    Absorbed,
    /// The bounce limit was reached: black.
    DepthCap,
}

/// One sample path: the attenuation of each bounce, in order, and how the
/// path ended. Its colour is the product of the attenuations with the colour
/// of the end.
#[derive(Clone, Debug)]
pub struct Path<R, C> {
    pub attenuations: Vec<C>,
    pub end: PathEnd<R>,
}

/// `path` is what tracing from `start` produces when scene queries answer as
/// `probe` does and surface bounces as `scatter` does: `rays` holds the ray
/// of each level and `hits` what the scene reported for it.
pub open spec fn follows<R, H, C, P, Sc>(
    probe: P,
    scatter: Sc,
    start: R,
    path: Path<R, C>,
    rays: Seq<R>,
    hits: Seq<H>,
) -> bool where P: Fn(R) -> Option<H>, Sc: Fn(R, H) -> Option<(C, R)> {
    let n = path.attenuations@.len() as int;
    &&& n <= MAX_DEPTH
    &&& rays.len() == n + 1
    &&& hits.len() >= n
    &&& rays[0] == start
    &&& forall|k: int|
        0 <= k < n ==> {
            &&& probe.ensures((rays[k],), Some(hits[k]))
            &&& scatter.ensures((rays[k], hits[k]), Some((#[trigger] path.attenuations@[k], rays[k + 1])))
        }
    &&& match path.end {
        PathEnd::Escaped(r) => n < MAX_DEPTH && r == rays[n] && probe.ensures((rays[n],), None),
        PathEnd::Absorbed => {
            &&& n < MAX_DEPTH
            &&& hits.len() == n + 1
            &&& probe.ensures((rays[n],), Some(hits[n]))
            &&& scatter.ensures((rays[n], hits[n]), None)
        },
        PathEnd::DepthCap => n == MAX_DEPTH,
    }
}

/// Follows one sample path from `ray`. At each level below `MAX_DEPTH` the
/// scene is probed; a miss ends the path in the sky, a hit is handed to
/// `scatter`, which either absorbs the ray or gives the attenuation and the
/// next ray. At `MAX_DEPTH` the path is cut off without a further probe.
pub fn trace<R: Copy, H: Copy, C, P, Sc>(ray: R, probe: P, scatter: Sc) -> (r: Path<R, C>) where
    P: Fn(R) -> Option<H>,
    Sc: Fn(R, H) -> Option<(C, R)>,

    requires
        forall|x: R| probe.requires((x,)),
        forall|x: R, h: H| scatter.requires((x, h)),
    ensures
        exists|rays: Seq<R>, hits: Seq<H>| follows(probe, scatter, ray, r, rays, hits),
        r.attenuations@.len() <= MAX_DEPTH,
        (r.end == PathEnd::<R>::DepthCap) <==> r.attenuations@.len() == MAX_DEPTH,
        // a closed cavity of perfect mirrors: every probe hits, every bounce scatters
        (forall|x: R, o: Option<H>| probe.ensures((x,), o) ==> o is Some) && (forall|
            x: R,
            h: H,
            o: Option<(C, R)>,
        | scatter.ensures((x, h), o) ==> o is Some) ==> r.end == PathEnd::<R>::DepthCap
            && r.attenuations@.len() == MAX_DEPTH,
{
    let mut current = ray;
    let mut attenuations: Vec<C> = Vec::new();
    let ghost mut rays: Seq<R> = seq![ray];
    let ghost mut hits: Seq<H> = Seq::empty();
    loop
        invariant
            forall|x: R| probe.requires((x,)),
            forall|x: R, h: H| scatter.requires((x, h)),
            attenuations@.len() <= MAX_DEPTH,
            rays.len() == attenuations@.len() + 1,
            hits.len() == attenuations@.len(),
            rays[0] == ray,
            rays.last() == current,
            forall|k: int|
                0 <= k < attenuations@.len() ==> probe.ensures((rays[k],), Some(#[trigger] hits[k])),
            forall|k: int|
                0 <= k < attenuations@.len() ==> scatter.ensures(
                    (rays[k], hits[k]),
                    Some((#[trigger] attenuations@[k], rays[k + 1])),
                ),
        decreases MAX_DEPTH - attenuations@.len(),
    {
        if attenuations.len() >= MAX_DEPTH {
            let r = Path { attenuations, end: PathEnd::DepthCap };
            assert(follows(probe, scatter, ray, r, rays, hits));
            return r;
        }
        match probe(current) {
            None => {
                let r = Path { attenuations, end: PathEnd::Escaped(current) };
                assert(follows(probe, scatter, ray, r, rays, hits));
                return r;
            },
            Some(h) => match scatter(current, h) {
                None => {
                    let r = Path { attenuations, end: PathEnd::Absorbed };
                    proof {
                        hits = hits.push(h);
                    }
                    assert(follows(probe, scatter, ray, r, rays, hits));
                    return r;
                },
                Some((a, next)) => {
                    proof {
                        hits = hits.push(h);
                        rays = rays.push(next);
                    }
                    attenuations.push(a);
                    current = next;
                },
            },
        }
    }
}

} // verus!
