use vstd::prelude::*;

verus! {

/// `results` and `bounds` record a scan of `n` members: member `k` was asked
/// for a hit closer than `bounds[k]` and answered `results[k]`; an accepted
/// hit tightens the bound to its distance, a miss keeps it.
pub open spec fn scanned<H, T, F, G>(
    hit: F,
    distance: G,
    t_max: T,
    results: Seq<Option<H>>,
    bounds: Seq<T>,
) -> bool where F: Fn(usize, T) -> Option<H>, G: Fn(H) -> T {
    &&& bounds.len() == results.len() + 1
    &&& bounds[0] == t_max
    &&& forall|k: int|
        0 <= k < results.len() ==> hit.ensures((k as usize, bounds[k]), #[trigger] results[k])
    &&& forall|k: int|
        0 <= k < results.len() ==> match #[trigger] results[k] {
            Some(h) => distance.ensures((h,), bounds[k + 1]),
            None => bounds[k + 1] == bounds[k],
        }
}

/// The hit a scan reports: the last one accepted, if any was.
pub open spec fn last_hit<H>(results: Seq<Option<H>>) -> Option<H>
    decreases results.len(),
{
    if results.len() == 0 {
        None
    } else {
        match results.last() {
            Some(h) => Some(h),
            None => last_hit(results.drop_last()),
        }
    }
}

/// Scans the `n` members of a scene in order for the closest hit.
/// `hit(k, bound)` tests member `k` for an intersection closer than `bound`;
/// each accepted hit lowers the bound to its `distance`, so a later member
/// is only accepted when it is closer still, and the last accepted hit is
/// the closest one. Ties keep the member met first.
pub fn closest_hit<H: Copy, T: Copy, F, G>(n: usize, t_max: T, hit: F, distance: G) -> (r: Option<H>) where
    F: Fn(usize, T) -> Option<H>,
    G: Fn(H) -> T,

    requires
        forall|k: usize, t: T| k < n ==> hit.requires((k, t)),
        forall|h: H| distance.requires((h,)),
    ensures
        exists|results: Seq<Option<H>>, bounds: Seq<T>|
            {
                &&& results.len() == n
                &&& scanned(hit, distance, t_max, results, bounds)
                &&& r == last_hit(results)
            },
{
    let mut closest = t_max;
    let mut found: Option<H> = None;
    let ghost mut results: Seq<Option<H>> = Seq::empty();
    let ghost mut bounds: Seq<T> = seq![t_max];
    let mut k: usize = 0;
    while k < n
        invariant
            forall|k: usize, t: T| k < n ==> hit.requires((k, t)),
            forall|h: H| distance.requires((h,)),
            k <= n,
            results.len() == k,
            bounds.last() == closest,
            scanned(hit, distance, t_max, results, bounds),
            found == last_hit(results),
        decreases n - k,
    {
        let answer = hit(k, closest);
        proof {
            let before = results;
            results = results.push(answer);
            assert(results.drop_last() =~= before);
        }
        match answer {
            Some(h) => {
                closest = distance(h);
                found = Some(h);
            },
            None => {},
        }
        proof {
            bounds = bounds.push(closest);
        }
        k = k + 1;
    }
    found
}

/// Root a sphere reports for a ray that meets it at distances `near <= far`:
/// the near root when it lies in the open interval of accepted distances,
/// otherwise the far root when that one does, otherwise none. For a single
/// sphere this is the closest accepted point of its surface.
pub fn nearest_root<T: Copy>(near: T, far: T, near_in_range: bool, far_in_range: bool) -> (r:
    Option<T>)
    ensures
        r == (if near_in_range {
            Some(near)
        } else if far_in_range {
            Some(far)
        } else {
            None
        }),
{
    if near_in_range {
        Some(near)
    } else if far_in_range {
        Some(far)
    } else {
        None
    }
}

} // verus!
