use vstd::prelude::*;
use std::collections::HashMap;

verus! {

broadcast use vstd::std_specs::hash::group_hash_axioms;

/// A frame's points keyed by landmark index; of two points with one index
/// the later one stands.
pub open spec fn frame_map<T>(points: Seq<(u32, T)>) -> Map<u32, T>
    decreases points.len(),
{
    if points.len() == 0 {
        Map::empty()
    } else {
        frame_map(points.drop_last()).insert(points.last().0, points.last().1)
    }
}

/// Keys a frame's points by their landmark index.
pub fn index_frame<T: Copy>(points: &Vec<(u32, T)>) -> (r: HashMap<u32, T>)
    ensures
        r@ == frame_map(points@),
{
    let mut map: HashMap<u32, T> = HashMap::new();
    let mut i: usize = 0;
    while i < points.len()
        invariant
            i <= points@.len(),
            map@ == frame_map(points@.subrange(0, i as int)),
        decreases points.len() - i,
    {
        let (k, v) = points[i];
        map.insert(k, v);
        proof {
            let next = points@.subrange(0, i + 1);
            assert(next.drop_last() =~= points@.subrange(0, i as int));
            assert(next.last() == points@[i as int]);
        }
        i = i + 1;
    }
    proof {
        assert(points@.subrange(0, points@.len() as int) =~= points@);
    }
    map
}

/// The points at `indices`, in that order, leaving out the indices that the
/// frame lacks.
pub open spec fn pick<T>(m: Map<u32, T>, indices: Seq<u32>) -> Seq<T>
    decreases indices.len(),
{
    if indices.len() == 0 {
        Seq::empty()
    } else {
        let rest = pick(m, indices.drop_last());
        if m.contains_key(indices.last()) {
            rest.push(m[indices.last()])
        } else {
            rest
        }
    }
}

/// Picks the points at `indices` out of a keyed frame.
pub fn select_by_indices<T: Copy>(map: &HashMap<u32, T>, indices: &[u32]) -> (r: Vec<T>)
    ensures
        r@ == pick(map@, indices@),
{
    let mut out: Vec<T> = Vec::new();
    let mut i: usize = 0;
    while i < indices.len()
        invariant
            i <= indices@.len(),
            out@ == pick(map@, indices@.subrange(0, i as int)),
        decreases indices.len() - i,
    {
        let key = indices[i];
        proof {
            let next = indices@.subrange(0, i + 1);
            assert(next.drop_last() =~= indices@.subrange(0, i as int));
            assert(next.last() == key);
        }
        match map.get(&key) {
            Some(p) => out.push(*p),
            None => {},
        }
        i = i + 1;
    }
    proof {
        assert(indices@.subrange(0, indices@.len() as int) =~= indices@);
    }
    out
}

/// Landmark index of the nose tip.
pub const NOSE_TIP: u32 = 1;
/// Landmark index of the left cheek.
pub const LEFT_CHEEK: u32 = 234;
/// Landmark index of the right cheek.
pub const RIGHT_CHEEK: u32 = 454;

/// The left eye's landmark indices, in the order outer corner, upper outer,
/// upper inner, inner corner, lower inner, lower outer.
pub fn left_eye_indices() -> (r: [u32; 6])
    ensures
        r@ == seq![362u32, 385, 387, 263, 373, 380],
{
    [362, 385, 387, 263, 373, 380]
}

/// The right eye's landmark indices, in the same order as the left eye's.
pub fn right_eye_indices() -> (r: [u32; 6])
    ensures
        r@ == seq![33u32, 160, 158, 133, 153, 144],
{
    [33, 160, 158, 133, 153, 144]
}

/// The mouth's landmark indices: the two corners, then three upper points
/// and the three lower points that pair with them.
pub fn mouth_indices() -> (r: [u32; 8])
    ensures
        r@ == seq![61u32, 291, 13, 81, 178, 14, 311, 402],
{
    [61, 291, 13, 81, 178, 14, 311, 402]
}

/// The nose tip, left cheek and right cheek of a keyed frame, where it has
/// all three.
pub fn head_points<T: Copy>(map: &HashMap<u32, T>) -> (r: Option<(T, T, T)>)
    ensures
        r is Some <==> (map@.contains_key(NOSE_TIP) && map@.contains_key(LEFT_CHEEK)
            && map@.contains_key(RIGHT_CHEEK)),
        r is Some ==> r->0 == (map@[NOSE_TIP], map@[LEFT_CHEEK], map@[RIGHT_CHEEK]),
{
    match (map.get(&NOSE_TIP), map.get(&LEFT_CHEEK), map.get(&RIGHT_CHEEK)) {
        (Some(n), Some(l), Some(r)) => Some((*n, *l, *r)),
        _ => None,
    }
}

} // verus!
