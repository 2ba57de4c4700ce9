use vstd::prelude::*;

use crate::components::ImageHandle;

verus! {

/// A position in world space, each coordinate in hundredths of a world unit.
#[derive(Clone, Copy, Debug, PartialEq, Eq, Structural)]
pub struct Point {
    pub x: i32,
    pub y: i32,
    pub z: i32,
}

/// The squared Euclidean distance between two points.
pub open spec fn dist_sq(a: Point, b: Point) -> int {
    (a.x - b.x) * (a.x - b.x) + (a.y - b.y) * (a.y - b.y) + (a.z - b.z) * (a.z - b.z)
}

/// `a` lies at distance at most `radius` from `b`.
pub open spec fn within(a: Point, b: Point, radius: u32) -> bool {
    dist_sq(a, b) <= radius * radius
}

/// Computes the squared distance exactly; it cannot overflow 128 bits.
pub fn distance_sq(a: Point, b: Point) -> (r: u128)
    ensures
        r == dist_sq(a, b),
{
    let dx: i128 = a.x as i128 - b.x as i128;
    let dy: i128 = a.y as i128 - b.y as i128;
    let dz: i128 = a.z as i128 - b.z as i128;
    assert(0 <= dx * dx <= 0x1_0000_0000_0000_0000) by (nonlinear_arith)
        requires -0x1_0000_0000 <= dx <= 0x1_0000_0000;
    assert(0 <= dy * dy <= 0x1_0000_0000_0000_0000) by (nonlinear_arith)
        requires -0x1_0000_0000 <= dy <= 0x1_0000_0000;
    assert(0 <= dz * dz <= 0x1_0000_0000_0000_0000) by (nonlinear_arith)
        requires -0x1_0000_0000 <= dz <= 0x1_0000_0000;
    (dx * dx + dy * dy + dz * dz) as u128
}

/// Whether `a` is no farther than `radius` from `b`.
pub fn is_within(a: Point, b: Point, radius: u32) -> (r: bool)
    ensures
        r == within(a, b, radius),
{
    let d = distance_sq(a, b);
    let rr: u128 = radius as u128;
    assert(rr * rr <= 0x1_0000_0000_0000_0000) by (nonlinear_arith)
        requires 0 <= rr <= 0x1_0000_0000;
    let r2: u128 = rr * rr;
    d <= r2
}

/// A non-player character: its name, portrait, position and scripted lines.
pub struct NPC {
    pub name: String,
    pub image: ImageHandle,
    pub position: Point,
    pub lines: Vec<String>,
}

impl NPC {
    /// An unnamed character at the origin with the default portrait and nothing to say.
    pub fn default() -> (r: NPC)
        ensures
            r.name@.len() == 0,
            r.image == ImageHandle::default_spec(),
            r.position == (Point { x: 0, y: 0, z: 0 }),
            r.lines@.len() == 0,
    {
        NPC {
            name: String::new(),
            image: ImageHandle::default_handle(),
            position: Point { x: 0, y: 0, z: 0 },
            lines: Vec::new(),
        }
    }
}

/// The entities, in ascending order, among the first `n` of `npcs` that lie
/// within `radius` of `p`.
pub open spec fn hits_upto(npcs: Seq<NPC>, p: Point, radius: u32, n: nat) -> Seq<usize>
    decreases n,
{
    if n == 0 {
        Seq::empty()
    } else {
        let rest = hits_upto(npcs, p, radius, (n - 1) as nat);
        if within(npcs[n - 1].position, p, radius) {
            rest.push((n - 1) as usize)
        } else {
            rest
        }
    }
}

/// The entities of `npcs` within `radius` of `p`, in ascending order.
pub open spec fn hits(npcs: Seq<NPC>, p: Point, radius: u32) -> Seq<usize> {
    hits_upto(npcs, p, radius, npcs.len())
}

/// A proximity index over NPC positions. An NPC's entity id is its slot.
pub struct SpatialIndex {
    pub npcs: Vec<NPC>,
}

impl SpatialIndex {
    pub fn new() -> (r: SpatialIndex)
        ensures
            r.npcs@.len() == 0,
    {
        SpatialIndex { npcs: Vec::new() }
    }

    /// Adds an NPC and returns its entity id.
    pub fn insert(&mut self, npc: NPC) -> (id: usize)
        ensures
            id == old(self).npcs@.len(),
            final(self).npcs@ == old(self).npcs@.push(npc),
    {
        let id = self.npcs.len();
        self.npcs.push(npc);
        id
    }

    pub fn len(&self) -> (r: usize)
        ensures
            r == self.npcs@.len(),
    {
        self.npcs.len()
    }

    /// The NPC of an entity id, if there is one.
    pub fn get(&self, id: usize) -> (r: Option<&NPC>)
        ensures
            id < self.npcs@.len() ==> r == Some(&self.npcs@[id as int]),
            id >= self.npcs@.len() ==> r is None,
    {
        if id < self.npcs.len() {
            Some(&self.npcs[id])
        } else {
            None
        }
    }

    /// The entity ids of all NPCs whose distance to `p` is at most `radius`,
    /// and no others, each once, in ascending order.
    pub fn query_within(&self, p: Point, radius: u32) -> (r: Vec<usize>)
        ensures
            r@ == hits(self.npcs@, p, radius),
    {
        let mut r: Vec<usize> = Vec::new();
        let n = self.npcs.len();
        let mut i: usize = 0;
        while i < n
            invariant
                n == self.npcs@.len(),
                i <= n,
                r@ == hits_upto(self.npcs@, p, radius, i as nat),
            decreases n - i,
        {
            if is_within(self.npcs[i].position, p, radius) {
                r.push(i);
            }
            i = i + 1;
        }
        r
    }
}

/// The range query is exact: an entity is reported if and only if it names an
/// NPC within `radius` of `p`; results come in strictly ascending order, so
/// none is reported twice.
pub proof fn lemma_query_exact(index: SpatialIndex, p: Point, radius: u32)
    ensures
        forall|id: usize|
            hits(index.npcs@, p, radius).contains(id) <==> (id < index.npcs@.len()
                && within(index.npcs@[id as int].position, p, radius)),
        forall|i: int, j: int|
            0 <= i < j < hits(index.npcs@, p, radius).len() ==> hits(index.npcs@, p, radius)[i]
                < hits(index.npcs@, p, radius)[j],
{
    assert(index.npcs@.len() == index.npcs.len());
    lemma_hits_upto(index.npcs@, p, radius, index.npcs@.len());
}

proof fn lemma_hits_upto(npcs: Seq<NPC>, p: Point, radius: u32, n: nat)
    requires
        n <= npcs.len(),
        n <= usize::MAX + 1,
    ensures
        forall|id: usize|
            hits_upto(npcs, p, radius, n).contains(id) <==> (id < n && within(
                npcs[id as int].position,
                p,
                radius,
            )),
        forall|i: int, j: int|
            0 <= i < j < hits_upto(npcs, p, radius, n).len() ==> hits_upto(npcs, p, radius, n)[i]
                < hits_upto(npcs, p, radius, n)[j],
        forall|i: int|
            0 <= i < hits_upto(npcs, p, radius, n).len() ==> hits_upto(npcs, p, radius, n)[i] < n,
    decreases n,
{
    if n > 0 {
        let m = (n - 1) as nat;
        lemma_hits_upto(npcs, p, radius, m);
        let rest = hits_upto(npcs, p, radius, m);
        if within(npcs[m as int].position, p, radius) {
            let s = rest.push(m as usize);
            assert forall|id: usize| s.contains(id) <==> (id < n && within(
                npcs[id as int].position,
                p,
                radius,
            )) by {
                if s.contains(id) {
                    let k = choose|k: int| 0 <= k < s.len() && s[k] == id;
                    if k < rest.len() {
                        assert(rest.contains(id));
                    }
                }
                if id < n && within(npcs[id as int].position, p, radius) {
                    if id < m {
                        assert(rest.contains(id));
                        let k = choose|k: int| 0 <= k < rest.len() && rest[k] == id;
                        assert(s[k] == id);
                    } else {
                        assert(s[rest.len() as int] == id);
                    }
                }
            }
        }
    }
}

} // verus!
