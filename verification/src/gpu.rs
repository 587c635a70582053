use vstd::prelude::*;
use crate::text::{append_decimal, decimal};

verus! {

/// A point in world units (thousandths of a unit).
pub type Position = (i32, i32, i32);

/// The distance limits of the detail levels, in thousandths of a unit:
/// 100, 200, 500, 1000 and 5000 units.
pub open spec fn default_lod_levels() -> Seq<i64> {
    seq![100_000i64, 200_000, 500_000, 1_000_000, 5_000_000]
}

/// The squared distance between two points.
pub open spec fn squared_distance(a: Position, b: Position) -> int {
    let dx = b.0 - a.0;
    let dy = b.1 - a.1;
    let dz = b.2 - a.2;
    dx * dx + dy * dy + dz * dz
}

/// Whether `object` lies within `view_distance` of `camera`.
pub open spec fn within_view(camera: Position, view_distance: i32, object: Position) -> bool {
    view_distance >= 0 && squared_distance(camera, object) <= view_distance * view_distance
}

/// The detail level for `distance`, searching the limits from index `i`:
/// the first level whose limit the distance does not exceed, or the last
/// level when it exceeds them all.
pub open spec fn lod_search(levels: Seq<i64>, distance: i64, i: int) -> int
    decreases levels.len() - i,
{
    if i + 1 >= levels.len() {
        levels.len() - 1
    } else if distance <= levels[i] {
        i
    } else {
        lod_search(levels, distance, i + 1)
    }
}

/// The detail level for `distance` under the limits `levels`.
pub open spec fn lod_index(levels: Seq<i64>, distance: i64) -> int {
    lod_search(levels, distance, 0)
}

/// Reduces rendering work: detail levels by distance, distance culling and
/// a cap on draw calls.
pub struct GPUOptimizer {
    lod_levels: Vec<i64>,
    max_draw_calls: u32,
    culled_objects: u32,
}

proof fn lemma_square_le(x: int, bound: int)
    requires
        -bound <= x <= bound,
    ensures
        0 <= x * x <= bound * bound,
{
    assert(0 <= x * x <= bound * bound) by (nonlinear_arith)
        requires
            -bound <= x <= bound,
    ;
}

fn squared_distance_of(a: Position, b: Position) -> (d: i128)
    ensures
        d == squared_distance(a, b),
{
    let dx = b.0 as i128 - a.0 as i128;
    let dy = b.1 as i128 - a.1 as i128;
    let dz = b.2 as i128 - a.2 as i128;
    proof {
        lemma_square_le(dx as int, 0x1_0000_0000);
        lemma_square_le(dy as int, 0x1_0000_0000);
        lemma_square_le(dz as int, 0x1_0000_0000);
    }
    dx * dx + dy * dy + dz * dz
}

impl GPUOptimizer {
    #[verifier::type_invariant]
    spec fn levels_well_formed(&self) -> bool {
        &&& 1 <= self.lod_levels@.len() <= u32::MAX
        &&& forall|i: int, j: int|
            0 <= i <= j < self.lod_levels@.len() ==> self.lod_levels@[i] <= self.lod_levels@[j]
    }

    /// The distance limits of the detail levels, nearest first.
    pub closed spec fn lod_levels(&self) -> Seq<i64> {
        self.lod_levels@
    }

    /// The largest number of draw calls allowed per frame.
    pub closed spec fn max_draw_calls(&self) -> u32 {
        self.max_draw_calls
    }

    /// The number of objects the last culling pass removed.
    pub closed spec fn culled_objects(&self) -> u32 {
        self.culled_objects
    }

    /// An optimizer with five detail levels and a limit of 3000 draw calls.
    pub fn new() -> (g: Self)
        ensures
            g.lod_levels() == default_lod_levels(),
            g.max_draw_calls() == 3000,
            g.culled_objects() == 0,
    {
        let lod_levels = vec![100_000i64, 200_000, 500_000, 1_000_000, 5_000_000];
        assert(lod_levels@ =~= default_lod_levels());
        GPUOptimizer { lod_levels, max_draw_calls: 3000, culled_objects: 0 }
    }

    /// The detail level for an object at `distance` (thousandths of a
    /// unit): the first level whose limit the distance does not exceed, or
    /// the last level when it exceeds them all.
    pub fn calculate_lod(&self, distance: i64) -> (lod: u32)
        ensures
            lod == lod_index(self.lod_levels(), distance),
    {
        proof {
            use_type_invariant(self);
        }
        let mut i: usize = 0;
        while i < self.lod_levels.len()
            invariant
                i <= self.lod_levels@.len() <= u32::MAX,
                1 <= self.lod_levels@.len(),
                i < self.lod_levels@.len() ==> lod_index(self.lod_levels@, distance) == lod_search(
                    self.lod_levels@,
                    distance,
                    i as int,
                ),
                i == self.lod_levels@.len() ==> lod_index(self.lod_levels@, distance)
                    == self.lod_levels@.len() - 1,
            decreases self.lod_levels@.len() - i,
        {
            if distance <= self.lod_levels[i] {
                return i as u32;
            }
            i = i + 1;
        }
        (self.lod_levels.len() - 1) as u32
    }

    /// Keeps the objects within `view_distance` of the camera (all in
    /// thousandths of a unit), in their order, and records how many were
    /// dropped.
    pub fn frustum_cull(
        &mut self,
        camera_pos: Position,
        view_distance: i32,
        objects: Vec<Position>,
    ) -> (visible: Vec<Position>)
        requires
            objects@.len() - objects@.filter(
                |o: Position| within_view(camera_pos, view_distance, o),
            ).len() <= u32::MAX,
        ensures
            visible@ == objects@.filter(|o: Position| within_view(camera_pos, view_distance, o)),
            final(self).culled_objects() == objects@.len() - visible@.len(),
            final(self).lod_levels() == old(self).lod_levels(),
            final(self).max_draw_calls() == old(self).max_draw_calls(),
    {
        proof {
            use_type_invariant(&*self);
            lemma_square_le(view_distance as int, 0x8000_0000);
        }
        let ghost pred = |o: Position| within_view(camera_pos, view_distance, o);
        let mut visible: Vec<Position> = Vec::new();
        let mut culled: usize = 0;
        let mut i: usize = 0;
        let range: i128 = view_distance as i128;
        let range_squared: i128 = range * range;
        while i < objects.len()
            invariant
                i <= objects@.len(),
                objects@.len() - objects@.filter(pred).len() <= u32::MAX,
                pred == (|o: Position| within_view(camera_pos, view_distance, o)),
                range == view_distance,
                range_squared == view_distance * view_distance,
                visible@ == objects@.take(i as int).filter(pred),
                culled as int + visible@.len() == i,
            decreases objects@.len() - i,
        {
            let obj_pos = objects[i];
            let d = squared_distance_of(camera_pos, obj_pos);
            proof {
                reveal_with_fuel(Seq::filter, 1);
                assert(objects@.take(i + 1).drop_last() =~= objects@.take(i as int));
            }
            if range >= 0 && d <= range_squared {
                visible.push(obj_pos);
            } else {
                culled = culled + 1;
            }
            i = i + 1;
        }
        proof {
            assert(objects@.take(i as int) =~= objects@);
        }
        self.culled_objects = culled as u32;
        visible
    }

    /// The draw calls allowed for a frame: the request, capped at the limit.
    pub fn reduce_draw_calls(&self, current_calls: u32) -> (calls: u32)
        ensures
            calls == if current_calls < self.max_draw_calls() {
                current_calls
            } else {
                self.max_draw_calls()
            },
    {
        if current_calls < self.max_draw_calls {
            current_calls
        } else {
            self.max_draw_calls
        }
    }

    /// A one-line summary of the last culling pass.
    pub fn get_stats(&self) -> (text: String)
        ensures
            text@ == "Culled: "@ + decimal(self.culled_objects() as nat) + " objects"@,
    {
        let mut text = String::from_str("Culled: ");
        append_decimal(&mut text, self.culled_objects);
        text.append(" objects");
        text
    }

    /// The number of objects the last culling pass removed.
    pub fn get_culled_count(&self) -> (count: u32)
        ensures
            count == self.culled_objects(),
    {
        self.culled_objects
    }
}

} // verus!
