//! The projection collaborator and model metadata store, as plain-value
//! finite mappings sampled for one tick: world-to-screen points, projected
//! hull rectangles, the camera position and the screen bounds.

use vstd::prelude::*;
use crate::actor::{model_ok, ModelInfo};
use crate::geom::{screen_ok, world_ok, ScreenPos, WorldPos, COORD_LIMIT};

verus! {

/// One tick's view of the projection collaborator. A world point absent
/// from `points` does not project (off-screen or behind the camera); the
/// flag of an entry mirrors the collaborator's clamp-to-screen switch under
/// which the point was projected.
pub struct ProjectionView {
    pub camera_world: Option<WorldPos>,
    pub screen_bounds: ScreenPos,
    pub points: Vec<(WorldPos, bool, ScreenPos)>,
    /// Hull corner pair (already offset by the actor position) to the
    /// projected 2D screen rectangle.
    pub hulls: Vec<(WorldPos, WorldPos, ScreenPos, ScreenPos)>,
}

pub open spec fn point_of(entries: Seq<(WorldPos, bool, ScreenPos)>, p: WorldPos, clamp: bool) -> Option<
    ScreenPos,
>
    decreases entries.len(),
{
    if entries.len() == 0 {
        Option::None
    } else if entries[0].0 == p && entries[0].1 == clamp {
        Option::Some(entries[0].2)
    } else {
        point_of(entries.drop_first(), p, clamp)
    }
}

pub open spec fn hull_of(
    entries: Seq<(WorldPos, WorldPos, ScreenPos, ScreenPos)>,
    min: WorldPos,
    max: WorldPos,
) -> Option<(ScreenPos, ScreenPos)>
    decreases entries.len(),
{
    if entries.len() == 0 {
        Option::None
    } else if entries[0].0 == min && entries[0].1 == max {
        Option::Some((entries[0].2, entries[0].3))
    } else {
        hull_of(entries.drop_first(), min, max)
    }
}

pub open spec fn view_ok(v: ProjectionView) -> bool {
    &&& match v.camera_world {
        Option::Some(c) => world_ok(c),
        Option::None => true,
    }
    &&& 0 <= v.screen_bounds.x <= COORD_LIMIT
    &&& 0 <= v.screen_bounds.y <= COORD_LIMIT
    &&& forall|i: int| 0 <= i < v.points@.len() ==> screen_ok((#[trigger] v.points@[i]).2)
    &&& forall|i: int|
        0 <= i < v.hulls@.len() ==> screen_ok((#[trigger] v.hulls@[i]).2) && screen_ok(v.hulls@[i].3)
}

impl ProjectionView {
    /// The screen point a world position projects to, if it is on screen.
    pub fn world_to_screen(&self, p: WorldPos, clamp: bool) -> (r: Option<ScreenPos>)
        ensures
            r == point_of(self.points@, p, clamp),
    {
        let ghost all = self.points@;
        let mut i: usize = 0;
        proof {
            assert(all.skip(0) =~= all);
        }
        while i < self.points.len()
            invariant
                0 <= i <= all.len(),
                self.points@ == all,
                point_of(all, p, clamp) == point_of(all.skip(i as int), p, clamp),
            decreases all.len() - i,
        {
            proof {
                assert(all.skip(i as int).drop_first() =~= all.skip(i as int + 1));
                assert(all.skip(i as int)[0] == all[i as int]);
            }
            let entry = &self.points[i];
            if entry.0 == p && entry.1 == clamp {
                return Option::Some(entry.2);
            }
            i = i + 1;
        }
        proof {
            assert(all.skip(all.len() as int).len() == 0);
        }
        Option::None
    }

    /// The projected 2D rectangle of a world-space bounding box, if on
    /// screen.
    pub fn calculate_box_2d(&self, min: WorldPos, max: WorldPos) -> (r: Option<(ScreenPos,
        ScreenPos)>)
        ensures
            r == hull_of(self.hulls@, min, max),
    {
        let ghost all = self.hulls@;
        let mut i: usize = 0;
        proof {
            assert(all.skip(0) =~= all);
        }
        while i < self.hulls.len()
            invariant
                0 <= i <= all.len(),
                self.hulls@ == all,
                hull_of(all, min, max) == hull_of(all.skip(i as int), min, max),
            decreases all.len() - i,
        {
            proof {
                assert(all.skip(i as int).drop_first() =~= all.skip(i as int + 1));
                assert(all.skip(i as int)[0] == all[i as int]);
            }
            let entry = &self.hulls[i];
            if entry.0 == min && entry.1 == max {
                return Option::Some((entry.2, entry.3));
            }
            i = i + 1;
        }
        proof {
            assert(all.skip(all.len() as int).len() == 0);
        }
        Option::None
    }
}

pub proof fn lemma_point_of_entry(entries: Seq<(WorldPos, bool, ScreenPos)>, p: WorldPos, clamp: bool)
    ensures
        match point_of(entries, p, clamp) {
            Option::Some(sp) => exists|i: int|
                0 <= i < entries.len() && (#[trigger] entries[i]).2 == sp,
            Option::None => true,
        },
    decreases entries.len(),
{
    if entries.len() > 0 && !(entries[0].0 == p && entries[0].1 == clamp) {
        lemma_point_of_entry(entries.drop_first(), p, clamp);
        if point_of(entries, p, clamp) is Some {
            let sp = point_of(entries, p, clamp).unwrap();
            let i = choose|i: int|
                0 <= i < entries.drop_first().len() && (#[trigger] entries.drop_first()[i]).2 == sp;
            assert(entries[i + 1].2 == sp);
        }
    }
}

pub proof fn lemma_point_of_screen_ok(v: ProjectionView, p: WorldPos, clamp: bool)
    requires
        view_ok(v),
    ensures
        match point_of(v.points@, p, clamp) {
            Option::Some(sp) => screen_ok(sp),
            Option::None => true,
        },
{
    lemma_point_of_entry(v.points@, p, clamp);
}

pub proof fn lemma_hull_of_entry(
    entries: Seq<(WorldPos, WorldPos, ScreenPos, ScreenPos)>,
    min: WorldPos,
    max: WorldPos,
)
    ensures
        match hull_of(entries, min, max) {
            Option::Some(r) => exists|i: int|
                0 <= i < entries.len() && (#[trigger] entries[i]).2 == r.0 && entries[i].3 == r.1,
            Option::None => true,
        },
    decreases entries.len(),
{
    if entries.len() > 0 && !(entries[0].0 == min && entries[0].1 == max) {
        lemma_hull_of_entry(entries.drop_first(), min, max);
        if hull_of(entries, min, max) is Some {
            let r = hull_of(entries, min, max).unwrap();
            let i = choose|i: int|
                0 <= i < entries.drop_first().len() && (#[trigger] entries.drop_first()[i]).2 == r.0
                    && entries.drop_first()[i].3 == r.1;
            assert(entries[i + 1].2 == r.0 && entries[i + 1].3 == r.1);
        }
    }
}

pub proof fn lemma_hull_of_screen_ok(v: ProjectionView, min: WorldPos, max: WorldPos)
    requires
        view_ok(v),
    ensures
        match hull_of(v.hulls@, min, max) {
            Option::Some(r) => screen_ok(r.0) && screen_ok(r.1),
            Option::None => true,
        },
{
    lemma_hull_of_entry(v.hulls@, min, max);
}

/// The model metadata store: model reference to bone table and hull corners.
pub struct ModelStore {
    pub entries: Vec<(u64, ModelInfo)>,
}

pub open spec fn model_of(entries: Seq<(u64, ModelInfo)>, id: u64) -> Option<ModelInfo>
    decreases entries.len(),
{
    if entries.len() == 0 {
        Option::None
    } else if entries[0].0 == id {
        Option::Some(entries[0].1)
    } else {
        model_of(entries.drop_first(), id)
    }
}

pub open spec fn store_ok(s: ModelStore) -> bool {
    forall|i: int| 0 <= i < s.entries@.len() ==> model_ok((#[trigger] s.entries@[i]).1)
}

impl ModelStore {
    pub fn lookup(&self, id: u64) -> (r: Option<&ModelInfo>)
        ensures
            match r {
                Option::Some(m) => model_of(self.entries@, id) == Option::Some(*m),
                Option::None => model_of(self.entries@, id) is None,
            },
    {
        let ghost all = self.entries@;
        let mut i: usize = 0;
        proof {
            assert(all.skip(0) =~= all);
        }
        while i < self.entries.len()
            invariant
                0 <= i <= all.len(),
                self.entries@ == all,
                model_of(all, id) == model_of(all.skip(i as int), id),
            decreases all.len() - i,
        {
            proof {
                assert(all.skip(i as int).drop_first() =~= all.skip(i as int + 1));
                assert(all.skip(i as int)[0] == all[i as int]);
            }
            if self.entries[i].0 == id {
                assert(model_of(all.skip(i as int), id) == Option::Some(all[i as int].1));
                return Option::Some(&self.entries[i].1);
            }
            i = i + 1;
        }
        proof {
            assert(all.skip(all.len() as int).len() == 0);
        }
        Option::None
    }
}

} // verus!
