//! A scene: its surfaces and its lights.

use vstd::prelude::*;
use vstd::seq_lib::to_multiset_build;
use crate::lighting::point_light::PointLight;
use crate::objects::sphere::Sphere;
use crate::primitives::arithmetic::Unit;
use crate::primitives::arithmetic::sound;
use crate::primitives::hit::Hit;
use crate::primitives::ray::Ray;
use crate::primitives::scalar::Scalar;

verus! {

pub struct World {
    pub lights: Vec<PointLight>,
    pub objects: Vec<Sphere>,
}

/// The hits of a ray on the first `k` surfaces, surface after surface.
pub open spec fn gathered<'a, F: Unit>(
    unit: &F,
    objects: Seq<Sphere>,
    ray: Ray,
    k: nat,
) -> Seq<Hit<'a>>
    decreases k,
{
    if k == 0 {
        Seq::empty()
    } else {
        gathered(unit, objects, ray, (k - 1) as nat) + objects[k - 1].hits_of(unit, ray)
    }
}

/// A hit put into an ordered run of hits: before every hit that ranks
/// above it, and behind every other.
pub open spec fn inserted<'a>(run: Seq<Hit<'a>>, hit: Hit<'a>) -> Seq<Hit<'a>>
    decreases run.len(),
{
    if run.len() == 0 {
        seq![hit]
    } else if hit.t.rank() < run.last().t.rank() {
        inserted(run.drop_last(), hit).push(run.last())
    } else {
        run.push(hit)
    }
}

/// The hits in ascending order of their parameters, every NaN last; hits
/// that rank level keep the order they came in.
pub open spec fn ordered<'a>(hits: Seq<Hit<'a>>) -> Seq<Hit<'a>>
    decreases hits.len(),
{
    if hits.len() == 0 {
        Seq::empty()
    } else {
        inserted(ordered(hits.drop_last()), hits.last())
    }
}

/// No hit ranks below one that stands before it.
pub open spec fn ascending(hits: Seq<Hit>) -> bool {
    forall|i: int, j: int| 0 <= i < j < hits.len() ==> hits[i].t.rank() <= hits[j].t.rank()
}

/// The hit lies ahead of the ray's origin: its parameter is above zero.
pub open spec fn visible(hit: Hit) -> bool {
    (Scalar { bits: 0 }).less(hit.t)
}

/// The first visible hit from place `from` on, if there is one.
pub open spec fn first_visible_from<'a>(hits: Seq<Hit<'a>>, from: int) -> Option<Hit<'a>>
    decreases hits.len() - from,
{
    if from < 0 || from >= hits.len() {
        None
    } else if visible(hits[from]) {
        Some(hits[from])
    } else {
        first_visible_from(hits, from + 1)
    }
}

/// The first visible hit, if there is one.
pub open spec fn first_visible<'a>(hits: Seq<Hit<'a>>) -> Option<Hit<'a>> {
    first_visible_from(hits, 0)
}

/// Putting a hit at the place behind which every hit ranks above it, and
/// before which the neighbour does not, is `inserted`.
proof fn inserted_is_insert_at(run: Seq<Hit>, hit: Hit, at: int)
    requires
        0 <= at <= run.len(),
        forall|j: int| at <= j < run.len() ==> hit.t.rank() < run[j].t.rank(),
        at > 0 ==> run[at - 1].t.rank() <= hit.t.rank(),
    ensures
        inserted(run, hit) =~= run.insert(at, hit),
    decreases run.len(),
{
    if run.len() == 0 {
    } else if at == run.len() {
    } else {
        inserted_is_insert_at(run.drop_last(), hit, at);
    }
}

/// Putting a hit into an ascending run gives an ascending run that is one
/// longer, holds the hit besides what the run held, and ranks nowhere
/// above a bound on both.
proof fn inserted_keeps_order(run: Seq<Hit>, hit: Hit, bound: int)
    requires
        ascending(run),
        hit.t.rank() <= bound,
        forall|j: int| 0 <= j < run.len() ==> run[j].t.rank() <= bound,
    ensures
        ascending(inserted(run, hit)),
        inserted(run, hit).len() == run.len() + 1,
        inserted(run, hit).to_multiset() =~= run.to_multiset().insert(hit),
        forall|j: int|
            0 <= j < inserted(run, hit).len() ==> inserted(run, hit)[j].t.rank() <= bound,
    decreases run.len(),
{
    broadcast use to_multiset_build;

    if run.len() == 0 {
        assert(seq![hit] =~= Seq::<Hit>::empty().push(hit));
        assert(run =~= Seq::<Hit>::empty());
    } else if hit.t.rank() < run.last().t.rank() {
        let front = run.drop_last();
        assert(run =~= front.push(run.last()));
        inserted_keeps_order(front, hit, run.last().t.rank());
    } else {
    }
}

/// Ordering sorts: the result ascends and holds exactly the hits given,
/// each as often as it was given.
pub proof fn ordering_sorts(hits: Seq<Hit>)
    ensures
        ascending(ordered(hits)),
        ordered(hits).len() == hits.len(),
        ordered(hits).to_multiset() =~= hits.to_multiset(),
    decreases hits.len(),
{
    broadcast use to_multiset_build;

    if hits.len() == 0 {
        assert(hits =~= Seq::<Hit>::empty());
    } else {
        let front = hits.drop_last();
        ordering_sorts(front);
        assert(hits =~= front.push(hits.last()));
        inserted_keeps_order(ordered(front), hits.last(), Scalar::rank_ceiling());
        assert(front.push(hits.last()).to_multiset() =~= front.to_multiset().insert(hits.last()));
    }
}

/// Where a first visible hit exists it is visible, it is one of the hits,
/// and no hit before it is visible; where none exists no hit is visible.
pub proof fn first_visible_is_the_first(hits: Seq<Hit>, from: int)
    requires
        0 <= from <= hits.len(),
    ensures
        match first_visible_from(hits, from) {
            Some(hit) => exists|i: int|
                from <= i < hits.len() && hits[i] == hit && visible(hit) && forall|j: int|
                    from <= j < i ==> !visible(hits[j]),
            None => forall|j: int| from <= j < hits.len() ==> !visible(hits[j]),
        },
    decreases hits.len() - from,
{
    if from < hits.len() && !visible(hits[from]) {
        first_visible_is_the_first(hits, from + 1);
        match first_visible_from(hits, from + 1) {
            Some(hit) => {
                let i = choose|i: int|
                    from + 1 <= i < hits.len() && hits[i] == hit && visible(hit) && forall|j: int|
                        from + 1 <= j < i ==> !visible(hits[j]);
                assert(from <= i < hits.len() && hits[i] == hit && visible(hit) && forall|j: int|
                    from <= j < i ==> !visible(hits[j]));
            },
            None => {},
        }
    } else if from < hits.len() {
        assert(from <= from < hits.len() && hits[from] == hits[from] && visible(hits[from])
            && forall|j: int| from <= j < from ==> !visible(hits[j]));
    }
}

/// In an ascending run the first visible hit is the nearest: no visible
/// hit ranks below it.
pub proof fn first_visible_is_nearest(hits: Seq<Hit>)
    requires
        ascending(hits),
    ensures
        first_visible(hits).is_some() ==> forall|j: int|
            0 <= j < hits.len() && visible(hits[j]) ==> first_visible(hits).unwrap().t.rank()
                <= hits[j].t.rank(),
{
    first_visible_is_the_first(hits, 0);
    if first_visible(hits).is_some() {
        let hit = first_visible(hits).unwrap();
        let i = choose|i: int|
            0 <= i < hits.len() && hits[i] == hit && visible(hit) && forall|j: int|
                0 <= j < i ==> !visible(hits[j]);
        assert forall|j: int| 0 <= j < hits.len() && visible(hits[j]) implies hit.t.rank()
            <= hits[j].t.rank() by {
            if j < i {
            } else if j > i {
            }
        }
    }
}

impl World {
    /// Every surface is well formed.
    pub open spec fn wf(&self) -> bool {
        forall|i: int| 0 <= i < self.objects@.len() ==> (#[trigger] self.objects@[i]).wf()
    }

    /// All hits of a ray on the scene, in ascending order.
    pub open spec fn hits_along<F: Unit>(&self, unit: &F, ray: Ray) -> Seq<Hit<'_>> {
        ordered(gathered(unit, self.objects@, ray, self.objects@.len()))
    }

    pub fn new() -> (w: World)
        ensures
            w.lights@.len() == 0,
            w.objects@.len() == 0,
            w.wf(),
    {
        World { lights: Vec::new(), objects: Vec::new() }
    }

    pub fn add_light(&mut self, light: PointLight)
        ensures
            final(self).lights@ == old(self).lights@.push(light),
            final(self).objects == old(self).objects,
    {
        self.lights.push(light);
    }

    pub fn add_object(&mut self, object: Sphere)
        ensures
            final(self).objects@ == old(self).objects@.push(object),
            final(self).lights == old(self).lights,
            old(self).wf() && object.wf() ==> final(self).wf(),
    {
        self.objects.push(object);
    }

    pub fn get_lights(&self) -> (lights: &Vec<PointLight>)
        ensures
            *lights == self.lights,
    {
        &self.lights
    }

    pub fn get_objects(&self) -> (objects: &Vec<Sphere>)
        ensures
            *objects == self.objects,
    {
        &self.objects
    }

    /// Every hit of the ray on every surface, in ascending order of the
    /// parameter, every NaN last.
    pub fn get_hits<F: Unit>(&self, ray: &Ray, unit: &F) -> (hits: Vec<Hit<'_>>)
        requires
            self.wf(),
            sound(unit),
        ensures
            hits@ == self.hits_along(unit, *ray),
            ascending(hits@),
            forall|i: int| 0 <= i < hits@.len() ==> (#[trigger] hits@[i]).object.wf(),
            hits@.to_multiset() =~= gathered(
                unit,
                self.objects@,
                *ray,
                self.objects@.len(),
            ).to_multiset(),
    {
        let mut all: Vec<Hit<'_>> = Vec::new();
        let mut i: usize = 0;
        while i < self.objects.len()
            invariant
                i <= self.objects@.len(),
                self.wf(),
                sound(unit),
                all@ == gathered(unit, self.objects@, *ray, i as nat),
                forall|j: int| 0 <= j < all@.len() ==> (#[trigger] all@[j]).object.wf(),
            decreases self.objects@.len() - i,
        {
            let found = self.objects[i].get_hits(ray, unit);
            let mut j: usize = 0;
            let ghost before = all@;
            while j < found.len()
                invariant
                    j <= found@.len(),
                    all@ == before + found@.take(j as int),
                    forall|j: int| 0 <= j < all@.len() ==> (#[trigger] all@[j]).object.wf(),
                    forall|j: int| 0 <= j < found@.len() ==> (#[trigger] found@[j]).object.wf(),
                decreases found@.len() - j,
            {
                all.push(found[j]);
                j += 1;
            }
            i += 1;
        }
        let mut sorted: Vec<Hit<'_>> = Vec::new();
        let mut k: usize = 0;
        while k < all.len()
            invariant
                k <= all@.len(),
                sorted@ == ordered(all@.take(k as int)),
                sorted@.len() == k,
                forall|j: int| 0 <= j < all@.len() ==> (#[trigger] all@[j]).object.wf(),
                forall|j: int| 0 <= j < sorted@.len() ==> (#[trigger] sorted@[j]).object.wf(),
            decreases all@.len() - k,
        {
            let hit = all[k];
            let mut at: usize = sorted.len();
            proof {
                ordering_sorts(all@.take(k as int));
            }
            while at > 0 && hit.t.ranks_below(sorted[at - 1].t)
                invariant
                    at <= sorted@.len(),
                    ascending(sorted@),
                    forall|j: int| at <= j < sorted@.len() ==> hit.t.rank() < sorted@[j].t.rank(),
                decreases at,
            {
                at -= 1;
            }
            proof {
                inserted_is_insert_at(sorted@, hit, at as int);
                assert(all@.take(k + 1).drop_last() =~= all@.take(k as int));
            }
            sorted.insert(at, hit);
            k += 1;
        }
        proof {
            assert(all@.take(k as int) =~= all@);
            ordering_sorts(all@);
        }
        sorted
    }

    /// The nearest hit ahead of the ray's origin, if there is one: the
    /// first of the ordered hits whose parameter is above zero.
    pub fn get_first_visible_hit<'a, 'b>(hits: &'b Vec<Hit<'a>>) -> (first: Option<&'b Hit<'a>>)
        ensures
            first.is_some() == first_visible(hits@).is_some(),
            first.is_some() ==> *first.unwrap() == first_visible(hits@).unwrap(),
            first.is_some() ==> hits@.contains(*first.unwrap()) && visible(*first.unwrap()),
            first.is_none() ==> forall|j: int| 0 <= j < hits@.len() ==> !visible(hits@[j]),
    {
        proof {
            first_visible_is_the_first(hits@, 0);
        }
        let mut i: usize = 0;
        while i < hits.len()
            invariant
                i <= hits@.len(),
                first_visible(hits@) == first_visible_from(hits@, i as int),
            decreases hits@.len() - i,
        {
            if hits[i].get_t().is_positive() {
                return Some(&hits[i]);
            }
            i += 1;
        }
        None
    }
}

} // verus!
