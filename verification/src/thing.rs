use vstd::prelude::*;

verus! {

/// The ids `0 .. count` in order when `on`, none otherwise.
pub open spec fn ids_below(count: u64, on: bool) -> Seq<u64> {
    if on {
        Seq::new(count as nat, |i: int| i as u64)
    } else {
        Seq::empty()
    }
}

/// What a spawner knows: how many instances it spawned, the index count of
/// its shape, whether its instances are drawn and whether they collide, and
/// the ids that have a location and a rigid body.
pub struct ThingModel {
    pub count: u64,
    pub indices: u32,
    pub render: bool,
    pub collide: bool,
    pub located: Seq<u64>,
    pub bodies: Seq<u64>,
}

/// A spawner is consistent when the ids with a location are exactly the
/// spawned ones if it draws, and likewise for rigid bodies if it collides.
pub open spec fn thing_consistent(m: ThingModel) -> bool {
    &&& m.located == ids_below(m.count, m.render)
    &&& m.bodies == ids_below(m.count, m.collide)
}

/// The state after one more spawn.
pub open spec fn after_spawn(m: ThingModel) -> ThingModel {
    ThingModel {
        count: (m.count + 1) as u64,
        located: if m.render { m.located.push(m.count) } else { m.located },
        bodies: if m.collide { m.bodies.push(m.count) } else { m.bodies },
        ..m
    }
}

/// A kind of thing that can be spawned many times: each spawn gets the
/// next id, a location if the thing has a shape and a rigid body if it has
/// a collider. The ids with a location and with a body follow from the
/// count and the two flags, so they are not stored.
pub struct LoriThing {
    count: u64,
    indices: u32,
    render: bool,
    collide: bool,
}

impl View for LoriThing {
    type V = ThingModel;

    closed spec fn view(&self) -> ThingModel {
        ThingModel {
            count: self.count,
            indices: self.indices,
            render: self.render,
            collide: self.collide,
            located: ids_below(self.count, self.render),
            bodies: ids_below(self.count, self.collide),
        }
    }
}

impl LoriThing {
    /// A thing drawn with a shape of `shape_indices` indices, if it has a
    /// shape, and colliding if `has_collider`. The index count is kept as a
    /// `u32`, truncated.
    pub fn new(shape_indices: Option<usize>, has_collider: bool) -> (t: LoriThing)
        ensures
            t@.count == 0,
            t@.render == shape_indices is Some,
            t@.indices == match shape_indices {
                Some(n) => n as u32,
                None => 0u32,
            },
            t@.collide == has_collider,
            t@.located == Seq::<u64>::empty(),
            t@.bodies == Seq::<u64>::empty(),
            thing_consistent(t@),
    {
        let (render, indices) = match shape_indices {
            Some(n) => (true, n as u32),
            None => (false, 0u32),
        };
        let t = LoriThing {
            count: 0,
            indices,
            render,
            collide: has_collider,
        };
        assert(t@.located =~= Seq::<u64>::empty());
        assert(t@.bodies =~= Seq::<u64>::empty());
        t
    }

    /// Spawns one more instance and gives its id: the number of instances
    /// spawned before.
    pub fn spawn(&mut self) -> (id: u64)
        requires
            old(self)@.count < u64::MAX,
        ensures
            id == old(self)@.count,
            final(self)@.count == old(self)@.count + 1,
            final(self)@.render == old(self)@.render,
            final(self)@.collide == old(self)@.collide,
            final(self)@.indices == old(self)@.indices,
            final(self)@ == after_spawn(old(self)@),
            thing_consistent(final(self)@),
    {
        let id = self.count;
        self.count = id + 1;
        proof {
            law_spawn_id_is_fresh(old(self)@);
            assert(final(self)@.located =~= after_spawn(old(self)@).located);
            assert(final(self)@.bodies =~= after_spawn(old(self)@).bodies);
        }
        id
    }

    /// Whether the thing's instances are drawn.
    pub fn renderable(&self) -> (b: bool)
        ensures
            b == self@.render,
    {
        self.render
    }

    /// Whether the thing's instances collide.
    pub fn collidable(&self) -> (b: bool)
        ensures
            b == self@.collide,
    {
        self.collide
    }

    /// The number of indices of the thing's shape.
    pub fn indices(&self) -> (n: u32)
        ensures
            n == self@.indices,
    {
        self.indices
    }

    /// The number of instances spawned so far.
    pub fn count(&self) -> (n: u64)
        ensures
            n == self@.count,
    {
        self.count
    }

    /// Whether the instance `id` has a location.
    pub fn has_location(&self, id: u64) -> (b: bool)
        ensures
            b == self@.located.contains(id),
    {
        proof {
            if self.render && id < self.count {
                assert(self@.located[id as int] == id);
            }
        }
        self.render && id < self.count
    }

    /// Whether the instance `id` has a rigid body.
    pub fn has_body(&self, id: u64) -> (b: bool)
        ensures
            b == self@.bodies.contains(id),
    {
        proof {
            if self.collide && id < self.count {
                assert(self@.bodies[id as int] == id);
            }
        }
        self.collide && id < self.count
    }
}

/// Law: every spawner is consistent: the ids with a location are exactly
/// the spawned ones when it draws, and likewise for bodies when it collides.
pub proof fn law_thing_consistent(t: LoriThing)
    ensures
        thing_consistent(t@),
{
}

/// Law: whatever the shape and collider, a spawn counts one more instance,
/// and the ids that two successive spawns give differ: the first spawn gives
/// the old count, the second the old count plus one.
pub proof fn law_successive_spawns_distinct(m: ThingModel)
    requires
        m.count + 2 <= u64::MAX,
    ensures
        after_spawn(m).count == m.count + 1,
        after_spawn(after_spawn(m)).count == m.count + 2,
        after_spawn(m).count != m.count,
{
}

/// Law: after k spawns from a fresh thing, the count is k, so the ids given
/// were 0, 1, ..., k - 1, each once.
pub proof fn law_spawn_count(m: ThingModel, k: nat)
    requires
        m.count + k <= u64::MAX,
    ensures
        spawned(m, k).count == m.count + k,
    decreases k,
{
    if k > 0 {
        law_spawn_count(m, (k - 1) as nat);
    }
}

/// The state after `k` spawns.
pub open spec fn spawned(m: ThingModel, k: nat) -> ThingModel
    decreases k,
{
    if k == 0 {
        m
    } else {
        after_spawn(spawned(m, (k - 1) as nat))
    }
}

/// Law: the id a spawn gives is fresh: no instance spawned before has it,
/// neither among the located nor among the bodies; and after the spawn the
/// new instance has a location exactly when the thing is drawn and a body
/// exactly when it collides.
pub proof fn law_spawn_id_is_fresh(m: ThingModel)
    requires
        thing_consistent(m),
        m.count < u64::MAX,
    ensures
        !m.located.contains(m.count),
        !m.bodies.contains(m.count),
        after_spawn(m).located.contains(m.count) == m.render,
        after_spawn(m).bodies.contains(m.count) == m.collide,
        thing_consistent(after_spawn(m)),
{
    if m.located.contains(m.count) {
        let i = choose|i: int| 0 <= i < m.located.len() && m.located[i] == m.count;
        assert(m.located[i] == i as u64);
    }
    if m.bodies.contains(m.count) {
        let i = choose|i: int| 0 <= i < m.bodies.len() && m.bodies[i] == m.count;
        assert(m.bodies[i] == i as u64);
    }
    let n = after_spawn(m);
    if m.render {
        assert(n.located[m.count as int] == m.count);
    }
    if m.collide {
        assert(n.bodies[m.count as int] == m.count);
    }
    assert(n.located =~= ids_below(n.count, n.render));
    assert(n.bodies =~= ids_below(n.count, n.collide));
}

} // verus!
