//! A minimal entity-component store: every entity is an index into one
//! column per component type, and a column holds `None` for an entity that
//! lacks the component.
use vstd::prelude::*;

verus! {

/// The health component.
pub struct Health(pub i32);

/// The name component.
pub struct Name(pub String);

/// Stores the component columns; entity `i` owns slot `i` of every column.
pub struct World {
    health_components: Vec<Option<Health>>,
    name_components: Vec<Option<Name>>,
}

/// The plain value of a health component.
pub open spec fn health_view(h: Option<Health>) -> Option<i32> {
    match h {
        Some(h) => Some(h.0),
        None => None,
    }
}

/// The plain value of a name component.
pub open spec fn name_view(n: Option<Name>) -> Option<Seq<char>> {
    match n {
        Some(n) => Some(n.0@),
        None => None,
    }
}

/// An entity as plain values: its health and its name, each if it has one.
pub type EntityView = (Option<i32>, Option<Seq<char>>);

/// The line reported for an entity of the given name and health.
pub open spec fn status_line(name: Seq<char>, health: i32) -> Seq<char> {
    if health < 0 {
        name + " has perished!"@
    } else {
        name + " is still healthy"@
    }
}

/// The lines reported for the first `k` entities: one for every entity that
/// has both a health and a name, in entity order.
pub open spec fn status_lines(entities: Seq<EntityView>, k: nat) -> Seq<Seq<char>>
    decreases k,
{
    if k == 0 {
        Seq::<Seq<char>>::empty()
    } else {
        status_lines(entities, (k - 1) as nat) + match entities[k - 1] {
            (Some(h), Some(n)) => seq![status_line(n, h)],
            _ => Seq::<Seq<char>>::empty(),
        }
    }
}

/// The lines reported for all entities.
pub open spec fn world_report(entities: Seq<EntityView>) -> Seq<Seq<char>> {
    status_lines(entities, entities.len())
}

impl World {
    /// Every entity has a slot in every column.
    pub closed spec fn wf(&self) -> bool {
        self.health_components.len() == self.name_components.len()
    }

    /// The entities, in order of creation.
    pub closed spec fn entities(&self) -> Seq<EntityView> {
        Seq::new(
            self.health_components.len() as nat,
            |i: int|
                (health_view(self.health_components@[i]), name_view(self.name_components@[i])),
        )
    }

    /// A world without entities.
    pub fn new() -> (w: Self)
        ensures
            w.wf(),
            w.entities() =~= Seq::<EntityView>::empty(),
    {
        World { health_components: Vec::new(), name_components: Vec::new() }
    }

    /// Adds an entity with the given components.
    pub fn new_entity(&mut self, health: Option<Health>, name: Option<Name>)
        requires
            old(self).wf(),
        ensures
            final(self).wf(),
            final(self).entities() =~= old(self).entities().push(
                (health_view(health), name_view(name)),
            ),
    {
        let ghost hv = health_view(health);
        let ghost nv = name_view(name);
        self.health_components.push(health);
        self.name_components.push(name);
        assert(self.entities().last() == (hv, nv));
    }

    /// One line per entity that has both a health and a name, in entity
    /// order: "<name> has perished!" when its health is negative, else
    /// "<name> is still healthy".
    pub fn iterator(&self) -> (lines: Vec<String>)
        requires
            self.wf(),
        ensures
            lines@.map_values(|l: String| l@) =~= world_report(self.entities()),
    {
        let mut lines: Vec<String> = Vec::new();
        let n = self.health_components.len();
        let mut k: usize = 0;
        while k < n
            invariant
                k <= n,
                n == self.health_components.len(),
                self.wf(),
                lines@.map_values(|l: String| l@) =~= status_lines(self.entities(), k as nat),
            decreases n - k,
        {
            let ghost before = lines@.map_values(|l: String| l@);
            let ghost e = self.entities()[k as int];
            match (&self.health_components[k], &self.name_components[k]) {
                (Some(health), Some(name)) => {
                    let mut line = name.0.clone();
                    if health.0 < 0 {
                        line.append(" has perished!");
                    } else {
                        line.append(" is still healthy");
                    }
                    lines.push(line);
                    assert(lines@.map_values(|l: String| l@) =~= before.push(
                        status_line(name.0@, health.0),
                    ));
                },
                _ => {
                    assert(lines@.map_values(|l: String| l@) =~= before);
                },
            }
            k += 1;
        }
        lines
    }
}

/// Builds a world of three entities: Icarus, whose health is not looking
/// good; Prometheus, who is very healthy; and Zeus, who has no health.
pub fn run() {
    let mut world = World::new();
    world.new_entity(Some(Health(-10)), Some(Name("Icarus".to_owned())));
    world.new_entity(Some(Health(100)), Some(Name("Prometheus".to_owned())));
    world.new_entity(None, Some(Name("Zeus".to_owned())));
}

/// Adding an entity with both a health and a name adds exactly its line to
/// the end of the report; adding one that lacks either leaves the report as
/// it was.
pub proof fn lemma_report_after_new_entity(entities: Seq<EntityView>, e: EntityView)
    ensures
        world_report(entities.push(e)) == world_report(entities) + match e {
            (Some(h), Some(n)) => seq![status_line(n, h)],
            _ => Seq::<Seq<char>>::empty(),
        },
{
    lemma_status_lines_prefix(entities, entities.push(e), entities.len());
}

proof fn lemma_status_lines_prefix(a: Seq<EntityView>, b: Seq<EntityView>, k: nat)
    requires
        k <= a.len(),
        k <= b.len(),
        forall|i: int| 0 <= i < k ==> a[i] == b[i],
    ensures
        status_lines(a, k) == status_lines(b, k),
    decreases k,
{
    if k > 0 {
        lemma_status_lines_prefix(a, b, (k - 1) as nat);
    }
}

} // verus!
