//! Routing of solver-reported contact and proximity events back onto entity
//! components.
//!
//! The outside collision pass reports events in terms of its own opaque
//! object handles, typed as rigid body or sensor. This layer resolves every
//! handle to the owning entity through the physics world's tables and records
//! the event on the accumulator components: a contact lands in the Contactor
//! of both sides, with the geometry normal flipped for the second side; a
//! newly-intersecting proximity lands only in the Proximitor of the sensor
//! side.

use vstd::prelude::*;

verus! {

use crate::component::Contact;
use crate::component::Contactor;
use crate::component::Entity;
use crate::component::Proximitor;
use crate::component::Table;
use crate::physics::Body;
use crate::physics::PhysicsWorld;
use crate::physics::Sensor;
use crate::physics::WorldObject;
use crate::vec3::in_bounds;
use crate::vec3::COORD_LIMIT;

/// A contact the collision pass reports between two solver objects.
#[derive(Clone, Copy, PartialEq, Eq, Structural, Debug)]
pub struct ContactEvent {
    pub co1: WorldObject,
    pub co2: WorldObject,
    pub contact: Contact,
}

/// A proximity transition between two solver objects.
#[derive(Clone, Copy, PartialEq, Eq, Structural, Debug)]
pub enum Proximity {
    Intersecting,
    WithinMargin,
    Disjoint,
}

/// A sensor-overlap transition the collision pass reports.
#[derive(Clone, Copy, PartialEq, Eq, Structural, Debug)]
pub struct ProximityEvent {
    pub co1: WorldObject,
    pub co2: WorldObject,
    pub new_status: Proximity,
}

/// The per-entity contact lists a contactor table holds.
pub open spec fn contacts_view(tabs: Seq<Option<Contactor>>) -> Seq<
    Option<Seq<(Entity, Contact)>>,
> {
    Seq::new(tabs.len(), |i: int| match tabs[i] {
        Some(c) => Some(c.contacts@),
        None => None,
    })
}

/// The per-entity intersection lists a proximitor table holds.
pub open spec fn intersections_view(tabs: Seq<Option<Proximitor>>) -> Seq<Option<Seq<Entity>>> {
    Seq::new(tabs.len(), |i: int| match tabs[i] {
        Some(p) => Some(p.intersections@),
        None => None,
    })
}

/// A rigid-body handle resolves to a live body.
pub open spec fn body_resolvable(bodies: Seq<Option<Body>>, h: int) -> bool {
    0 <= h < bodies.len() && bodies[h] is Some
}

/// A sensor handle resolves to a live sensor.
pub open spec fn sensor_resolvable(sensors: Seq<Option<Sensor>>, h: int) -> bool {
    0 <= h < sensors.len() && sensors[h] is Some
}

/// The entity owning a rigid body.
pub open spec fn body_entity(bodies: Seq<Option<Body>>, h: int) -> int {
    bodies[h]->Some_0.entity as int
}

/// The entity owning a sensor.
pub open spec fn sensor_entity(sensors: Seq<Option<Sensor>>, h: int) -> int {
    sensors[h]->Some_0.entity as int
}

/// A contact event is resolvable: both sides are rigid bodies of live
/// entities below `n`, and the geometry is within the model's bounds. A
/// contact whose handles do not resolve would mean the bidirectional
/// entity-handle mapping is broken, which the routing treats as unreachable.
pub open spec fn contact_event_ok(bodies: Seq<Option<Body>>, n: int, ev: ContactEvent) -> bool {
    &&& ev.co1 is RigidBody
    &&& ev.co2 is RigidBody
    &&& body_resolvable(bodies, ev.co1->RigidBody_0 as int)
    &&& body_resolvable(bodies, ev.co2->RigidBody_0 as int)
    &&& 0 <= body_entity(bodies, ev.co1->RigidBody_0 as int) < n
    &&& 0 <= body_entity(bodies, ev.co2->RigidBody_0 as int) < n
    &&& in_bounds(ev.contact.normal, COORD_LIMIT as int)
}

/// The first side's entity of a resolvable contact event.
pub open spec fn contact_e1(bodies: Seq<Option<Body>>, ev: ContactEvent) -> int {
    body_entity(bodies, ev.co1->RigidBody_0 as int)
}

/// The second side's entity of a resolvable contact event.
pub open spec fn contact_e2(bodies: Seq<Option<Body>>, ev: ContactEvent) -> int {
    body_entity(bodies, ev.co2->RigidBody_0 as int)
}

/// Appends an entry to one side's contact list, when that side carries a
/// contactor.
pub open spec fn push_contact(
    v: Seq<Option<Seq<(Entity, Contact)>>>,
    e: int,
    other: int,
    c: Contact,
) -> Seq<Option<Seq<(Entity, Contact)>>> {
    if 0 <= e < v.len() && v[e] is Some {
        v.update(e, Some(v[e]->Some_0.push((other as usize, c))))
    } else {
        v
    }
}

/// One contact recorded on both sides: the first side stores the geometry as
/// reported, the second side stores the flipped geometry.
pub open spec fn route_contact_one(
    v: Seq<Option<Seq<(Entity, Contact)>>>,
    e1: int,
    e2: int,
    c: Contact,
) -> Seq<Option<Seq<(Entity, Contact)>>> {
    push_contact(push_contact(v, e1, e2, c), e2, e1, c.spec_flip())
}

/// The contact lists after a batch of contact events, routed in order.
pub open spec fn route_contacts_spec(
    v: Seq<Option<Seq<(Entity, Contact)>>>,
    bodies: Seq<Option<Body>>,
    events: Seq<ContactEvent>,
) -> Seq<Option<Seq<(Entity, Contact)>>>
    decreases events.len(),
{
    if events.len() == 0 {
        v
    } else {
        let prev = route_contacts_spec(v, bodies, events.drop_last());
        let ev = events.last();
        route_contact_one(prev, contact_e1(bodies, ev), contact_e2(bodies, ev), ev.contact)
    }
}

/// Routing never adds or removes contactor components.
pub proof fn lemma_route_contacts_someness(
    v: Seq<Option<Seq<(Entity, Contact)>>>,
    bodies: Seq<Option<Body>>,
    events: Seq<ContactEvent>,
)
    ensures
        route_contacts_spec(v, bodies, events).len() == v.len(),
        forall|i: int|
            0 <= i < v.len() ==> (#[trigger] route_contacts_spec(v, bodies, events)[i] is Some
                <==> v[i] is Some),
    decreases events.len(),
{
    if events.len() > 0 {
        lemma_route_contacts_someness(v, bodies, events.drop_last());
    }
}

/// An entry stays in a sequence that is pushed onto.
proof fn lemma_push_keeps<A>(s: Seq<A>, x: A, entry: A)
    requires
        s.contains(entry),
    ensures
        s.push(x).contains(entry),
{
    let j = choose|j: int| 0 <= j < s.len() && s[j] == entry;
    assert(s.push(x)[j] == entry);
}

/// A pushed entry is in the result.
proof fn lemma_push_adds<A>(s: Seq<A>, x: A)
    ensures
        s.push(x).contains(x),
{
    assert(s.push(x)[s.len() as int] == x);
}

/// Routing one contact only appends: an entry present in any side's list
/// stays there.
proof fn lemma_route_one_monotone(
    v: Seq<Option<Seq<(Entity, Contact)>>>,
    e1: int,
    e2: int,
    c: Contact,
    i: int,
    entry: (Entity, Contact),
)
    requires
        0 <= i < v.len(),
        v[i] is Some,
        v[i]->Some_0.contains(entry),
    ensures
        route_contact_one(v, e1, e2, c)[i] is Some,
        route_contact_one(v, e1, e2, c)[i]->Some_0.contains(entry),
{
    let mid = push_contact(v, e1, e2, c);
    if i == e1 && 0 <= e1 < v.len() && v[e1] is Some {
        lemma_push_keeps(v[i]->Some_0, (e2 as usize, c), entry);
    }
    if i == e2 && 0 <= e2 < mid.len() && mid[e2] is Some {
        lemma_push_keeps(mid[i]->Some_0, (e1 as usize, c.spec_flip()), entry);
    }
}

/// Routing a batch only appends: an entry present in a side's list stays.
pub proof fn lemma_route_contacts_monotone(
    v: Seq<Option<Seq<(Entity, Contact)>>>,
    bodies: Seq<Option<Body>>,
    events: Seq<ContactEvent>,
    i: int,
    entry: (Entity, Contact),
)
    requires
        0 <= i < v.len(),
        v[i] is Some,
        v[i]->Some_0.contains(entry),
    ensures
        route_contacts_spec(v, bodies, events)[i] is Some,
        route_contacts_spec(v, bodies, events)[i]->Some_0.contains(entry),
    decreases events.len(),
{
    lemma_route_contacts_someness(v, bodies, events);
    if events.len() > 0 {
        lemma_route_contacts_monotone(v, bodies, events.drop_last(), i, entry);
        let prev = route_contacts_spec(v, bodies, events.drop_last());
        lemma_route_contacts_someness(v, bodies, events.drop_last());
        let ev = events.last();
        lemma_route_one_monotone(
            prev,
            contact_e1(bodies, ev),
            contact_e2(bodies, ev),
            ev.contact,
            i,
            entry,
        );
    }
}

/// Contacts are recorded symmetrically: after routing, for every reported
/// contact between resolvable entities that both carry a contactor, the first
/// side's list holds the other entity with the geometry as reported, and the
/// second side's list holds the first entity with the normal-flipped
/// geometry.
pub proof fn lemma_contact_routing_symmetric(
    v: Seq<Option<Seq<(Entity, Contact)>>>,
    bodies: Seq<Option<Body>>,
    events: Seq<ContactEvent>,
    k: int,
)
    requires
        0 <= k < events.len(),
        forall|j: int|
            0 <= j < events.len() ==> contact_event_ok(bodies, v.len() as int, #[trigger] events[j]),
        v[contact_e1(bodies, events[k])] is Some,
        v[contact_e2(bodies, events[k])] is Some,
    ensures
        ({
            let rv = route_contacts_spec(v, bodies, events);
            let e1 = contact_e1(bodies, events[k]);
            let e2 = contact_e2(bodies, events[k]);
            &&& rv[e1] is Some
            &&& rv[e1]->Some_0.contains((e2 as usize, events[k].contact))
            &&& rv[e2] is Some
            &&& rv[e2]->Some_0.contains((e1 as usize, events[k].contact.spec_flip()))
        }),
    decreases events.len(),
{
    let e1 = contact_e1(bodies, events[k]);
    let e2 = contact_e2(bodies, events[k]);
    let c = events[k].contact;
    let prev = route_contacts_spec(v, bodies, events.drop_last());
    lemma_route_contacts_someness(v, bodies, events.drop_last());
    if k == events.len() - 1 {
        let mid = push_contact(prev, e1, e2, c);
        lemma_push_adds(prev[e1]->Some_0, (e2 as usize, c));
        assert(mid[e1]->Some_0.contains((e2 as usize, c)));
        let fin = push_contact(mid, e2, e1, c.spec_flip());
        lemma_push_adds(mid[e2]->Some_0, (e1 as usize, c.spec_flip()));
        assert(fin[e2]->Some_0.contains((e1 as usize, c.spec_flip())));
        if e1 == e2 {
            lemma_push_keeps(mid[e1]->Some_0, (e1 as usize, c.spec_flip()), (e2 as usize, c));
        }
        assert(fin[e1] is Some && fin[e1]->Some_0.contains((e2 as usize, c)));
        assert(route_contacts_spec(v, bodies, events) == fin);
    } else {
        assert(events.drop_last()[k] == events[k]);
        lemma_contact_routing_symmetric(v, bodies, events.drop_last(), k);
        let ev = events.last();
        let le1 = contact_e1(bodies, ev);
        let le2 = contact_e2(bodies, ev);
        lemma_route_one_monotone(prev, le1, le2, ev.contact, e1, (e2 as usize, c));
        lemma_route_one_monotone(prev, le1, le2, ev.contact, e2, (e1 as usize, c.spec_flip()));
    }
}

/// Routes a batch of contact events: each contact is recorded in the
/// Contactor of both resolved entities (where present), the second side with
/// the normal flipped.
pub fn route_contacts(
    events: &Vec<ContactEvent>,
    pw: &PhysicsWorld,
    contactors: &mut Table<Contactor>,
)
    requires
        forall|j: int|
            0 <= j < events@.len() ==> contact_event_ok(
                pw.bodies@,
                old(contactors)@.len() as int,
                #[trigger] events@[j],
            ),
    ensures
        final(contactors)@.len() == old(contactors)@.len(),
        forall|i: int|
            0 <= i < old(contactors)@.len() ==> (#[trigger] final(contactors)@[i] is Some <==> old(
                contactors,
            )@[i] is Some),
        contacts_view(final(contactors)@) == route_contacts_spec(
            contacts_view(old(contactors)@),
            pw.bodies@,
            events@,
        ),
{
    let n_events = events.len();
    let mut k: usize = 0;
    while k < n_events
        invariant
            n_events == events@.len(),
            k <= n_events,
            forall|j: int|
                0 <= j < events@.len() ==> contact_event_ok(
                    pw.bodies@,
                    old(contactors)@.len() as int,
                    #[trigger] events@[j],
                ),
            contactors@.len() == old(contactors)@.len(),
            forall|i: int|
                0 <= i < old(contactors)@.len() ==> (#[trigger] contactors@[i] is Some <==> old(
                    contactors,
                )@[i] is Some),
            contacts_view(contactors@) == route_contacts_spec(
                contacts_view(old(contactors)@),
                pw.bodies@,
                events@.subrange(0, k as int),
            ),
        decreases n_events - k,
    {
        let ev = events[k];
        proof {
            assert(events@.subrange(0, k as int + 1).drop_last() =~= events@.subrange(0, k as int));
            assert(events@.subrange(0, k as int + 1).last() == events@[k as int]);
            assert(contact_event_ok(pw.bodies@, old(contactors)@.len() as int, events@[k as int]));
        }
        let (h1, h2) = match (ev.co1, ev.co2) {
            (WorldObject::RigidBody(a), WorldObject::RigidBody(b)) => (a, b),
            _ => {
                proof {
                    assert(false);
                }
                (0, 0)
            },
        };
        let e1 = pw.rigid_body(h1).entity;
        let e2 = pw.rigid_body(h2).entity;
        let ghost before = contacts_view(contactors@);
        match contactors.take(e1) {
            Some(mut c1) => {
                c1.contacts.push((e2, ev.contact));
                contactors.put(e1, c1);
                proof {
                    assert(contacts_view(contactors@) =~= push_contact(
                        before,
                        e1 as int,
                        e2 as int,
                        ev.contact,
                    ));
                }
            },
            None => {
                proof {
                    assert(contacts_view(contactors@) =~= before);
                    assert(contacts_view(contactors@) =~= push_contact(
                        before,
                        e1 as int,
                        e2 as int,
                        ev.contact,
                    ));
                }
            },
        }
        let ghost mid = contacts_view(contactors@);
        let flipped = ev.contact.flip();
        match contactors.take(e2) {
            Some(mut c2) => {
                c2.contacts.push((e1, flipped));
                contactors.put(e2, c2);
                proof {
                    assert(contacts_view(contactors@) =~= push_contact(
                        mid,
                        e2 as int,
                        e1 as int,
                        ev.contact.spec_flip(),
                    ));
                }
            },
            None => {
                proof {
                    assert(contacts_view(contactors@) =~= mid);
                    assert(contacts_view(contactors@) =~= push_contact(
                        mid,
                        e2 as int,
                        e1 as int,
                        ev.contact.spec_flip(),
                    ));
                }
            },
        }
        k = k + 1;
    }
    proof {
        assert(events@.subrange(0, n_events as int) =~= events@);
    }
}

/// A proximity event applies: it is a newly-intersecting transition between
/// a sensor and a rigid body that both still resolve. Separating transitions
/// and transitions whose objects are gone never apply.
pub open spec fn prox_applies(
    bodies: Seq<Option<Body>>,
    sensors: Seq<Option<Sensor>>,
    ev: ProximityEvent,
) -> bool {
    &&& ev.new_status is Intersecting
    &&& match (ev.co1, ev.co2) {
        (WorldObject::Sensor(w1), WorldObject::RigidBody(w2)) => sensor_resolvable(sensors, w1 as int)
            && body_resolvable(bodies, w2 as int),
        (WorldObject::RigidBody(w1), WorldObject::Sensor(w2)) => body_resolvable(bodies, w1 as int)
            && sensor_resolvable(sensors, w2 as int),
        _ => false,
    }
}

/// The sensor side's entity of an applying proximity event.
pub open spec fn prox_sensor_entity(
    bodies: Seq<Option<Body>>,
    sensors: Seq<Option<Sensor>>,
    ev: ProximityEvent,
) -> int {
    match ev.co1 {
        WorldObject::Sensor(w1) => sensor_entity(sensors, w1 as int),
        WorldObject::RigidBody(_) => sensor_entity(sensors, ev.co2->Sensor_0 as int),
    }
}

/// The rigid-body side's entity of an applying proximity event.
pub open spec fn prox_body_entity(
    bodies: Seq<Option<Body>>,
    sensors: Seq<Option<Sensor>>,
    ev: ProximityEvent,
) -> int {
    match ev.co1 {
        WorldObject::Sensor(_) => body_entity(bodies, ev.co2->RigidBody_0 as int),
        WorldObject::RigidBody(w1) => body_entity(bodies, w1 as int),
    }
}

/// One proximity event recorded: exactly the sensor side's intersection list
/// (where a proximitor is present) gains the rigid-body side's entity; an
/// event that does not apply changes nothing.
pub open spec fn route_proximity_one(
    v: Seq<Option<Seq<Entity>>>,
    bodies: Seq<Option<Body>>,
    sensors: Seq<Option<Sensor>>,
    ev: ProximityEvent,
) -> Seq<Option<Seq<Entity>>> {
    if prox_applies(bodies, sensors, ev) {
        let es = prox_sensor_entity(bodies, sensors, ev);
        let er = prox_body_entity(bodies, sensors, ev);
        if 0 <= es < v.len() && v[es] is Some {
            v.update(es, Some(v[es]->Some_0.push(er as usize)))
        } else {
            v
        }
    } else {
        v
    }
}

/// The intersection lists after a batch of proximity events, routed in order.
pub open spec fn route_proximities_spec(
    v: Seq<Option<Seq<Entity>>>,
    bodies: Seq<Option<Body>>,
    sensors: Seq<Option<Sensor>>,
    events: Seq<ProximityEvent>,
) -> Seq<Option<Seq<Entity>>>
    decreases events.len(),
{
    if events.len() == 0 {
        v
    } else {
        route_proximity_one(
            route_proximities_spec(v, bodies, sensors, events.drop_last()),
            bodies,
            sensors,
            events.last(),
        )
    }
}

/// Proximity routing never adds or removes proximitor components.
pub proof fn lemma_route_proximities_someness(
    v: Seq<Option<Seq<Entity>>>,
    bodies: Seq<Option<Body>>,
    sensors: Seq<Option<Sensor>>,
    events: Seq<ProximityEvent>,
)
    ensures
        route_proximities_spec(v, bodies, sensors, events).len() == v.len(),
        forall|i: int|
            0 <= i < v.len() ==> (#[trigger] route_proximities_spec(v, bodies, sensors, events)[i]
                is Some <==> v[i] is Some),
    decreases events.len(),
{
    if events.len() > 0 {
        lemma_route_proximities_someness(v, bodies, sensors, events.drop_last());
    }
}

/// Proximity routing only appends: an entry present in a side's list stays.
pub proof fn lemma_route_proximities_monotone(
    v: Seq<Option<Seq<Entity>>>,
    bodies: Seq<Option<Body>>,
    sensors: Seq<Option<Sensor>>,
    events: Seq<ProximityEvent>,
    i: int,
    entry: Entity,
)
    requires
        0 <= i < v.len(),
        v[i] is Some,
        v[i]->Some_0.contains(entry),
    ensures
        route_proximities_spec(v, bodies, sensors, events)[i] is Some,
        route_proximities_spec(v, bodies, sensors, events)[i]->Some_0.contains(entry),
    decreases events.len(),
{
    lemma_route_proximities_someness(v, bodies, sensors, events);
    if events.len() > 0 {
        lemma_route_proximities_monotone(v, bodies, sensors, events.drop_last(), i, entry);
        let prev = route_proximities_spec(v, bodies, sensors, events.drop_last());
        lemma_route_proximities_someness(v, bodies, sensors, events.drop_last());
        let ev = events.last();
        if prox_applies(bodies, sensors, ev) {
            let es = prox_sensor_entity(bodies, sensors, ev);
            if i == es && prev[es] is Some {
                lemma_push_keeps(
                    prev[i]->Some_0,
                    prox_body_entity(bodies, sensors, ev) as usize,
                    entry,
                );
            }
        }
    }
}

/// Newly-intersecting proximity events land exactly on the sensor side:
/// after routing, for every applying event whose sensor side carries a
/// proximitor, that proximitor's list holds the rigid-body side's entity.
/// An event that does not apply (a separating transition, a pair that is not
/// sensor-versus-rigid-body, or a stale handle) changes nothing, which
/// [`route_proximity_one`] states by definition.
pub proof fn lemma_proximity_routing(
    v: Seq<Option<Seq<Entity>>>,
    bodies: Seq<Option<Body>>,
    sensors: Seq<Option<Sensor>>,
    events: Seq<ProximityEvent>,
    k: int,
)
    requires
        0 <= k < events.len(),
        prox_applies(bodies, sensors, events[k]),
        0 <= prox_sensor_entity(bodies, sensors, events[k]) < v.len(),
        v[prox_sensor_entity(bodies, sensors, events[k])] is Some,
    ensures
        ({
            let rv = route_proximities_spec(v, bodies, sensors, events);
            let es = prox_sensor_entity(bodies, sensors, events[k]);
            let er = prox_body_entity(bodies, sensors, events[k]);
            &&& rv[es] is Some
            &&& rv[es]->Some_0.contains(er as usize)
        }),
    decreases events.len(),
{
    let es = prox_sensor_entity(bodies, sensors, events[k]);
    let er = prox_body_entity(bodies, sensors, events[k]);
    let prev = route_proximities_spec(v, bodies, sensors, events.drop_last());
    lemma_route_proximities_someness(v, bodies, sensors, events.drop_last());
    if k == events.len() - 1 {
        lemma_push_adds(prev[es]->Some_0, er as usize);
    } else {
        assert(events.drop_last()[k] == events[k]);
        lemma_proximity_routing(v, bodies, sensors, events.drop_last(), k);
        let ev = events.last();
        if prox_applies(bodies, sensors, ev) {
            let les = prox_sensor_entity(bodies, sensors, ev);
            if es == les && prev[les] is Some {
                lemma_push_keeps(
                    prev[es]->Some_0,
                    prox_body_entity(bodies, sensors, ev) as usize,
                    er as usize,
                );
            }
        }
    }
}

/// A routing anomaly: a newly-intersecting transition whose handles no
/// longer resolve or whose pair is not sensor-versus-rigid-body. Such an
/// event means the bidirectional entity-handle mapping was broken somewhere;
/// it is recorded, never silently dropped, and the routing falls back to
/// recording nothing for it.
pub open spec fn prox_anomaly(
    bodies: Seq<Option<Body>>,
    sensors: Seq<Option<Sensor>>,
    ev: ProximityEvent,
) -> bool {
    ev.new_status is Intersecting && !prox_applies(bodies, sensors, ev)
}

/// The anomalies of a batch, in order.
pub open spec fn prox_anomalies(
    bodies: Seq<Option<Body>>,
    sensors: Seq<Option<Sensor>>,
    events: Seq<ProximityEvent>,
) -> Seq<ProximityEvent>
    decreases events.len(),
{
    if events.len() == 0 {
        Seq::empty()
    } else {
        let prev = prox_anomalies(bodies, sensors, events.drop_last());
        if prox_anomaly(bodies, sensors, events.last()) {
            prev.push(events.last())
        } else {
            prev
        }
    }
}

/// Agreeing body tables see the same anomalies.
pub proof fn lemma_prox_anomalies_agree(
    b1: Seq<Option<Body>>,
    b2: Seq<Option<Body>>,
    sensors: Seq<Option<Sensor>>,
    events: Seq<ProximityEvent>,
)
    requires
        bodies_agree(b1, b2),
    ensures
        prox_anomalies(b1, sensors, events) == prox_anomalies(b2, sensors, events),
    decreases events.len(),
{
    if events.len() > 0 {
        lemma_prox_anomalies_agree(b1, b2, sensors, events.drop_last());
        assert(prox_applies(b1, sensors, events.last()) == prox_applies(
            b2,
            sensors,
            events.last(),
        ));
    }
}

/// Routes a batch of proximity events: each newly-intersecting transition
/// between a sensor and a rigid body is recorded in the sensor side's
/// Proximitor (where present); separating transitions add nothing. The same
/// geometry pair may appear with either object in either slot, so the sensor
/// side is resolved by the handle's type, never by its position in the pair.
/// A newly-intersecting event whose handles do not resolve, or whose pair is
/// not sensor-versus-rigid-body, is an invariant violation of the mapping:
/// it is appended to the warning sink and recorded nowhere else.
pub fn route_proximities(
    events: &Vec<ProximityEvent>,
    pw: &PhysicsWorld,
    proximitors: &mut Table<Proximitor>,
    warnings: &mut Vec<ProximityEvent>,
)
    requires
        forall|h: int|
            0 <= h < pw.sensors@.len() && #[trigger] pw.sensors@[h] is Some
                ==> pw.sensors@[h]->Some_0.entity < old(proximitors)@.len(),
    ensures
        final(proximitors)@.len() == old(proximitors)@.len(),
        forall|i: int|
            0 <= i < old(proximitors)@.len() ==> (#[trigger] final(proximitors)@[i] is Some <==> old(
                proximitors,
            )@[i] is Some),
        intersections_view(final(proximitors)@) == route_proximities_spec(
            intersections_view(old(proximitors)@),
            pw.bodies@,
            pw.sensors@,
            events@,
        ),
        final(warnings)@ == old(warnings)@ + prox_anomalies(pw.bodies@, pw.sensors@, events@),
{
    let n_events = events.len();
    let mut k: usize = 0;
    while k < n_events
        invariant
            n_events == events@.len(),
            k <= n_events,
            forall|h: int|
                0 <= h < pw.sensors@.len() && #[trigger] pw.sensors@[h] is Some
                    ==> pw.sensors@[h]->Some_0.entity < old(proximitors)@.len(),
            proximitors@.len() == old(proximitors)@.len(),
            forall|i: int|
                0 <= i < old(proximitors)@.len() ==> (#[trigger] proximitors@[i] is Some <==> old(
                    proximitors,
                )@[i] is Some),
            intersections_view(proximitors@) == route_proximities_spec(
                intersections_view(old(proximitors)@),
                pw.bodies@,
                pw.sensors@,
                events@.subrange(0, k as int),
            ),
            warnings@ == old(warnings)@ + prox_anomalies(
                pw.bodies@,
                pw.sensors@,
                events@.subrange(0, k as int),
            ),
        decreases n_events - k,
    {
        let ev = events[k];
        proof {
            assert(events@.subrange(0, k as int + 1).drop_last() =~= events@.subrange(0, k as int));
            assert(events@.subrange(0, k as int + 1).last() == events@[k as int]);
        }
        let ghost before = intersections_view(proximitors@);
        let applies = matches!(ev.new_status, Proximity::Intersecting);
        if applies {
            let resolved: Option<(Entity, Entity)> = match (ev.co1, ev.co2) {
                (WorldObject::Sensor(w1), WorldObject::RigidBody(w2)) => {
                    if w1 < pw.sensors.len() && pw.sensors.get(w1).is_some() && w2
                        < pw.bodies.len() && pw.bodies.get(w2).is_some() {
                        Some((pw.sensor(w1).entity, pw.rigid_body(w2).entity))
                    } else {
                        None
                    }
                },
                (WorldObject::RigidBody(w1), WorldObject::Sensor(w2)) => {
                    if w1 < pw.bodies.len() && pw.bodies.get(w1).is_some() && w2
                        < pw.sensors.len() && pw.sensors.get(w2).is_some() {
                        Some((pw.sensor(w2).entity, pw.rigid_body(w1).entity))
                    } else {
                        None
                    }
                },
                _ => None,
            };
            match resolved {
                Some((es, er)) => {
                    proof {
                        assert(prox_applies(pw.bodies@, pw.sensors@, ev));
                        assert(es as int == prox_sensor_entity(pw.bodies@, pw.sensors@, ev));
                        assert(er as int == prox_body_entity(pw.bodies@, pw.sensors@, ev));
                    }
                    match proximitors.take(es) {
                        Some(mut p) => {
                            p.intersections.push(er);
                            proximitors.put(es, p);
                            proof {
                                assert(intersections_view(proximitors@) =~= route_proximity_one(
                                    before,
                                    pw.bodies@,
                                    pw.sensors@,
                                    ev,
                                ));
                            }
                        },
                        None => {
                            proof {
                                assert(intersections_view(proximitors@) =~= before);
                                assert(intersections_view(proximitors@) =~= route_proximity_one(
                                    before,
                                    pw.bodies@,
                                    pw.sensors@,
                                    ev,
                                ));
                            }
                        },
                    }
                },
                None => {
                    warnings.push(ev);
                    proof {
                        assert(!prox_applies(pw.bodies@, pw.sensors@, ev));
                        assert(intersections_view(proximitors@) =~= route_proximity_one(
                            before,
                            pw.bodies@,
                            pw.sensors@,
                            ev,
                        ));
                        assert(warnings@ =~= old(warnings)@ + prox_anomalies(
                            pw.bodies@,
                            pw.sensors@,
                            events@.subrange(0, k as int + 1),
                        ));
                    }
                },
            }
        } else {
            proof {
                assert(!prox_applies(pw.bodies@, pw.sensors@, ev));
                assert(intersections_view(proximitors@) =~= route_proximity_one(
                    before,
                    pw.bodies@,
                    pw.sensors@,
                    ev,
                ));
            }
        }
        k = k + 1;
    }
    proof {
        assert(events@.subrange(0, n_events as int) =~= events@);
    }
}

/// Two body tables agree for routing: the same handles resolve, to the same
/// entities.
pub open spec fn bodies_agree(b1: Seq<Option<Body>>, b2: Seq<Option<Body>>) -> bool {
    &&& b1.len() == b2.len()
    &&& forall|h: int| 0 <= h < b1.len() ==> ((#[trigger] b1[h] is Some) <==> b2[h] is Some)
    &&& forall|h: int|
        0 <= h < b1.len() && b1[h] is Some ==> (#[trigger] b1[h])->Some_0.entity
            == b2[h]->Some_0.entity
}

/// Contact routing reads only which handles resolve and to which entities,
/// so two agreeing body tables route a batch identically.
pub proof fn lemma_route_contacts_agree(
    v: Seq<Option<Seq<(Entity, Contact)>>>,
    b1: Seq<Option<Body>>,
    b2: Seq<Option<Body>>,
    events: Seq<ContactEvent>,
)
    requires
        bodies_agree(b1, b2),
        forall|j: int|
            0 <= j < events.len() ==> {
                &&& (#[trigger] events[j]).co1 is RigidBody
                &&& events[j].co2 is RigidBody
                &&& body_resolvable(b1, events[j].co1->RigidBody_0 as int)
                &&& body_resolvable(b1, events[j].co2->RigidBody_0 as int)
            },
    ensures
        route_contacts_spec(v, b1, events) == route_contacts_spec(v, b2, events),
    decreases events.len(),
{
    if events.len() > 0 {
        assert(forall|j: int|
            0 <= j < events.drop_last().len() ==> #[trigger] events.drop_last()[j] == events[j]);
        lemma_route_contacts_agree(v, b1, b2, events.drop_last());
        let ev = events.last();
        assert(ev == events[events.len() - 1]);
        assert(contact_e1(b1, ev) == contact_e1(b2, ev));
        assert(contact_e2(b1, ev) == contact_e2(b2, ev));
    }
}

/// Proximity routing likewise: with the same sensors and agreeing bodies, a
/// batch routes identically.
pub proof fn lemma_route_proximities_agree(
    v: Seq<Option<Seq<Entity>>>,
    b1: Seq<Option<Body>>,
    b2: Seq<Option<Body>>,
    sensors: Seq<Option<Sensor>>,
    events: Seq<ProximityEvent>,
)
    requires
        bodies_agree(b1, b2),
    ensures
        route_proximities_spec(v, b1, sensors, events) == route_proximities_spec(
            v,
            b2,
            sensors,
            events,
        ),
    decreases events.len(),
{
    if events.len() > 0 {
        lemma_route_proximities_agree(v, b1, b2, sensors, events.drop_last());
        let ev = events.last();
        assert(prox_applies(b1, sensors, ev) == prox_applies(b2, sensors, ev));
        if prox_applies(b1, sensors, ev) {
            assert(prox_sensor_entity(b1, sensors, ev) == prox_sensor_entity(b2, sensors, ev));
            assert(prox_body_entity(b1, sensors, ev) == prox_body_entity(b2, sensors, ev));
        }
    }
}

/// Empties every contact accumulator, at the start of a physics pass. The
/// components themselves stay attached.
pub fn clear_contactors(contactors: &mut Table<Contactor>)
    ensures
        final(contactors)@.len() == old(contactors)@.len(),
        forall|i: int|
            0 <= i < old(contactors)@.len() ==> (#[trigger] final(contactors)@[i] is Some <==> old(
                contactors,
            )@[i] is Some),
        forall|i: int|
            0 <= i < old(contactors)@.len() && #[trigger] final(contactors)@[i] is Some
                ==> final(contactors)@[i]->Some_0.contacts@.len() == 0,
{
    let n = contactors.len();
    let mut e: usize = 0;
    while e < n
        invariant
            n == old(contactors)@.len(),
            e <= n,
            contactors@.len() == n,
            forall|i: int|
                0 <= i < n ==> (#[trigger] contactors@[i] is Some <==> old(contactors)@[i] is Some),
            forall|i: int|
                0 <= i < e && #[trigger] contactors@[i] is Some
                    ==> contactors@[i]->Some_0.contacts@.len() == 0,
        decreases n - e,
    {
        match contactors.take(e) {
            Some(_) => {
                contactors.put(e, Contactor::new());
            },
            None => {},
        }
        e = e + 1;
    }
}

/// Empties every proximity accumulator, at the start of a physics pass.
pub fn clear_proximitors(proximitors: &mut Table<Proximitor>)
    ensures
        final(proximitors)@.len() == old(proximitors)@.len(),
        forall|i: int|
            0 <= i < old(proximitors)@.len() ==> (#[trigger] final(proximitors)@[i] is Some <==> old(
                proximitors,
            )@[i] is Some),
        forall|i: int|
            0 <= i < old(proximitors)@.len() && #[trigger] final(proximitors)@[i] is Some
                ==> final(proximitors)@[i]->Some_0.intersections@.len() == 0,
{
    let n = proximitors.len();
    let mut e: usize = 0;
    while e < n
        invariant
            n == old(proximitors)@.len(),
            e <= n,
            proximitors@.len() == n,
            forall|i: int|
                0 <= i < n ==> (#[trigger] proximitors@[i] is Some <==> old(proximitors)@[i]
                    is Some),
            forall|i: int|
                0 <= i < e && #[trigger] proximitors@[i] is Some
                    ==> proximitors@[i]->Some_0.intersections@.len() == 0,
        decreases n - e,
    {
        match proximitors.take(e) {
            Some(_) => {
                proximitors.put(e, Proximitor::new());
            },
            None => {},
        }
        e = e + 1;
    }
}

} // verus!
