use crate::entity::Entity;
use bimap::BiHashMap;
use vstd::prelude::*;

verus! {

/// `bimap::BiHashMap`, carried as a value that nothing here looks into.
#[verifier::external_type_specification]
#[verifier::external_body]
#[verifier::reject_recursive_types(L)]
#[verifier::reject_recursive_types(R)]
#[verifier::reject_recursive_types(LS)]
#[verifier::reject_recursive_types(RS)]
pub struct ExBiHashMap<L, R, LS, RS>(bimap::BiHashMap<L, R, LS, RS>);

/// The left-right pairs that a `bimap::BiHashMap` holds. Nothing is assumed
/// of them but what the functions below state of each call.
pub uninterp spec fn bimap_pairs(map: BiHashMap<u64, u64>) -> Set<(u64, u64)>;

/// What an insertion displaced from the registry: the pairs, target first,
/// that held the inserted target or the inserted proxy before.
#[derive(Clone, Copy, Debug, PartialEq, Eq)]
pub enum Overwritten {
    /// Neither side was registered.
    Neither,
    /// The target was registered, with another proxy; the proxy was free.
    Left(Entity, Entity),
    /// The proxy was registered, with another target; the target was free.
    Right(Entity, Entity),
    /// The very pair was registered already.
    Pair(Entity, Entity),
    /// Both sides were registered, in two different pairs: first the pair of
    /// the target, then the pair of the proxy.
    Both((Entity, Entity), (Entity, Entity)),
}

/// Some pair of `pairs` has `target` on its target side.
pub open spec fn has_target(pairs: Set<(Entity, Entity)>, target: Entity) -> bool {
    exists|proxy: Entity| pairs.contains((target, proxy))
}

/// Some pair of `pairs` has `proxy` on its proxy side.
pub open spec fn has_proxy(pairs: Set<(Entity, Entity)>, proxy: Entity) -> bool {
    exists|target: Entity| pairs.contains((target, proxy))
}

/// The proxy that `pairs` gives to `target`, where it has one.
pub open spec fn proxy_of(pairs: Set<(Entity, Entity)>, target: Entity) -> Entity {
    choose|proxy: Entity| pairs.contains((target, proxy))
}

/// The target that `pairs` gives to `proxy`, where it has one.
pub open spec fn target_of(pairs: Set<(Entity, Entity)>, proxy: Entity) -> Entity {
    choose|target: Entity| pairs.contains((target, proxy))
}

/// No target occurs in two pairs and no proxy occurs in two pairs.
pub open spec fn is_bijective(pairs: Set<(Entity, Entity)>) -> bool {
    forall|a: (Entity, Entity), b: (Entity, Entity)|
        pairs.contains(a) && pairs.contains(b) ==> (a.0 == b.0 <==> a.1 == b.1)
}

/// `pairs` once `(target, proxy)` is registered: every pair that shares a side
/// with the new one is gone, and the new one is there.
pub open spec fn registered(pairs: Set<(Entity, Entity)>, target: Entity, proxy: Entity) -> Set<
    (Entity, Entity),
> {
    Set::new(
        |q: (Entity, Entity)|
            (pairs.contains(q) && q.0 != target && q.1 != proxy) || q == (target, proxy),
    )
}

/// What registering `(target, proxy)` displaces from `pairs`.
pub open spec fn displaced(pairs: Set<(Entity, Entity)>, target: Entity, proxy: Entity)
    -> Overwritten {
    if pairs.contains((target, proxy)) {
        Overwritten::Pair(target, proxy)
    } else if has_target(pairs, target) && has_proxy(pairs, proxy) {
        Overwritten::Both((target, proxy_of(pairs, target)), (target_of(pairs, proxy), proxy))
    } else if has_target(pairs, target) {
        Overwritten::Left(target, proxy_of(pairs, target))
    } else if has_proxy(pairs, proxy) {
        Overwritten::Right(target_of(pairs, proxy), proxy)
    } else {
        Overwritten::Neither
    }
}

/// The pairs of identities that stand for the given pairs of raw bits.
pub open spec fn entity_pairs(raw: Set<(u64, u64)>) -> Set<(Entity, Entity)> {
    Set::new(|q: (Entity, Entity)| raw.contains((q.0.bits, q.1.bits)))
}

/// How the result of `BiHashMap::insert` relates to the pairs held before.
pub open spec fn insert_reports(raw: Set<(u64, u64)>, left: u64, right: u64, o: Overwritten)
    -> bool {
    match o {
        Overwritten::Neither => forall|q: (u64, u64)|
            raw.contains(q) ==> q.0 != left && q.1 != right,
        Overwritten::Left(a, b) => {
            &&& a.bits == left
            &&& b.bits != right
            &&& raw.contains((left, b.bits))
            &&& forall|q: (u64, u64)| raw.contains(q) ==> q.1 != right
        },
        Overwritten::Right(a, b) => {
            &&& b.bits == right
            &&& raw.contains((a.bits, right))
            &&& forall|q: (u64, u64)| raw.contains(q) ==> q.0 != left
        },
        Overwritten::Pair(a, b) => {
            &&& a.bits == left
            &&& b.bits == right
            &&& raw.contains((left, right))
        },
        Overwritten::Both(x, y) => {
            &&& x.0.bits == left
            &&& y.1.bits == right
            &&& x.1.bits != right
            &&& y.0.bits != left
            &&& raw.contains((left, x.1.bits))
            &&& raw.contains((y.0.bits, right))
        },
    }
}

/// `BiHashMap::new`: the new map holds no pair.
#[verifier::external_body]
fn bimap_new() -> (map: BiHashMap<u64, u64>)
    ensures
        bimap_pairs(map) == Set::<(u64, u64)>::empty(),
{
    BiHashMap::new()
}

/// `BiHashMap::contains_left`: whether some pair has `left` as its left value.
#[verifier::external_body]
fn bimap_contains_left(map: &BiHashMap<u64, u64>, left: u64) -> (found: bool)
    ensures
        found == (exists|right: u64| bimap_pairs(*map).contains((left, right))),
{
    map.contains_left(&left)
}

/// `BiHashMap::contains_right`: whether some pair has `right` as its right
/// value.
#[verifier::external_body]
fn bimap_contains_right(map: &BiHashMap<u64, u64>, right: u64) -> (found: bool)
    ensures
        found == (exists|left: u64| bimap_pairs(*map).contains((left, right))),
{
    map.contains_right(&right)
}

/// `BiHashMap::get_by_left`: the right value of a pair whose left value is
/// `left`, or `None` where no pair has it.
#[verifier::external_body]
fn bimap_get_by_left(map: &BiHashMap<u64, u64>, left: u64) -> (found: Option<u64>)
    ensures
        match found {
            Some(right) => bimap_pairs(*map).contains((left, right)),
            None => forall|right: u64| !bimap_pairs(*map).contains((left, right)),
        },
{
    map.get_by_left(&left).copied()
}

/// `BiHashMap::get_by_right`: the left value of a pair whose right value is
/// `right`, or `None` where no pair has it.
#[verifier::external_body]
fn bimap_get_by_right(map: &BiHashMap<u64, u64>, right: u64) -> (found: Option<u64>)
    ensures
        match found {
            Some(left) => bimap_pairs(*map).contains((left, right)),
            None => forall|left: u64| !bimap_pairs(*map).contains((left, right)),
        },
{
    map.get_by_right(&right).copied()
}

/// `BiHashMap::remove_by_left`: a pair whose left value is `left` leaves the
/// map and is returned; where no pair has it, the map stays as it was.
#[verifier::external_body]
fn bimap_remove_by_left(map: &mut BiHashMap<u64, u64>, left: u64) -> (removed: Option<(u64, u64)>)
    ensures
        match removed {
            Some(pair) => {
                &&& pair.0 == left
                &&& bimap_pairs(*old(map)).contains(pair)
                &&& bimap_pairs(*final(map)) == bimap_pairs(*old(map)).remove(pair)
            },
            None => {
                &&& forall|right: u64| !bimap_pairs(*old(map)).contains((left, right))
                &&& bimap_pairs(*final(map)) == bimap_pairs(*old(map))
            },
        },
{
    map.remove_by_left(&left)
}

/// `BiHashMap::remove_by_right`: a pair whose right value is `right` leaves
/// the map and is returned; where no pair has it, the map stays as it was.
#[verifier::external_body]
fn bimap_remove_by_right(map: &mut BiHashMap<u64, u64>, right: u64) -> (removed: Option<
    (u64, u64),
>)
    ensures
        match removed {
            Some(pair) => {
                &&& pair.1 == right
                &&& bimap_pairs(*old(map)).contains(pair)
                &&& bimap_pairs(*final(map)) == bimap_pairs(*old(map)).remove(pair)
            },
            None => {
                &&& forall|left: u64| !bimap_pairs(*old(map)).contains((left, right))
                &&& bimap_pairs(*final(map)) == bimap_pairs(*old(map))
            },
        },
{
    map.remove_by_right(&right)
}

/// `BiHashMap::insert`: the pairs that held `left` or `right` leave the map,
/// `(left, right)` enters it, and the result names the pairs that left.
#[verifier::external_body]
fn bimap_insert(map: &mut BiHashMap<u64, u64>, left: u64, right: u64) -> (o: Overwritten)
    ensures
        insert_reports(bimap_pairs(*old(map)), left, right, o),
        bimap_pairs(*final(map)) == Set::new(
            |q: (u64, u64)|
                (bimap_pairs(*old(map)).contains(q) && q.0 != left && q.1 != right) || q == (
                    left,
                    right,
                ),
        ),
{
    match map.insert(left, right) {
        bimap::Overwritten::Neither => Overwritten::Neither,
        bimap::Overwritten::Left(a, b) => Overwritten::Left(Entity { bits: a }, Entity { bits: b }),
        bimap::Overwritten::Right(a, b) => Overwritten::Right(Entity { bits: a }, Entity { bits: b }),
        bimap::Overwritten::Pair(a, b) => Overwritten::Pair(Entity { bits: a }, Entity { bits: b }),
        bimap::Overwritten::Both(x, y) => Overwritten::Both(
            (Entity { bits: x.0 }, Entity { bits: x.1 }),
            (Entity { bits: y.0 }, Entity { bits: y.1 }),
        ),
    }
}

/// The registry of associations: pairs of a target and the proxy that stands
/// for it, found from either side.
pub struct ProxyUiEntityMap {
    map: BiHashMap<u64, u64>,
}

impl View for ProxyUiEntityMap {
    type V = Set<(Entity, Entity)>;

    /// The registered pairs, target first.
    closed spec fn view(&self) -> Set<(Entity, Entity)> {
        entity_pairs(bimap_pairs(self.map))
    }
}

proof fn lemma_has_target(raw: Set<(u64, u64)>, target: Entity)
    ensures
        has_target(entity_pairs(raw), target) <==> exists|right: u64|
            raw.contains((target.bits, right)),
{
    if has_target(entity_pairs(raw), target) {
        let p = choose|p: Entity| entity_pairs(raw).contains((target, p));
        assert(raw.contains((target.bits, p.bits)));
    }
    if exists|right: u64| raw.contains((target.bits, right)) {
        let r = choose|right: u64| raw.contains((target.bits, right));
        assert(entity_pairs(raw).contains((target, Entity { bits: r })));
    }
}

proof fn lemma_has_proxy(raw: Set<(u64, u64)>, proxy: Entity)
    ensures
        has_proxy(entity_pairs(raw), proxy) <==> exists|left: u64|
            raw.contains((left, proxy.bits)),
{
    if has_proxy(entity_pairs(raw), proxy) {
        let t = choose|t: Entity| entity_pairs(raw).contains((t, proxy));
        assert(raw.contains((t.bits, proxy.bits)));
    }
    if exists|left: u64| raw.contains((left, proxy.bits)) {
        let l = choose|left: u64| raw.contains((left, proxy.bits));
        assert(entity_pairs(raw).contains((Entity { bits: l }, proxy)));
    }
}

impl ProxyUiEntityMap {
    /// The invariant of the registry: its pairs form a bijection.
    pub open spec fn wf(&self) -> bool {
        is_bijective(self@)
    }

    /// An empty registry.
    pub fn new() -> (registry: ProxyUiEntityMap)
        ensures
            registry.wf(),
            registry@ == Set::<(Entity, Entity)>::empty(),
    {
        let registry = ProxyUiEntityMap { map: bimap_new() };
        assert(registry@ =~= Set::<(Entity, Entity)>::empty());
        registry
    }

    /// Whether the target is registered.
    pub fn is_proxied(&self, proxy_target_entity: &Entity) -> (found: bool)
        ensures
            found == has_target(self@, *proxy_target_entity),
    {
        proof {
            lemma_has_target(bimap_pairs(self.map), *proxy_target_entity);
        }
        bimap_contains_left(&self.map, proxy_target_entity.bits)
    }

    /// Whether the proxy is registered.
    pub fn contains_proxy(&self, proxy_ui_entity: &Entity) -> (found: bool)
        ensures
            found == has_proxy(self@, *proxy_ui_entity),
    {
        proof {
            lemma_has_proxy(bimap_pairs(self.map), *proxy_ui_entity);
        }
        bimap_contains_right(&self.map, proxy_ui_entity.bits)
    }

    /// The target that the proxy is registered with.
    pub fn get_proxied_target_entity(&self, proxy_ui_entity: &Entity) -> (found: Option<Entity>)
        ensures
            match found {
                Some(target) => self@.contains((target, *proxy_ui_entity)),
                None => !has_proxy(self@, *proxy_ui_entity),
            },
            self.wf() && has_proxy(self@, *proxy_ui_entity) ==> found == Some(
                target_of(self@, *proxy_ui_entity),
            ),
    {
        proof {
            lemma_has_proxy(bimap_pairs(self.map), *proxy_ui_entity);
        }
        match bimap_get_by_right(&self.map, proxy_ui_entity.bits) {
            Some(left) => {
                let target = Entity { bits: left };
                assert(self@.contains((target, *proxy_ui_entity)));
                assert(self@.contains((target_of(self@, *proxy_ui_entity), *proxy_ui_entity)));
                Some(target)
            },
            None => None,
        }
    }

    /// The proxy that the target is registered with.
    pub fn get_proxy_entity(&self, proxied_target_entity: &Entity) -> (found: Option<Entity>)
        ensures
            match found {
                Some(proxy) => self@.contains((*proxied_target_entity, proxy)),
                None => !has_target(self@, *proxied_target_entity),
            },
            self.wf() && has_target(self@, *proxied_target_entity) ==> found == Some(
                proxy_of(self@, *proxied_target_entity),
            ),
    {
        proof {
            lemma_has_target(bimap_pairs(self.map), *proxied_target_entity);
        }
        match bimap_get_by_left(&self.map, proxied_target_entity.bits) {
            Some(right) => {
                let proxy = Entity { bits: right };
                assert(self@.contains((*proxied_target_entity, proxy)));
                assert(self@.contains(
                    (*proxied_target_entity, proxy_of(self@, *proxied_target_entity)),
                ));
                Some(proxy)
            },
            None => None,
        }
    }

    /// Takes the pair of the target out of the registry and returns it.
    pub fn remove_by_proxied_target_entity(&mut self, proxied_target_entity: &Entity) -> (removed:
        Option<(Entity, Entity)>)
        requires
            old(self).wf(),
        ensures
            final(self).wf(),
            match removed {
                Some(pair) => {
                    &&& pair.0 == *proxied_target_entity
                    &&& old(self)@.contains(pair)
                    &&& final(self)@ == old(self)@.remove(pair)
                },
                None => {
                    &&& !has_target(old(self)@, *proxied_target_entity)
                    &&& final(self)@ == old(self)@
                },
            },
    {
        proof {
            lemma_has_target(bimap_pairs(self.map), *proxied_target_entity);
        }
        match bimap_remove_by_left(&mut self.map, proxied_target_entity.bits) {
            Some(raw) => {
                let pair = (Entity { bits: raw.0 }, Entity { bits: raw.1 });
                assert(self@ =~= old(self)@.remove(pair));
                Some(pair)
            },
            None => None,
        }
    }

    /// Takes the pair of the proxy out of the registry and returns it.
    pub fn remove_by_proxy_entity(&mut self, proxy_ui_entity: &Entity) -> (removed: Option<
        (Entity, Entity),
    >)
        requires
            old(self).wf(),
        ensures
            final(self).wf(),
            match removed {
                Some(pair) => {
                    &&& pair.1 == *proxy_ui_entity
                    &&& old(self)@.contains(pair)
                    &&& final(self)@ == old(self)@.remove(pair)
                },
                None => {
                    &&& !has_proxy(old(self)@, *proxy_ui_entity)
                    &&& final(self)@ == old(self)@
                },
            },
    {
        proof {
            lemma_has_proxy(bimap_pairs(self.map), *proxy_ui_entity);
        }
        match bimap_remove_by_right(&mut self.map, proxy_ui_entity.bits) {
            Some(raw) => {
                let pair = (Entity { bits: raw.0 }, Entity { bits: raw.1 });
                assert(self@ =~= old(self)@.remove(pair));
                Some(pair)
            },
            None => None,
        }
    }

    /// Registers `(target, proxy)`. A pair that held either side before is
    /// evicted, and the result names what was evicted.
    pub fn insert(&mut self, proxied_target_entity: Entity, proxy_ui_entity: Entity) -> (o:
        Overwritten)
        requires
            old(self).wf(),
        ensures
            final(self).wf(),
            final(self)@ == registered(old(self)@, proxied_target_entity, proxy_ui_entity),
            final(self)@.contains((proxied_target_entity, proxy_ui_entity)),
            o == displaced(old(self)@, proxied_target_entity, proxy_ui_entity),
    {
        let ghost before = self@;
        let ghost raw = bimap_pairs(self.map);
        let o = bimap_insert(&mut self.map, proxied_target_entity.bits, proxy_ui_entity.bits);
        proof {
            let t = proxied_target_entity;
            let p = proxy_ui_entity;
            assert(self@ =~= registered(before, t, p));
            lemma_has_target(raw, t);
            lemma_has_proxy(raw, p);
            match o {
                Overwritten::Neither => {
                    assert(!before.contains((t, p)));
                },
                Overwritten::Left(a, b) => {
                    assert(before.contains((t, b)));
                    assert(before.contains((t, proxy_of(before, t))));
                    assert(!has_proxy(before, p));
                },
                Overwritten::Right(a, b) => {
                    assert(before.contains((a, p)));
                    assert(before.contains((target_of(before, p), p)));
                    assert(!has_target(before, t));
                },
                Overwritten::Pair(a, b) => {
                    assert(before.contains((t, p)));
                },
                Overwritten::Both(x, y) => {
                    assert(before.contains((t, x.1)));
                    assert(before.contains((y.0, p)));
                    assert(before.contains((t, proxy_of(before, t))));
                    assert(before.contains((target_of(before, p), p)));
                    assert(!before.contains((t, p)));
                },
            }
        }
        o
    }
}

/// The registry that a run of registrations builds from an empty one, each
/// call given as its target and its proxy.
pub open spec fn register_all(calls: Seq<(Entity, Entity)>) -> Set<(Entity, Entity)>
    decreases calls.len(),
{
    if calls.len() == 0 {
        Set::empty()
    } else {
        registered(register_all(calls.drop_last()), calls.last().0, calls.last().1)
    }
}

/// Registering a pair keeps a bijection a bijection: the new pair is there,
/// every pair that shared a side with it is gone, and every other pair stays.
pub proof fn lemma_registered_is_bijective(
    pairs: Set<(Entity, Entity)>,
    target: Entity,
    proxy: Entity,
)
    requires
        is_bijective(pairs),
    ensures
        is_bijective(registered(pairs, target, proxy)),
        registered(pairs, target, proxy).contains((target, proxy)),
        proxy_of(registered(pairs, target, proxy), target) == proxy,
        target_of(registered(pairs, target, proxy), proxy) == target,
        forall|q: (Entity, Entity)|
            q.0 != target && q.1 != proxy ==> (registered(pairs, target, proxy).contains(q)
                <==> pairs.contains(q)),
        forall|q: (Entity, Entity)|
            #[trigger] registered(pairs, target, proxy).contains(q) && (q.0 == target || q.1
                == proxy) ==> q == (target, proxy),
{
    let after = registered(pairs, target, proxy);
    assert(after.contains((target, proxy)));
    assert(after.contains((target, proxy_of(after, target))));
    assert(after.contains((target_of(after, proxy), proxy)));
}

/// Whatever registrations are made, in whatever order, no target ends up with
/// two proxies and no proxy with two targets.
pub proof fn lemma_register_all_is_bijective(calls: Seq<(Entity, Entity)>)
    ensures
        is_bijective(register_all(calls)),
    decreases calls.len(),
{
    if calls.len() > 0 {
        lemma_register_all_is_bijective(calls.drop_last());
        lemma_registered_is_bijective(
            register_all(calls.drop_last()),
            calls.last().0,
            calls.last().1,
        );
    }
}

/// In a bijection a registered pair is found from either side: the proxy of
/// its target is its proxy, and the target of its proxy is its target.
pub proof fn lemma_round_trip(pairs: Set<(Entity, Entity)>, target: Entity, proxy: Entity)
    requires
        is_bijective(pairs),
        pairs.contains((target, proxy)),
    ensures
        proxy_of(pairs, target) == proxy,
        target_of(pairs, proxy) == target,
        target_of(pairs, proxy_of(pairs, target)) == target,
{
    assert(pairs.contains((target, proxy_of(pairs, target))));
    assert(pairs.contains((target_of(pairs, proxy), proxy)));
}

impl Default for ProxyUiEntityMap {
    /// An empty registry.
    fn default() -> (registry: ProxyUiEntityMap)
        ensures
            registry.wf(),
            registry@ == Set::<(Entity, Entity)>::empty(),
    {
        ProxyUiEntityMap::new()
    }
}

} // verus!
