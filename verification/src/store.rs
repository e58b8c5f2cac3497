//! Keeping converted records in the exporter's ordered maps.
use std::collections::BTreeMap;

use vstd::prelude::*;

use crate::collect::map_views;
use crate::converters::{
    export_proto_light_cone, export_proto_material, export_proto_relic, relic_convertible,
    spec_export_light_cone, spec_export_material, spec_export_relic,
};
use crate::database::Database;
use crate::models::{views, LightCone, LightConeV, Material, MaterialV, Relic, RelicV};
use crate::proto::{ProtoLightCone, ProtoMaterial, ProtoRelic};
use crate::seqs::{filter_map, insert_all, lemma_filter_map_step, lemma_take_to_set_step};

verus! {

/// [`spec_export_relic`] for a fixed database.
pub open spec fn relic_fn(db: &Database) -> spec_fn(ProtoRelic) -> Option<RelicV> {
    |p: ProtoRelic| spec_export_relic(db, p)
}

/// [`spec_export_light_cone`] for a fixed database.
pub open spec fn light_cone_fn(db: &Database) -> spec_fn(ProtoLightCone) -> Option<LightConeV> {
    |p: ProtoLightCone| spec_export_light_cone(db, p)
}

/// [`spec_export_material`] for a fixed database.
pub open spec fn material_fn(db: &Database) -> spec_fn(ProtoMaterial) -> Option<MaterialV> {
    |p: ProtoMaterial| spec_export_material(db, p)
}

/// Relics are stored under their unique id.
pub open spec fn relic_key() -> spec_fn(RelicV) -> u32 {
    |r: RelicV| r.uid
}

/// Light cones are stored under their unique id.
pub open spec fn light_cone_key() -> spec_fn(LightConeV) -> u32 {
    |l: LightConeV| l.uid
}

/// Materials are stored under their item id.
pub open spec fn material_key() -> spec_fn(MaterialV) -> u32 {
    |m: MaterialV| m.id
}

/// Every relic of `list` can be converted without failing.
pub open spec fn relics_convertible(db: &Database, list: Seq<ProtoRelic>) -> bool {
    forall|i: int| 0 <= i < list.len() ==> relic_convertible(db, #[trigger] list[i])
}

proof fn lemma_insert_all_push<V>(m: Map<u32, V>, s: Seq<V>, key: spec_fn(V) -> u32, x: V)
    ensures
        insert_all(m, s.push(x), key) == insert_all(m, s, key).insert(key(x), x),
{
    assert(s.push(x).drop_last() =~= s);
}

proof fn lemma_views_insert<V: View>(m: Map<u32, V>, k: u32, v: V)
    ensures
        map_views(m.insert(k, v)) == map_views(m).insert(k, v@),
{
    assert(map_views(m.insert(k, v)) =~= map_views(m).insert(k, v@));
}

/// Converts the relics of `list` and stores each under its unique id, in
/// order; returns the converted relics.
pub fn store_relics(db: &Database, m: &mut BTreeMap<u32, Relic>, list: &Vec<ProtoRelic>) -> (added:
    Vec<Relic>)
    requires
        relics_convertible(db, list@),
    ensures
        views(added@) == filter_map(list@, relic_fn(db)),
        map_views(final(m)@) == insert_all(
            map_views(old(m)@),
            filter_map(list@, relic_fn(db)),
            relic_key(),
        ),
{
    let ghost f = relic_fn(db);
    let mut added: Vec<Relic> = Vec::new();
    let mut i: usize = 0;
    while i < list.len()
        invariant
            i <= list@.len(),
            f == relic_fn(db),
            relics_convertible(db, list@),
            views(added@) == filter_map(list@.take(i as int), f),
            map_views(m@) == insert_all(
                map_views(old(m)@),
                filter_map(list@.take(i as int), f),
                relic_key(),
            ),
        decreases list.len() - i,
    {
        proof {
            lemma_filter_map_step(list@, f, i as int);
        }
        match export_proto_relic(db, &list[i]) {
            Some(r) => {
                proof {
                    lemma_insert_all_push(
                        map_views(old(m)@),
                        filter_map(list@.take(i as int), f),
                        relic_key(),
                        r@,
                    );
                    lemma_views_insert(m@, r._uid, r);
                }
                m.insert(r._uid, r.clone());
                added.push(r);
                assert(views(added@) =~= filter_map(list@.take(i as int), f).push(r@));
            },
            None => {},
        }
        i = i + 1;
    }
    assert(list@.take(list@.len() as int) =~= list@);
    added
}

/// Converts the light cones of `list` and stores each under its unique id,
/// in order; returns the converted light cones.
pub fn store_light_cones(
    db: &Database,
    m: &mut BTreeMap<u32, LightCone>,
    list: &Vec<ProtoLightCone>,
) -> (added: Vec<LightCone>)
    ensures
        views(added@) == filter_map(list@, light_cone_fn(db)),
        map_views(final(m)@) == insert_all(
            map_views(old(m)@),
            filter_map(list@, light_cone_fn(db)),
            light_cone_key(),
        ),
{
    let ghost f = light_cone_fn(db);
    let mut added: Vec<LightCone> = Vec::new();
    let mut i: usize = 0;
    while i < list.len()
        invariant
            i <= list@.len(),
            f == light_cone_fn(db),
            views(added@) == filter_map(list@.take(i as int), f),
            map_views(m@) == insert_all(
                map_views(old(m)@),
                filter_map(list@.take(i as int), f),
                light_cone_key(),
            ),
        decreases list.len() - i,
    {
        proof {
            lemma_filter_map_step(list@, f, i as int);
        }
        match export_proto_light_cone(db, &list[i]) {
            Some(r) => {
                proof {
                    lemma_insert_all_push(
                        map_views(old(m)@),
                        filter_map(list@.take(i as int), f),
                        light_cone_key(),
                        r@,
                    );
                    lemma_views_insert(m@, r._uid, r);
                }
                m.insert(r._uid, r.clone());
                added.push(r);
                assert(views(added@) =~= filter_map(list@.take(i as int), f).push(r@));
            },
            None => {},
        }
        i = i + 1;
    }
    assert(list@.take(list@.len() as int) =~= list@);
    added
}

/// Converts the materials of `list` and stores each under its item id, in
/// order; returns the converted materials.
pub fn store_materials(
    db: &Database,
    m: &mut BTreeMap<u32, Material>,
    list: &Vec<ProtoMaterial>,
) -> (added: Vec<Material>)
    ensures
        views(added@) == filter_map(list@, material_fn(db)),
        map_views(final(m)@) == insert_all(
            map_views(old(m)@),
            filter_map(list@, material_fn(db)),
            material_key(),
        ),
{
    let ghost f = material_fn(db);
    let mut added: Vec<Material> = Vec::new();
    let mut i: usize = 0;
    while i < list.len()
        invariant
            i <= list@.len(),
            f == material_fn(db),
            views(added@) == filter_map(list@.take(i as int), f),
            map_views(m@) == insert_all(
                map_views(old(m)@),
                filter_map(list@.take(i as int), f),
                material_key(),
            ),
        decreases list.len() - i,
    {
        proof {
            lemma_filter_map_step(list@, f, i as int);
        }
        match export_proto_material(db, &list[i]) {
            Some(r) => {
                proof {
                    lemma_insert_all_push(
                        map_views(old(m)@),
                        filter_map(list@.take(i as int), f),
                        material_key(),
                        r@,
                    );
                    lemma_views_insert(m@, r.id, r);
                }
                m.insert(r.id, r.clone());
                added.push(r);
                assert(views(added@) =~= filter_map(list@.take(i as int), f).push(r@));
            },
            None => {},
        }
        i = i + 1;
    }
    assert(list@.take(list@.len() as int) =~= list@);
    added
}

/// Removes each key of `ids` from `m`.
pub fn remove_keys<V: View>(m: &mut BTreeMap<u32, V>, ids: &Vec<u32>)
    ensures
        map_views(final(m)@) == map_views(old(m)@).remove_keys(ids@.to_set()),
{
    let mut i: usize = 0;
    while i < ids.len()
        invariant
            i <= ids@.len(),
            map_views(m@) == map_views(old(m)@).remove_keys(ids@.take(i as int).to_set()),
        decreases ids.len() - i,
    {
        let ghost before = m@;
        m.remove(&ids[i]);
        proof {
            lemma_take_to_set_step(ids@, i as int);
            assert(map_views(m@) =~= map_views(before).remove(ids@[i as int]));
            assert(map_views(m@) =~= map_views(old(m)@).remove_keys(ids@.take(i + 1).to_set()));
        }
        i = i + 1;
    }
    assert(ids@.take(ids@.len() as int) =~= ids@);
}

} // verus!
