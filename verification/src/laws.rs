//! Laws of the exporter that span its handlers: how initialization gates
//! the live events, what a new login does, and what an incremental update
//! removes.
use vstd::prelude::*;

use crate::command::{spec_handle_command, spec_read_command};
use crate::database::Database;
use crate::exporter::{empty_state, spec_export, spec_is_empty, spec_is_finishable, ExporterState};
use crate::order::{ascending, key_order, law_key_order_is_ascending};
use crate::handlers::{
    proto_characters_view, spec_handle_token, spec_ingest_characters, spec_ingest_multipaths,
    spec_player_sync, spec_sync_deletions, spec_sync_funds, spec_sync_items,
};
use crate::models::OptimizerEventV;
use crate::proto::GetBagScRsp;
use crate::seqs::{filter_map, insert_all};
use crate::handlers::spec_handle_inventory;
use crate::converters::{spec_export_light_cone, spec_export_relic};
use crate::proto::{GameCommand, MultiPathAvatarInfo, PlayerGetTokenScRsp, PlayerSyncScNotify};
use crate::proto::ProtoCharacterV;

verus! {

/// `a` and `b` agree on everything but the characters and what belongs to
/// them.
pub open spec fn same_apart_from_characters(a: ExporterState, b: ExporterState) -> bool {
    &&& a.initialized == b.initialized
    &&& a.uid == b.uid
    &&& a.banners == b.banners
    &&& a.gacha == b.gacha
    &&& a.materials == b.materials
    &&& a.light_cones == b.light_cones
    &&& a.relics == b.relics
}

proof fn lemma_ingest_characters_frame(db: &Database, st: ExporterState, s: Seq<ProtoCharacterV>)
    ensures
        same_apart_from_characters(spec_ingest_characters(db, st, s).0, st),
    decreases s.len(),
{
    if s.len() > 0 {
        lemma_ingest_characters_frame(db, st, s.drop_last());
    }
}

proof fn lemma_ingest_multipaths_frame(db: &Database, st: ExporterState, s: Seq<MultiPathAvatarInfo>)
    ensures
        same_apart_from_characters(spec_ingest_multipaths(db, st, s).0, st),
    decreases s.len(),
{
    if s.len() > 0 {
        lemma_ingest_multipaths_frame(db, st, s.drop_last());
    }
}

proof fn lemma_handle_keeps_initialized(db: &Database, st: ExporterState, cmd: GameCommand)
    requires
        !(cmd is PlayerGetToken),
    ensures
        spec_handle_command(db, st, cmd).0.initialized == st.initialized,
{
    match cmd {
        GameCommand::GetAvatarData(Some(d)) => {
            let (st1, _) = spec_ingest_characters(db, st, proto_characters_view(d.avatar_list@));
            lemma_ingest_characters_frame(db, st, proto_characters_view(d.avatar_list@));
            lemma_ingest_multipaths_frame(db, st1, d.multi_path_avatar_info_list@);
        },
        GameCommand::PlayerSync(Some(s)) => {
            lemma_player_sync_frame(db, st, s);
        },
        _ => {},
    }
}

/// The state an incremental update reaches before its characters are
/// ingested.
pub open spec fn sync_before_characters(db: &Database, st: ExporterState, s: PlayerSyncScNotify) -> ExporterState {
    let (st1, _) = spec_sync_items(db, st, s);
    let (st2, _) = spec_sync_funds(st1, s);
    spec_sync_deletions(st2, s).0
}

proof fn lemma_player_sync_frame(db: &Database, st: ExporterState, s: PlayerSyncScNotify)
    ensures
        same_apart_from_characters(spec_player_sync(db, st, s).0, sync_before_characters(db, st, s)),
{
    let st3 = sync_before_characters(db, st, s);
    let st_a = match s.avatar_sync {
        Some(list) => spec_ingest_characters(db, st3, proto_characters_view(list@)).0,
        None => st3,
    };
    match s.avatar_sync {
        Some(list) => lemma_ingest_characters_frame(db, st3, proto_characters_view(list@)),
        None => {},
    }
    lemma_ingest_multipaths_frame(db, st_a, s.multi_path_avatar_info_list@);
}

/// Initialization law: after reading a command the exporter is initialized
/// exactly when it was before and the command is not a token reply (which
/// starts a new session), or when the new state holds all that an export
/// needs.
pub proof fn law_initialized_exactly_when(db: &Database, st: ExporterState, cmd: GameCommand)
    ensures
        spec_read_command(db, st, cmd).0.initialized == ((st.initialized && !(cmd is PlayerGetToken))
            || spec_is_finishable(spec_read_command(db, st, cmd).0)),
{
    match cmd {
        GameCommand::PlayerGetToken(_) => {},
        _ => lemma_handle_keeps_initialized(db, st, cmd),
    }
}

/// Once initialization has finished it stays finished: every command but a
/// token reply (which starts a new session) leaves the exporter initialized.
pub proof fn law_initialization_is_kept(db: &Database, st: ExporterState, cmd: GameCommand)
    requires
        st.initialized,
        !(cmd is PlayerGetToken),
    ensures
        spec_read_command(db, st, cmd).0.initialized,
{
    lemma_handle_keeps_initialized(db, st, cmd);
}

/// Before initialization has finished no live event is passed on; the
/// command that finishes it reports exactly one event, the initial scan,
/// which carries the export of the new state.
pub proof fn law_events_wait_for_initialization(db: &Database, st: ExporterState, cmd: GameCommand)
    ensures
        !spec_read_command(db, st, cmd).0.initialized ==> spec_read_command(db, st, cmd).1.len() == 0,
        !spec_handle_command(db, st, cmd).0.initialized && spec_read_command(db, st, cmd).0.initialized
            ==> {
            &&& spec_export(spec_read_command(db, st, cmd).0) is Some
            &&& spec_read_command(db, st, cmd).1 == seq![
                OptimizerEventV::InitialScan(spec_export(spec_read_command(db, st, cmd).0).unwrap()),
            ]
        },
{
    let st1 = spec_handle_command(db, st, cmd).0;
    let st2 = ExporterState { initialized: true, ..st1 };
    assert(spec_export(st2) == spec_export(st1));
    assert(Seq::<OptimizerEventV>::empty().push(
        OptimizerEventV::InitialScan(spec_export(st1).unwrap()),
    ) =~= seq![OptimizerEventV::InitialScan(spec_export(st1).unwrap())]);
}

/// A token reply starts a new session: everything recorded before is
/// dropped, the account id of the reply is recorded, and nothing is
/// reported.
pub proof fn law_token_starts_over(db: &Database, st: ExporterState, token: PlayerGetTokenScRsp)
    ensures
        spec_read_command(db, st, GameCommand::PlayerGetToken(Some(token))).0 == spec_handle_token(
            empty_state(),
            token,
        ),
        spec_read_command(db, st, GameCommand::PlayerGetToken(Some(token))).1.len() == 0,
{
}

/// After an incremental update, no relic and no light cone that it lists as
/// deleted is stored any more.
pub proof fn law_sync_deletes(db: &Database, st: ExporterState, s: PlayerSyncScNotify)
    ensures
        forall|i: int|
            0 <= i < s.del_relic_list@.len() ==> !spec_player_sync(db, st, s).0.relics.contains_key(
                #[trigger] s.del_relic_list@[i],
            ),
        forall|i: int|
            0 <= i < s.del_equipment_list@.len() ==> !spec_player_sync(
                db,
                st,
                s,
            ).0.light_cones.contains_key(#[trigger] s.del_equipment_list@[i]),
{
    lemma_player_sync_frame(db, st, s);
    assert forall|i: int| 0 <= i < s.del_relic_list@.len() implies s.del_relic_list@.to_set().contains(
        #[trigger] s.del_relic_list@[i],
    ) by {}
    assert forall|i: int| 0 <= i < s.del_equipment_list@.len() implies s.del_equipment_list@.to_set().contains(
        #[trigger] s.del_equipment_list@[i],
    ) by {}
}

/// An initialized exporter knows its account: every command keeps the
/// account id of an initialized exporter, and initialization only finishes
/// once the account id is known.
pub proof fn law_initialized_has_account(db: &Database, st: ExporterState, cmd: GameCommand)
    requires
        st.initialized ==> st.uid is Some,
    ensures
        spec_read_command(db, st, cmd).0.initialized ==> spec_read_command(db, st, cmd).0.uid is Some,
{
    match cmd {
        GameCommand::PlayerGetToken(_) => {},
        _ => {
            lemma_handle_keeps_initialized(db, st, cmd);
            lemma_handle_keeps_uid(db, st, cmd);
        },
    }
}

proof fn lemma_handle_keeps_uid(db: &Database, st: ExporterState, cmd: GameCommand)
    requires
        !(cmd is PlayerGetToken),
    ensures
        spec_handle_command(db, st, cmd).0.uid == st.uid,
{
    match cmd {
        GameCommand::GetAvatarData(Some(d)) => {
            let (st1, _) = spec_ingest_characters(db, st, proto_characters_view(d.avatar_list@));
            lemma_ingest_characters_frame(db, st, proto_characters_view(d.avatar_list@));
            lemma_ingest_multipaths_frame(db, st1, d.multi_path_avatar_info_list@);
        },
        GameCommand::PlayerSync(Some(s)) => {
            lemma_player_sync_frame(db, st, s);
        },
        _ => {},
    }
}

/// `out` lists the values of `m` once each, in strictly ascending order of
/// their keys.
pub open spec fn lists_in_key_order<V>(out: Seq<V>, m: Map<u32, V>) -> bool {
    &&& ascending(key_order(m.dom()))
    &&& key_order(m.dom()).to_set() == m.dom()
    &&& out.len() == m.dom().len()
    &&& forall|i: int| 0 <= i < out.len() ==> out[i] == m[#[trigger] key_order(m.dom())[i]]
}

proof fn lemma_in_key_order_lists<V>(m: Map<u32, V>)
    requires
        m.dom().finite(),
    ensures
        lists_in_key_order(crate::order::in_key_order(m), m),
{
    law_key_order_is_ascending(m.dom());
}

/// Export law: when something was recorded, the export lists every stored
/// material, light cone and relic exactly once, in strictly ascending order
/// of its key, then the characters in ascending id order followed by the
/// multi-path characters in ascending id order; when nothing was recorded
/// there is no export.
pub proof fn law_export_lists_items_in_key_order(st: ExporterState)
    requires
        st.materials.dom().finite(),
        st.light_cones.dom().finite(),
        st.relics.dom().finite(),
        st.characters.dom().finite(),
        st.multipath_characters.dom().finite(),
    ensures
        spec_is_empty(st) <==> spec_export(st) is None,
        spec_export(st) matches Some(e) ==> {
            &&& lists_in_key_order(e.materials, st.materials)
            &&& lists_in_key_order(e.light_cones, st.light_cones)
            &&& lists_in_key_order(e.relics, st.relics)
            &&& lists_in_key_order(
                e.characters.subrange(0, st.characters.dom().len() as int),
                st.characters,
            )
            &&& lists_in_key_order(
                e.characters.subrange(st.characters.dom().len() as int, e.characters.len() as int),
                st.multipath_characters,
            )
        },
{
    lemma_in_key_order_lists(st.materials);
    lemma_in_key_order_lists(st.light_cones);
    lemma_in_key_order_lists(st.relics);
    lemma_in_key_order_lists(st.characters);
    lemma_in_key_order_lists(st.multipath_characters);
    if let Some(e) = spec_export(st) {
        let a = crate::order::in_key_order(st.characters);
        let b = crate::order::in_key_order(st.multipath_characters);
        assert(e.characters == a + b);
        assert(e.characters.subrange(0, a.len() as int) =~= a);
        assert(e.characters.subrange(a.len() as int, e.characters.len() as int) =~= b);
    }
}

proof fn lemma_filter_map_keeps<A, B>(s: Seq<A>, f: spec_fn(A) -> Option<B>, i: int)
    requires
        0 <= i < s.len(),
        f(s[i]) is Some,
    ensures
        filter_map(s, f).contains(f(s[i]).unwrap()),
    decreases s.len(),
{
    let prev = filter_map(s.drop_last(), f);
    if i < s.len() - 1 {
        assert(s.drop_last()[i] == s[i]);
        lemma_filter_map_keeps(s.drop_last(), f, i);
        let k = choose|k: int| 0 <= k < prev.len() && prev[k] == f(s[i]).unwrap();
        match f(s.last()) {
            Some(b) => assert(prev.push(b)[k] == f(s[i]).unwrap()),
            None => {},
        }
    } else {
        let b = f(s.last()).unwrap();
        assert(prev.push(b)[prev.len() as int] == b);
    }
}

proof fn lemma_insert_all_keys<V>(m: Map<u32, V>, s: Seq<V>, key: spec_fn(V) -> u32)
    ensures
        forall|j: int| 0 <= j < s.len() ==> insert_all(m, s, key).contains_key(#[trigger] key(s[j])),
    decreases s.len(),
{
    if s.len() > 0 {
        let t = s.drop_last();
        lemma_insert_all_keys(m, t, key);
        assert forall|j: int| 0 <= j < s.len() implies insert_all(m, s, key).contains_key(#[trigger] key(s[j])) by {
            if j < t.len() {
                assert(t[j] == s[j]);
                assert(insert_all(m, t, key).contains_key(key(t[j])));
            }
        }
    }
}

proof fn lemma_insert_all_other<V>(m: Map<u32, V>, s: Seq<V>, key: spec_fn(V) -> u32, k: u32)
    requires
        forall|j: int| 0 <= j < s.len() ==> #[trigger] key(s[j]) != k,
    ensures
        insert_all(m, s, key).contains_key(k) == m.contains_key(k),
        m.contains_key(k) ==> insert_all(m, s, key)[k] == m[k],
    decreases s.len(),
{
    if s.len() > 0 {
        let t = s.drop_last();
        assert forall|j: int| 0 <= j < t.len() implies #[trigger] key(t[j]) != k by {
            assert(t[j] == s[j]);
        }
        lemma_insert_all_other(m, t, key, k);
        assert(key(s[s.len() - 1]) != k);
    }
}

/// Inventory law: after an inventory reply, every relic and light cone of
/// the reply that converts is stored under its unique id, and every relic
/// or light cone whose id the reply does not mention is kept as it was.
pub proof fn law_inventory_stores_what_converts(db: &Database, st: ExporterState, bag: GetBagScRsp)
    ensures
        forall|i: int|
            0 <= i < bag.relic_list@.len() && spec_export_relic(db, #[trigger] bag.relic_list@[i]) is Some
                ==> spec_handle_inventory(db, st, bag).relics.contains_key(bag.relic_list@[i].unique_id),
        forall|i: int|
            0 <= i < bag.equipment_list@.len() && spec_export_light_cone(db, #[trigger] bag.equipment_list@[i])
                is Some ==> spec_handle_inventory(db, st, bag).light_cones.contains_key(
                bag.equipment_list@[i].unique_id,
            ),
        forall|k: u32|
            #![trigger st.relics.contains_key(k)]
            (forall|i: int| 0 <= i < bag.relic_list@.len() ==> (#[trigger] bag.relic_list@[i]).unique_id != k)
                && st.relics.contains_key(k) ==> spec_handle_inventory(db, st, bag).relics.contains_key(k)
                && spec_handle_inventory(db, st, bag).relics[k] == st.relics[k],
{
    let rs = filter_map(bag.relic_list@, crate::store::relic_fn(db));
    let ls = filter_map(bag.equipment_list@, crate::store::light_cone_fn(db));
    lemma_insert_all_keys(st.relics, rs, crate::store::relic_key());
    lemma_insert_all_keys(st.light_cones, ls, crate::store::light_cone_key());
    assert forall|i: int|
        0 <= i < bag.relic_list@.len() && spec_export_relic(db, #[trigger] bag.relic_list@[i]) is Some implies
        spec_handle_inventory(db, st, bag).relics.contains_key(bag.relic_list@[i].unique_id) by {
        lemma_filter_map_keeps(bag.relic_list@, crate::store::relic_fn(db), i);
        let r = spec_export_relic(db, bag.relic_list@[i]).unwrap();
        let j = choose|j: int| 0 <= j < rs.len() && rs[j] == r;
        assert(crate::store::relic_key()(rs[j]) == bag.relic_list@[i].unique_id);
    }
    assert forall|i: int|
        0 <= i < bag.equipment_list@.len() && spec_export_light_cone(db, #[trigger] bag.equipment_list@[i])
            is Some implies spec_handle_inventory(db, st, bag).light_cones.contains_key(
        bag.equipment_list@[i].unique_id,
    ) by {
        lemma_filter_map_keeps(bag.equipment_list@, crate::store::light_cone_fn(db), i);
        let l = spec_export_light_cone(db, bag.equipment_list@[i]).unwrap();
        let j = choose|j: int| 0 <= j < ls.len() && ls[j] == l;
        assert(crate::store::light_cone_key()(ls[j]) == bag.equipment_list@[i].unique_id);
    }
    assert forall|k: u32|
        #![trigger st.relics.contains_key(k)]
        (forall|i: int| 0 <= i < bag.relic_list@.len() ==> (#[trigger] bag.relic_list@[i]).unique_id != k)
            && st.relics.contains_key(k) implies spec_handle_inventory(db, st, bag).relics.contains_key(k)
            && spec_handle_inventory(db, st, bag).relics[k] == st.relics[k] by {
        assert forall|j: int| 0 <= j < rs.len() implies #[trigger] crate::store::relic_key()(rs[j]) != k by {
            lemma_filter_map_origin(bag.relic_list@, crate::store::relic_fn(db), j);
            let i = choose|i: int| 0 <= i < bag.relic_list@.len() && crate::store::relic_fn(db)(bag.relic_list@[i])
                == Some(rs[j]);
            assert(bag.relic_list@[i].unique_id != k);
        }
        lemma_insert_all_other(st.relics, rs, crate::store::relic_key(), k);
        assert(spec_handle_inventory(db, st, bag).relics == insert_all(st.relics, rs, crate::store::relic_key()));
    }
}

proof fn lemma_filter_map_origin<A, B>(s: Seq<A>, f: spec_fn(A) -> Option<B>, j: int)
    requires
        0 <= j < filter_map(s, f).len(),
    ensures
        exists|i: int| 0 <= i < s.len() && f(s[i]) == Some(filter_map(s, f)[j]),
    decreases s.len(),
{
    let prev = filter_map(s.drop_last(), f);
    if j < prev.len() {
        lemma_filter_map_origin(s.drop_last(), f, j);
        let i = choose|i: int| 0 <= i < s.drop_last().len() && f(s.drop_last()[i]) == Some(prev[j]);
        assert(s[i] == s.drop_last()[i]);
        match f(s.last()) {
            Some(b) => assert(prev.push(b)[j] == prev[j]),
            None => {},
        }
    } else {
        assert(f(s[s.len() - 1]) == Some(filter_map(s, f)[j]));
    }
}

} // verus!
