//! Banners and the pity counters of pull sessions.
use vstd::prelude::*;

use crate::database::Database;
use crate::exporter::{ExporterState, OptimizerExporter};
use crate::models::{BannerInfo, BannerInfoV, BannerType, GachaResult, GachaResultV, PityUpdate};
use crate::proto::{DoGachaScRsp, GachaInfo, GachaItem, GetGachaInfoScRsp};
use crate::text::str_eq;

verus! {

/// The standard (permanent) banner's id.
pub const STANDARD_BANNER_ID: u32 = 1001;

/// The kind of a banner: the standard banner by its id; otherwise a light
/// cone banner when its first prize is a light cone, else a character banner.
pub open spec fn spec_banner_type(db: &Database, g: GachaInfo) -> BannerType {
    if g.gacha_id == STANDARD_BANNER_ID {
        BannerType::Standard
    } else if db.equipment_config@.contains_key(g.prize_item_list@[0]) {
        BannerType::LightCone
    } else {
        BannerType::Character
    }
}

/// What is recorded of a banner.
pub open spec fn banner_of(db: &Database, g: GachaInfo) -> BannerInfoV {
    BannerInfoV { rate_up_item_list: g.item_detail_list@, banner_type: spec_banner_type(db, g) }
}

/// Banners recorded in order; a later banner replaces one with the same id.
pub open spec fn record_banners(db: &Database, m: Map<u32, BannerInfoV>, s: Seq<GachaInfo>) -> Map<
    u32,
    BannerInfoV,
>
    decreases s.len(),
{
    if s.len() == 0 {
        m
    } else {
        record_banners(db, m, s.drop_last()).insert(s.last().gacha_id, banner_of(db, s.last()))
    }
}

/// Every banner other than the standard one lists a prize.
pub open spec fn banners_classifiable(s: Seq<GachaInfo>) -> bool {
    forall|i: int|
        0 <= i < s.len() && (#[trigger] s[i]).gacha_id != STANDARD_BANNER_ID
            ==> s[i].prize_item_list@.len() > 0
}

/// A gacha info reply records each banner.
pub open spec fn spec_handle_gacha_info(db: &Database, st: ExporterState, info: GetGachaInfoScRsp) -> ExporterState {
    ExporterState { banners: record_banners(db, st.banners, info.gacha_info_list@), ..st }
}

/// The grade of a pulled item: light cones by their rarity (3 to 5),
/// characters by theirs (4 or 5); absent for unknown items or rarities.
pub open spec fn item_grade(db: &Database, id: u32) -> Option<u32> {
    if db.equipment_config@.contains_key(id) {
        let r = db.equipment_config@[id].rarity@;
        if r == "CombatPowerLightconeRarity5"@ {
            Some(5)
        } else if r == "CombatPowerLightconeRarity4"@ {
            Some(4)
        } else if r == "CombatPowerLightconeRarity3"@ {
            Some(3)
        } else {
            None
        }
    } else if db.avatar_config@.contains_key(id) {
        let r = db.avatar_config@[id].rarity@;
        if r == "CombatPowerAvatarRarityType5"@ {
            Some(5)
        } else if r == "CombatPowerAvatarRarityType4"@ {
            Some(4)
        } else {
            None
        }
    } else {
        None
    }
}

/// The pity counters after one more pull of `grade`: a 5-star resets the
/// 5-star counter and counts for the 4-star one, a 4-star the other way
/// round, anything else counts for both. A reset records whether the next
/// drop of that grade is guaranteed: when the pulled item was not on rate-up.
pub open spec fn pity_step(p: (PityUpdate, PityUpdate), grade: u32, rate_up: bool) -> (
    PityUpdate,
    PityUpdate,
) {
    let reset = PityUpdate::ResetPity { amount: 0, set_guarantee: !rate_up };
    if grade == 5 {
        (p.0.incremented(), reset)
    } else if grade == 4 {
        (reset, p.1.incremented())
    } else {
        (p.0.incremented(), p.1.incremented())
    }
}

/// The pity counters after pulling the items of `s` in order, starting from
/// no change.
pub open spec fn pity_after(db: &Database, rate_up: Seq<u32>, s: Seq<GachaItem>) -> (
    PityUpdate,
    PityUpdate,
)
    decreases s.len(),
{
    if s.len() == 0 {
        (PityUpdate::AddPity { amount: 0 }, PityUpdate::AddPity { amount: 0 })
    } else {
        let id = s.last().item_id;
        pity_step(
            pity_after(db, rate_up, s.drop_last()),
            item_grade(db, id).unwrap(),
            rate_up.contains(id),
        )
    }
}

/// Every pulled item has a known grade, and the session is short enough for
/// the counters.
pub open spec fn pulls_gradable(db: &Database, s: Seq<GachaItem>) -> bool {
    &&& s.len() < u32::MAX
    &&& forall|i: int| 0 <= i < s.len() ==> item_grade(db, (#[trigger] s[i]).item_id) is Some
}

/// The result of a pull session on a recorded banner; none for an unknown
/// banner.
pub open spec fn spec_handle_gacha(st: ExporterState, db: &Database, g: DoGachaScRsp) -> Option<
    GachaResultV,
> {
    if st.banners.contains_key(g.gacha_id) {
        let banner = st.banners[g.gacha_id];
        let (p4, p5) = pity_after(db, banner.rate_up_item_list, g.gacha_item_list@);
        Some(GachaResultV {
            banner_id: g.gacha_id,
            banner_type: banner.banner_type,
            pity_4: p4,
            pity_5: p5,
            pull_results: g.gacha_item_list@.map_values(|it: GachaItem| it.item_id),
        })
    } else {
        None
    }
}

/// A pull session on a recorded banner can be evaluated.
pub open spec fn gacha_evaluable(st: ExporterState, db: &Database, g: DoGachaScRsp) -> bool {
    st.banners.contains_key(g.gacha_id) ==> pulls_gradable(db, g.gacha_item_list@)
}

proof fn lemma_pity_amounts_bounded(db: &Database, rate_up: Seq<u32>, s: Seq<GachaItem>)
    ensures
        pity_after(db, rate_up, s).0.amount() <= s.len(),
        pity_after(db, rate_up, s).1.amount() <= s.len(),
    decreases s.len(),
{
    if s.len() > 0 {
        lemma_pity_amounts_bounded(db, rate_up, s.drop_last());
    }
}

/// The index of the last item of `s` whose grade is `grade`, if any.
pub open spec fn last_of_grade(db: &Database, s: Seq<GachaItem>, grade: u32) -> Option<int>
    decreases s.len(),
{
    if s.len() == 0 {
        None
    } else if item_grade(db, s.last().item_id) == Some(grade) {
        Some(s.len() - 1)
    } else {
        last_of_grade(db, s.drop_last(), grade)
    }
}

/// The counter of `grade` after a session, stated directly: reset at the
/// last drop of that grade and raised by the pulls after it, with the
/// guarantee set when that drop was off rate-up; raised by every pull when
/// no such drop happened.
pub open spec fn pity_since_last(db: &Database, rate_up: Seq<u32>, s: Seq<GachaItem>, grade: u32) -> PityUpdate {
    match last_of_grade(db, s, grade) {
        Some(k) => PityUpdate::ResetPity {
            amount: (s.len() - 1 - k) as u32,
            set_guarantee: !rate_up.contains(s[k].item_id),
        },
        None => PityUpdate::AddPity { amount: s.len() as u32 },
    }
}

proof fn lemma_last_of_grade_bounds(db: &Database, s: Seq<GachaItem>, grade: u32)
    ensures
        last_of_grade(db, s, grade) matches Some(k) ==> 0 <= k < s.len() && item_grade(
            db,
            s[k].item_id,
        ) == Some(grade),
    decreases s.len(),
{
    if s.len() > 0 {
        lemma_last_of_grade_bounds(db, s.drop_last(), grade);
    }
}

/// Pity counting law: after a pull session whose items all have a known
/// grade, the 5-star counter is reset at the last 5-star pulled and counts
/// the pulls after it (the guarantee is set when that 5-star was not on
/// rate-up), or counts every pull when no 5-star came; the 4-star counter
/// behaves the same way for 4-star pulls.
pub proof fn law_pity_counts_since_last_drop(db: &Database, rate_up: Seq<u32>, s: Seq<GachaItem>)
    requires
        pulls_gradable(db, s),
    ensures
        pity_after(db, rate_up, s).1 == pity_since_last(db, rate_up, s, 5),
        pity_after(db, rate_up, s).0 == pity_since_last(db, rate_up, s, 4),
    decreases s.len(),
{
    if s.len() > 0 {
        let t = s.drop_last();
        assert(pulls_gradable(db, t)) by {
            assert forall|i: int| 0 <= i < t.len() implies item_grade(db, (#[trigger] t[i]).item_id) is Some by {
                assert(t[i] == s[i]);
            }
        }
        law_pity_counts_since_last_drop(db, rate_up, t);
        lemma_last_of_grade_bounds(db, t, 5);
        lemma_last_of_grade_bounds(db, t, 4);
        assert(item_grade(db, s[s.len() - 1].item_id) is Some);
        if let Some(k) = last_of_grade(db, t, 5) {
            assert(s[k] == t[k]);
        }
        if let Some(k) = last_of_grade(db, t, 4) {
            assert(s[k] == t[k]);
        }
    }
}

fn contains_u32(v: &Vec<u32>, x: u32) -> (r: bool)
    ensures
        r == v@.contains(x),
{
    let mut i: usize = 0;
    while i < v.len()
        invariant
            i <= v@.len(),
            forall|j: int| 0 <= j < i ==> v@[j] != x,
        decreases v.len() - i,
    {
        if v[i] == x {
            assert(v@[i as int] == x);
            return true;
        }
        i = i + 1;
    }
    false
}

/// Grade law: a configured light cone has grade 5, 4 or 3 exactly when its
/// rarity is "CombatPowerLightconeRarity5", "...4" or "...3", and no grade
/// otherwise; any other configured character has grade 5 or 4 exactly when
/// its rarity is "CombatPowerAvatarRarityType5" or "...4", and no grade
/// otherwise; an item configured as neither has no grade.
pub proof fn law_grade_follows_rarity(db: &Database, id: u32)
    ensures
        db.equipment_config@.contains_key(id) ==> {
            let r = db.equipment_config@[id].rarity@;
            &&& (item_grade(db, id) == Some(5u32) <==> r == "CombatPowerLightconeRarity5"@)
            &&& (item_grade(db, id) == Some(4u32) <==> r == "CombatPowerLightconeRarity4"@)
            &&& (item_grade(db, id) == Some(3u32) <==> r == "CombatPowerLightconeRarity3"@)
            &&& (item_grade(db, id) is None <==> (r != "CombatPowerLightconeRarity5"@
                && r != "CombatPowerLightconeRarity4"@ && r != "CombatPowerLightconeRarity3"@))
        },
        !db.equipment_config@.contains_key(id) && db.avatar_config@.contains_key(id) ==> {
            let r = db.avatar_config@[id].rarity@;
            &&& (item_grade(db, id) == Some(5u32) <==> r == "CombatPowerAvatarRarityType5"@)
            &&& (item_grade(db, id) == Some(4u32) <==> r == "CombatPowerAvatarRarityType4"@)
            &&& (item_grade(db, id) is None <==> (r != "CombatPowerAvatarRarityType5"@
                && r != "CombatPowerAvatarRarityType4"@))
        },
        !db.equipment_config@.contains_key(id) && !db.avatar_config@.contains_key(id) ==> item_grade(db, id)
            is None,
{
    reveal_strlit("CombatPowerLightconeRarity5");
    reveal_strlit("CombatPowerLightconeRarity4");
    reveal_strlit("CombatPowerLightconeRarity3");
    reveal_strlit("CombatPowerAvatarRarityType5");
    reveal_strlit("CombatPowerAvatarRarityType4");
    if db.equipment_config@.contains_key(id) {
        let r = db.equipment_config@[id].rarity@;
        if r == "CombatPowerLightconeRarity4"@ {
            assert(r[26] == '4');
        } else if r == "CombatPowerLightconeRarity3"@ {
            assert(r[26] == '3');
        }
    } else if db.avatar_config@.contains_key(id) {
        let r = db.avatar_config@[id].rarity@;
        if r == "CombatPowerAvatarRarityType4"@ {
            assert(r[27] == '4');
        }
    }
}

/// Pity law of one pull: a 4-star resets the 4-star counter (recording a
/// guarantee when it was not on rate-up) and counts one more pull for the
/// 5-star counter; a 5-star the other way round; a 3-star counts one more
/// pull for both.
pub proof fn law_one_pull_moves_pity_by_grade(p: (PityUpdate, PityUpdate), grade: u32, rate_up: bool)
    ensures
        grade == 4 ==> pity_step(p, grade, rate_up) == (
            PityUpdate::ResetPity { amount: 0, set_guarantee: !rate_up },
            p.1.incremented(),
        ),
        grade == 5 ==> pity_step(p, grade, rate_up) == (
            p.0.incremented(),
            PityUpdate::ResetPity { amount: 0, set_guarantee: !rate_up },
        ),
        grade == 3 ==> pity_step(p, grade, rate_up) == (p.0.incremented(), p.1.incremented()),
{
}

/// The grade of a pulled item, if it is known.
pub fn grade_of(db: &Database, item_id: u32) -> (r: Option<u32>)
    ensures
        r == item_grade(db, item_id),
{
    match db.equipment_config.get(&item_id) {
        Some(lc) => {
            let r = lc.rarity.as_str();
            if str_eq(r, "CombatPowerLightconeRarity5") {
                Some(5)
            } else if str_eq(r, "CombatPowerLightconeRarity4") {
                Some(4)
            } else if str_eq(r, "CombatPowerLightconeRarity3") {
                Some(3)
            } else {
                None
            }
        },
        None => match db.avatar_config.get(&item_id) {
            Some(av) => {
                let r = av.rarity.as_str();
                if str_eq(r, "CombatPowerAvatarRarityType5") {
                    Some(5)
                } else if str_eq(r, "CombatPowerAvatarRarityType4") {
                    Some(4)
                } else {
                    None
                }
            },
            None => None,
        },
    }
}

impl OptimizerExporter {
    fn is_lightcone(&self, item_id: u32) -> (r: bool)
        ensures
            r == self.database.equipment_config@.contains_key(item_id),
    {
        self.database.equipment_config.get(&item_id).is_some()
    }

    /// Records the banners of a gacha info reply.
    pub fn handle_gacha_info(&mut self, gacha_info: GetGachaInfoScRsp)
        requires
            banners_classifiable(gacha_info.gacha_info_list@),
        ensures
            final(self)@ == spec_handle_gacha_info(old(self).database, old(self)@, gacha_info),
            final(self).database == old(self).database,
            old(self).wf() ==> final(self).wf(),
    {
        let ghost db = self.database;
        let ghost st0 = self@;
        let list = &gacha_info.gacha_info_list;
        let mut i: usize = 0;
        while i < list.len()
            invariant
                i <= list@.len(),
                self.database == db,
                db == old(self).database,
                st0 == old(self)@,
                banners_classifiable(list@),
                self@ == (ExporterState {
                    banners: record_banners(db, st0.banners, list@.take(i as int)),
                    ..st0
                }),
            decreases list.len() - i,
        {
            let banner = &list[i];
            let banner_type = if banner.gacha_id == STANDARD_BANNER_ID {
                BannerType::Standard
            } else {
                assert(list@[i as int].prize_item_list@.len() > 0);
                if self.is_lightcone(banner.prize_item_list[0]) {
                    BannerType::LightCone
                } else {
                    BannerType::Character
                }
            };
            let rate_up = banner.item_detail_list.clone();
            assert(rate_up@ =~= banner.item_detail_list@);
            let ghost before = self@;
            self.banners.insert(
                banner.gacha_id,
                BannerInfo { rate_up_item_list: rate_up, banner_type },
            );
            proof {
                assert(list@.take(i + 1).drop_last() =~= list@.take(i as int));
                assert(self@ =~= ExporterState {
                    banners: record_banners(db, st0.banners, list@.take(i + 1)),
                    ..st0
                });
            }
            i = i + 1;
        }
        assert(list@.take(list@.len() as int) =~= list@);
    }

    /// Evaluates a pull session on a recorded banner: the pulled items and
    /// how the 4-star and 5-star pity counters changed.
    pub fn handle_gacha(&self, gacha: DoGachaScRsp) -> (r: Option<GachaResult>)
        requires
            gacha_evaluable(self@, self.database, gacha),
        ensures
            match r {
                Some(x) => spec_handle_gacha(self@, self.database, gacha) == Some(x@),
                None => spec_handle_gacha(self@, self.database, gacha) is None,
            },
    {
        let banner = match self.banners.get(&gacha.gacha_id) {
            Some(b) => b,
            None => {
                proof {
                    assert(crate::collect::map_views(self.banners@).dom() =~= self.banners@.dom());
                }
                return None;
            },
        };
        proof {
            assert(crate::collect::map_views(self.banners@).dom() =~= self.banners@.dom());
        }
        let ghost db = self.database;
        let ghost rate_up = banner.rate_up_item_list@;
        let ghost items = gacha.gacha_item_list@;
        let mut result = GachaResult {
            banner_id: gacha.gacha_id,
            banner_type: banner.banner_type,
            pity_4: PityUpdate::AddPity { amount: 0 },
            pity_5: PityUpdate::AddPity { amount: 0 },
            pull_results: Vec::new(),
        };
        let mut i: usize = 0;
        while i < gacha.gacha_item_list.len()
            invariant
                i <= items.len(),
                items == gacha.gacha_item_list@,
                db == self.database,
                pulls_gradable(db, items),
                rate_up == banner.rate_up_item_list@,
                (result.pity_4, result.pity_5) == pity_after(db, rate_up, items.take(i as int)),
                result.pull_results@ == items.take(i as int).map_values(|it: GachaItem| it.item_id),
                result.banner_id == gacha.gacha_id,
                result.banner_type == banner.banner_type,
            decreases items.len() - i,
        {
            let item_id = gacha.gacha_item_list[i].item_id;
            result.pull_results.push(item_id);
            proof {
                assert(items.take(i + 1).drop_last() =~= items.take(i as int));
                lemma_pity_amounts_bounded(db, rate_up, items.take(i as int));
                assert(item_grade(db, items[i as int].item_id) is Some);
            }
            let grade = match grade_of(self.database, item_id) {
                Some(g) => g,
                None => 0,
            };
            let was_rate_up = contains_u32(&banner.rate_up_item_list, item_id);
            let next_is_guarantee = !was_rate_up;
            let ghost prev = (result.pity_4, result.pity_5);
            proof {
                assert(items.take(i + 1).last() == items[i as int]);
                assert(items[i as int].item_id == item_id);
                assert(item_grade(db, item_id) == Some(grade));
                assert(rate_up.contains(item_id) == was_rate_up);
                assert(pity_after(db, rate_up, items.take(i as int)) == prev);
                assert(pity_after(db, rate_up, items.take(i + 1)) == pity_step(
                    prev,
                    grade,
                    was_rate_up,
                ));
            }
            if grade == 5 {
                result.pity_4.increment();
                result.pity_5.reset(next_is_guarantee);
            } else if grade == 4 {
                result.pity_4.reset(next_is_guarantee);
                result.pity_5.increment();
            } else {
                result.pity_4.increment();
                result.pity_5.increment();
            }
            i = i + 1;
            assert(result.pull_results@ =~= items.take(i as int).map_values(|it: GachaItem| it.item_id));
        }
        assert(items.take(items.len() as int) =~= items);
        Some(result)
    }
}

} // verus!
