//! Conversions from the game's identifiers to the export format's names.
use vstd::prelude::*;

use crate::database::Database;
use crate::text::{decimal, lemma_decimal_injective, lemma_decimal_nonempty, str_eq, to_decimal_string};

verus! {

/// The location of an item equipped by avatar `avatar_id`: empty for 0,
/// otherwise the avatar id in decimal.
pub open spec fn spec_format_location(avatar_id: u32) -> Seq<char> {
    if avatar_id == 0 {
        Seq::empty()
    } else {
        decimal(avatar_id as nat)
    }
}

/// Formats character ID as location string for relics and light cones.
pub fn format_location(avatar_id: u32) -> (r: String)
    ensures
        r@ == spec_format_location(avatar_id),
{
    if avatar_id == 0 {
        String::new()
    } else {
        to_decimal_string(avatar_id as u64)
    }
}

/// Location law: an item's location names its avatar. Only an unequipped
/// item (avatar 0) has an empty location, and different avatars give
/// different locations.
pub proof fn law_locations_name_avatars(a: u32, b: u32)
    ensures
        spec_format_location(a).len() == 0 <==> a == 0,
        a != b ==> spec_format_location(a) != spec_format_location(b),
{
    lemma_decimal_nonempty(a as nat);
    lemma_decimal_nonempty(b as nat);
    if a != b && spec_format_location(a) == spec_format_location(b) {
        if a != 0 && b != 0 {
            lemma_decimal_injective(a as nat, b as nat);
        }
    }
}

} // verus!

verus! {

/// The export name of a relic slot type, if the type is known.
pub open spec fn spec_slot_type(s: Seq<char>) -> Option<Seq<char>> {
    if s == "HEAD"@ {
        Some("Head"@)
    } else if s == "HAND"@ {
        Some("Hands"@)
    } else if s == "BODY"@ {
        Some("Body"@)
    } else if s == "FOOT"@ {
        Some("Feet"@)
    } else if s == "NECK"@ {
        Some("Planar Sphere"@)
    } else if s == "OBJECT"@ {
        Some("Link Rope"@)
    } else {
        None
    }
}

/// The export name of a relic main stat property, if the property is known.
pub open spec fn spec_main_stat(s: Seq<char>) -> Option<Seq<char>> {
    if s == "HPDelta"@ {
        Some("HP"@)
    } else if s == "AttackDelta"@ {
        Some("ATK"@)
    } else if s == "HPAddedRatio"@ {
        Some("HP"@)
    } else if s == "AttackAddedRatio"@ {
        Some("ATK"@)
    } else if s == "DefenceAddedRatio"@ {
        Some("DEF"@)
    } else if s == "CriticalChanceBase"@ {
        Some("CRIT Rate"@)
    } else if s == "CriticalDamageBase"@ {
        Some("CRIT DMG"@)
    } else if s == "HealRatioBase"@ {
        Some("Outgoing Healing Boost"@)
    } else if s == "SpeedDelta"@ {
        Some("SPD"@)
    } else if s == "StatusProbabilityBase"@ {
        Some("Effect Hit Rate"@)
    } else if s == "PhysicalAddedRatio"@ {
        Some("Physical DMG Boost"@)
    } else if s == "FireAddedRatio"@ {
        Some("Fire DMG Boost"@)
    } else if s == "IceAddedRatio"@ {
        Some("Ice DMG Boost"@)
    } else if s == "ThunderAddedRatio"@ {
        Some("Lightning DMG Boost"@)
    } else if s == "WindAddedRatio"@ {
        Some("Wind DMG Boost"@)
    } else if s == "QuantumAddedRatio"@ {
        Some("Quantum DMG Boost"@)
    } else if s == "ImaginaryAddedRatio"@ {
        Some("Imaginary DMG Boost"@)
    } else if s == "BreakDamageAddedRatioBase"@ {
        Some("Break Effect"@)
    } else if s == "SPRatioBase"@ {
        Some("Energy Regeneration Rate"@)
    } else {
        None
    }
}

/// The export name of a relic substat property, if the property is known.
/// Percentage stats end in `_`.
pub open spec fn spec_sub_stat(s: Seq<char>) -> Option<Seq<char>> {
    if s == "HPDelta"@ {
        Some("HP"@)
    } else if s == "AttackDelta"@ {
        Some("ATK"@)
    } else if s == "HPAddedRatio"@ {
        Some("HP_"@)
    } else if s == "AttackAddedRatio"@ {
        Some("ATK_"@)
    } else if s == "DefenceAddedRatio"@ {
        Some("DEF_"@)
    } else if s == "DefenceDelta"@ {
        Some("DEF"@)
    } else if s == "CriticalChanceBase"@ {
        Some("CRIT Rate_"@)
    } else if s == "CriticalDamageBase"@ {
        Some("CRIT DMG_"@)
    } else if s == "SpeedDelta"@ {
        Some("SPD"@)
    } else if s == "StatusProbabilityBase"@ {
        Some("Effect Hit Rate_"@)
    } else if s == "StatusResistanceBase"@ {
        Some("Effect RES_"@)
    } else if s == "BreakDamageAddedRatioBase"@ {
        Some("Break Effect_"@)
    } else {
        None
    }
}

/// The game's property name ends in `Delta`: a flat stat.
pub open spec fn is_flat_property(s: Seq<char>) -> bool {
    s.len() >= 5 && s.subrange(s.len() - 5, s.len() as int) == "Delta"@
}

/// Stat-name law: for a property that both tables know, the substat name is
/// the main-stat name, with `_` appended exactly when the property is not a
/// flat (`Delta`) stat.
pub proof fn law_sub_stat_extends_main_stat(s: Seq<char>)
    requires
        spec_main_stat(s) is Some,
        spec_sub_stat(s) is Some,
    ensures
        is_flat_property(s) ==> spec_sub_stat(s) == spec_main_stat(s),
        !is_flat_property(s) ==> spec_sub_stat(s).unwrap() == spec_main_stat(s).unwrap().push('_'),
{
    reveal_strlit("HPDelta");
    reveal_strlit("AttackDelta");
    reveal_strlit("HPAddedRatio");
    reveal_strlit("AttackAddedRatio");
    reveal_strlit("DefenceAddedRatio");
    reveal_strlit("CriticalChanceBase");
    reveal_strlit("CriticalDamageBase");
    reveal_strlit("HealRatioBase");
    reveal_strlit("SpeedDelta");
    reveal_strlit("StatusProbabilityBase");
    reveal_strlit("PhysicalAddedRatio");
    reveal_strlit("FireAddedRatio");
    reveal_strlit("IceAddedRatio");
    reveal_strlit("ThunderAddedRatio");
    reveal_strlit("WindAddedRatio");
    reveal_strlit("QuantumAddedRatio");
    reveal_strlit("ImaginaryAddedRatio");
    reveal_strlit("BreakDamageAddedRatioBase");
    reveal_strlit("SPRatioBase");
    reveal_strlit("DefenceDelta");
    reveal_strlit("StatusResistanceBase");
    reveal_strlit("HP");
    reveal_strlit("ATK");
    reveal_strlit("HP_");
    reveal_strlit("ATK_");
    reveal_strlit("DEF");
    reveal_strlit("DEF_");
    reveal_strlit("CRIT Rate");
    reveal_strlit("CRIT Rate_");
    reveal_strlit("CRIT DMG");
    reveal_strlit("CRIT DMG_");
    reveal_strlit("SPD");
    reveal_strlit("Effect Hit Rate");
    reveal_strlit("Effect Hit Rate_");
    reveal_strlit("Break Effect");
    reveal_strlit("Break Effect_");
    reveal_strlit("Delta");
    if s == "HPDelta"@ {
        assert(s[0] == 'H');
        assert(s.subrange(s.len() - 5, s.len() as int) =~= "Delta"@);
    } else if s == "AttackDelta"@ {
        assert(s[0] == 'A');
        assert(s.subrange(s.len() - 5, s.len() as int) =~= "Delta"@);
    } else if s == "HPAddedRatio"@ {
        assert(s[0] == 'H');
        assert(s.subrange(s.len() - 5, s.len() as int)[0] == 'R');
        assert("HP_"@ =~= "HP"@.push('_'));
    } else if s == "AttackAddedRatio"@ {
        assert(s[0] == 'A');
        assert(s.subrange(s.len() - 5, s.len() as int)[0] == 'R');
        assert("ATK_"@ =~= "ATK"@.push('_'));
    } else if s == "DefenceAddedRatio"@ {
        assert(s[0] == 'D');
        assert(s.subrange(s.len() - 5, s.len() as int)[0] == 'R');
        assert("DEF_"@ =~= "DEF"@.push('_'));
    } else if s == "CriticalChanceBase"@ {
        assert(s[0] == 'C');
        assert(s.subrange(s.len() - 5, s.len() as int)[0] == 'e');
        assert("CRIT Rate_"@ =~= "CRIT Rate"@.push('_'));
    } else if s == "CriticalDamageBase"@ {
        assert(s[0] == 'C');
        assert(s.subrange(s.len() - 5, s.len() as int)[0] == 'e');
        assert("CRIT DMG_"@ =~= "CRIT DMG"@.push('_'));
    } else if s == "HealRatioBase"@ {
        assert(s[0] == 'H');
    } else if s == "SpeedDelta"@ {
        assert(s[0] == 'S');
        assert(s.subrange(s.len() - 5, s.len() as int) =~= "Delta"@);
    } else if s == "StatusProbabilityBase"@ {
        assert(s[0] == 'S');
        assert(s.subrange(s.len() - 5, s.len() as int)[0] == 'y');
        assert("Effect Hit Rate_"@ =~= "Effect Hit Rate"@.push('_'));
    } else if s == "PhysicalAddedRatio"@ {
        assert(s[0] == 'P');
    } else if s == "FireAddedRatio"@ {
        assert(s[0] == 'F');
    } else if s == "IceAddedRatio"@ {
        assert(s[0] == 'I');
    } else if s == "ThunderAddedRatio"@ {
        assert(s[0] == 'T');
    } else if s == "WindAddedRatio"@ {
        assert(s[0] == 'W');
    } else if s == "QuantumAddedRatio"@ {
        assert(s[0] == 'Q');
    } else if s == "ImaginaryAddedRatio"@ {
        assert(s[0] == 'I');
    } else if s == "BreakDamageAddedRatioBase"@ {
        assert(s[0] == 'B');
        assert(s.subrange(s.len() - 5, s.len() as int)[0] == 'o');
        assert("Break Effect_"@ =~= "Break Effect"@.push('_'));
    } else if s == "SPRatioBase"@ {
        assert(s[0] == 'S');
    }
}

/// The elemental damage properties of main stats, each with the element's
/// name in the export: the game calls lightning "Thunder".
pub open spec fn elemental_properties() -> Seq<(Seq<char>, Seq<char>)> {
    seq![
        ("Physical"@, "Physical"@),
        ("Fire"@, "Fire"@),
        ("Ice"@, "Ice"@),
        ("Thunder"@, "Lightning"@),
        ("Wind"@, "Wind"@),
        ("Quantum"@, "Quantum"@),
        ("Imaginary"@, "Imaginary"@),
    ]
}

/// Elemental main-stat law: the main stat of the elemental damage property
/// `<element>AddedRatio` is named "<element> DMG Boost" after the element's
/// export name, and distinct elemental properties get distinct names.
pub proof fn law_elemental_main_stats(i: int, j: int)
    requires
        0 <= i < elemental_properties().len(),
        0 <= j < elemental_properties().len(),
    ensures
        spec_main_stat(elemental_properties()[i].0 + "AddedRatio"@) == Some(
            elemental_properties()[i].1 + " DMG Boost"@,
        ),
        i != j ==> spec_main_stat(elemental_properties()[i].0 + "AddedRatio"@) != spec_main_stat(
            elemental_properties()[j].0 + "AddedRatio"@,
        ),
{
    lemma_elemental_main_stat(i);
    lemma_elemental_main_stat(j);
    let ni = elemental_properties()[i].1 + " DMG Boost"@;
    let nj = elemental_properties()[j].1 + " DMG Boost"@;
    if i != j {
        reveal_strlit(" DMG Boost");
        reveal_strlit("Physical");
        reveal_strlit("Fire");
        reveal_strlit("Ice");
        reveal_strlit("Lightning");
        reveal_strlit("Wind");
        reveal_strlit("Quantum");
        reveal_strlit("Imaginary");
        assert(ni[0] != nj[0] || ni[1] != nj[1]);
    }
}

proof fn lemma_elemental_main_stat(i: int)
    requires
        0 <= i < elemental_properties().len(),
    ensures
        spec_main_stat(elemental_properties()[i].0 + "AddedRatio"@) == Some(
            elemental_properties()[i].1 + " DMG Boost"@,
        ),
{
    reveal_strlit("HPDelta");
    reveal_strlit("AttackDelta");
    reveal_strlit("HPAddedRatio");
    reveal_strlit("AttackAddedRatio");
    reveal_strlit("DefenceAddedRatio");
    reveal_strlit("CriticalChanceBase");
    reveal_strlit("CriticalDamageBase");
    reveal_strlit("HealRatioBase");
    reveal_strlit("SpeedDelta");
    reveal_strlit("StatusProbabilityBase");
    reveal_strlit("PhysicalAddedRatio");
    reveal_strlit("FireAddedRatio");
    reveal_strlit("IceAddedRatio");
    reveal_strlit("ThunderAddedRatio");
    reveal_strlit("WindAddedRatio");
    reveal_strlit("QuantumAddedRatio");
    reveal_strlit("ImaginaryAddedRatio");
    reveal_strlit("AddedRatio");
    reveal_strlit("Physical");
    reveal_strlit("Fire");
    reveal_strlit("Ice");
    reveal_strlit("Thunder");
    reveal_strlit("Lightning");
    reveal_strlit("Wind");
    reveal_strlit("Quantum");
    reveal_strlit("Imaginary");
    reveal_strlit(" DMG Boost");
    let s = elemental_properties()[i].0 + "AddedRatio"@;
    if i == 0 {
        assert(s =~= "PhysicalAddedRatio"@);
        assert(s[0] == 'P' && s[1] == 'h');
        reveal_strlit("Physical DMG Boost");
        assert("Physical DMG Boost"@ =~= "Physical"@ + " DMG Boost"@);
    } else if i == 1 {
        assert(s =~= "FireAddedRatio"@);
        assert(s[0] == 'F' && s[1] == 'i');
        reveal_strlit("Fire DMG Boost");
        assert("Fire DMG Boost"@ =~= "Fire"@ + " DMG Boost"@);
    } else if i == 2 {
        assert(s =~= "IceAddedRatio"@);
        assert(s[0] == 'I' && s[1] == 'c');
        reveal_strlit("Ice DMG Boost");
        assert("Ice DMG Boost"@ =~= "Ice"@ + " DMG Boost"@);
    } else if i == 3 {
        assert(s =~= "ThunderAddedRatio"@);
        assert(s[0] == 'T' && s[1] == 'h');
        reveal_strlit("Lightning DMG Boost");
        assert("Lightning DMG Boost"@ =~= "Lightning"@ + " DMG Boost"@);
    } else if i == 4 {
        assert(s =~= "WindAddedRatio"@);
        assert(s[0] == 'W' && s[1] == 'i');
        reveal_strlit("Wind DMG Boost");
        assert("Wind DMG Boost"@ =~= "Wind"@ + " DMG Boost"@);
    } else if i == 5 {
        assert(s =~= "QuantumAddedRatio"@);
        assert(s[0] == 'Q' && s[1] == 'u');
        reveal_strlit("Quantum DMG Boost");
        assert("Quantum DMG Boost"@ =~= "Quantum"@ + " DMG Boost"@);
    } else if i == 6 {
        assert(s =~= "ImaginaryAddedRatio"@);
        assert(s[0] == 'I' && s[1] == 'm');
        reveal_strlit("Imaginary DMG Boost");
        assert("Imaginary DMG Boost"@ =~= "Imaginary"@ + " DMG Boost"@);
    }
}

/// The path named by an avatar base type, if the type is known.
pub open spec fn spec_path_of_base_type(s: Seq<char>) -> Option<Seq<char>> {
    if s == "Knight"@ {
        Some("Preservation"@)
    } else if s == "Rogue"@ {
        Some("Hunt"@)
    } else if s == "Mage"@ {
        Some("Erudition"@)
    } else if s == "Warlock"@ {
        Some("Nihility"@)
    } else if s == "Warrior"@ {
        Some("Destruction"@)
    } else if s == "Shaman"@ {
        Some("Harmony"@)
    } else if s == "Priest"@ {
        Some("Abundance"@)
    } else if s == "Memory"@ {
        Some("Remembrance"@)
    } else {
        None
    }
}

/// Checks a relic slot type and gives its export name.
pub fn try_slot_type_to_export(s: &str) -> (r: Option<&'static str>)
    ensures
        match r {
            Some(t) => spec_slot_type(s@) == Some(t@),
            None => spec_slot_type(s@) is None,
        },
{
    if str_eq(s, "HEAD") {
        Some("Head")
    } else if str_eq(s, "HAND") {
        Some("Hands")
    } else if str_eq(s, "BODY") {
        Some("Body")
    } else if str_eq(s, "FOOT") {
        Some("Feet")
    } else if str_eq(s, "NECK") {
        Some("Planar Sphere")
    } else if str_eq(s, "OBJECT") {
        Some("Link Rope")
    } else {
        None
    }
}

/// Converts slot type from game format to export format.
pub fn slot_type_to_export(s: &str) -> (r: &'static str)
    requires
        spec_slot_type(s@) is Some,
    ensures
        spec_slot_type(s@) == Some(r@),
{
    match try_slot_type_to_export(s) {
        Some(t) => t,
        None => "",
    }
}

/// Checks a main stat property and gives its export name.
pub fn try_main_stat_to_export(s: &str) -> (r: Option<&'static str>)
    ensures
        match r {
            Some(t) => spec_main_stat(s@) == Some(t@),
            None => spec_main_stat(s@) is None,
        },
{
    if str_eq(s, "HPDelta") {
        Some("HP")
    } else if str_eq(s, "AttackDelta") {
        Some("ATK")
    } else if str_eq(s, "HPAddedRatio") {
        Some("HP")
    } else if str_eq(s, "AttackAddedRatio") {
        Some("ATK")
    } else if str_eq(s, "DefenceAddedRatio") {
        Some("DEF")
    } else if str_eq(s, "CriticalChanceBase") {
        Some("CRIT Rate")
    } else if str_eq(s, "CriticalDamageBase") {
        Some("CRIT DMG")
    } else if str_eq(s, "HealRatioBase") {
        Some("Outgoing Healing Boost")
    } else if str_eq(s, "SpeedDelta") {
        Some("SPD")
    } else if str_eq(s, "StatusProbabilityBase") {
        Some("Effect Hit Rate")
    } else if str_eq(s, "PhysicalAddedRatio") {
        Some("Physical DMG Boost")
    } else if str_eq(s, "FireAddedRatio") {
        Some("Fire DMG Boost")
    } else if str_eq(s, "IceAddedRatio") {
        Some("Ice DMG Boost")
    } else if str_eq(s, "ThunderAddedRatio") {
        Some("Lightning DMG Boost")
    } else if str_eq(s, "WindAddedRatio") {
        Some("Wind DMG Boost")
    } else if str_eq(s, "QuantumAddedRatio") {
        Some("Quantum DMG Boost")
    } else if str_eq(s, "ImaginaryAddedRatio") {
        Some("Imaginary DMG Boost")
    } else if str_eq(s, "BreakDamageAddedRatioBase") {
        Some("Break Effect")
    } else if str_eq(s, "SPRatioBase") {
        Some("Energy Regeneration Rate")
    } else {
        None
    }
}

/// Converts main stat property from game format to export format.
pub fn main_stat_to_export(s: &str) -> (r: &'static str)
    requires
        spec_main_stat(s@) is Some,
    ensures
        spec_main_stat(s@) == Some(r@),
{
    match try_main_stat_to_export(s) {
        Some(t) => t,
        None => "",
    }
}

/// Checks a substat property and gives its export name.
pub fn try_sub_stat_to_export(s: &str) -> (r: Option<&'static str>)
    ensures
        match r {
            Some(t) => spec_sub_stat(s@) == Some(t@),
            None => spec_sub_stat(s@) is None,
        },
{
    if str_eq(s, "HPDelta") {
        Some("HP")
    } else if str_eq(s, "AttackDelta") {
        Some("ATK")
    } else if str_eq(s, "HPAddedRatio") {
        Some("HP_")
    } else if str_eq(s, "AttackAddedRatio") {
        Some("ATK_")
    } else if str_eq(s, "DefenceAddedRatio") {
        Some("DEF_")
    } else if str_eq(s, "DefenceDelta") {
        Some("DEF")
    } else if str_eq(s, "CriticalChanceBase") {
        Some("CRIT Rate_")
    } else if str_eq(s, "CriticalDamageBase") {
        Some("CRIT DMG_")
    } else if str_eq(s, "SpeedDelta") {
        Some("SPD")
    } else if str_eq(s, "StatusProbabilityBase") {
        Some("Effect Hit Rate_")
    } else if str_eq(s, "StatusResistanceBase") {
        Some("Effect RES_")
    } else if str_eq(s, "BreakDamageAddedRatioBase") {
        Some("Break Effect_")
    } else {
        None
    }
}

/// Converts sub stat property from game format to export format.
pub fn sub_stat_to_export(s: &str) -> (r: &'static str)
    requires
        spec_sub_stat(s@) is Some,
    ensures
        spec_sub_stat(s@) == Some(r@),
{
    match try_sub_stat_to_export(s) {
        Some(t) => t,
        None => "",
    }
}

/// The path of a configured avatar; absent when its base type is unknown.
pub open spec fn spec_avatar_path(db: &Database, avatar_id: u32) -> Option<Seq<char>> {
    spec_path_of_base_type(db.avatar_config@[avatar_id].avatar_base_type@)
}

/// Converts avatar base type to path for characters.
pub fn avatar_path_lookup(db: &Database, avatar_id: u32) -> (r: Option<&'static str>)
    requires
        db.avatar_config@.contains_key(avatar_id),
    ensures
        match r {
            Some(t) => spec_avatar_path(db, avatar_id) == Some(t@),
            None => spec_avatar_path(db, avatar_id) is None,
        },
{
    let cfg = db.avatar_config.get(&avatar_id).unwrap();
    let t = cfg.avatar_base_type.as_str();
    if str_eq(t, "Knight") {
        Some("Preservation")
    } else if str_eq(t, "Rogue") {
        Some("Hunt")
    } else if str_eq(t, "Mage") {
        Some("Erudition")
    } else if str_eq(t, "Warlock") {
        Some("Nihility")
    } else if str_eq(t, "Warrior") {
        Some("Destruction")
    } else if str_eq(t, "Shaman") {
        Some("Harmony")
    } else if str_eq(t, "Priest") {
        Some("Abundance")
    } else if str_eq(t, "Memory") {
        Some("Remembrance")
    } else {
        None
    }
}

} // verus!
