//! Properties of the classification as a whole.

use vstd::prelude::*;

use crate::game::{
    ActorValue, BaseType, MagicDamageType, SpellArchetype, SpellData, SpellSchool, WeaponType,
};
use crate::icon::{variant_color, variant_icon, Icon, IconSource, InvColor, SpellColor};
use crate::keyword::{lemma_recognized_contains, parse_keyword, recognized, SpellKeyword};
use crate::spell::{
    BoundType, archetype_variant, bound_type_of, classifiable, filled_data, keyword_variant, spell_type_of, variant_of,
    SpellVariant,
};

verus! {

/// The order in which keyword strings are listed, and how often each
/// occurs, do not change a spell's classification: two lists that hold the
/// same strings classify a spell alike.
pub proof fn law_keyword_order_irrelevant(
    data: SpellData,
    first: Seq<String>,
    second: Seq<String>,
    kind: BaseType,
)
    requires
        forall|i: int| 0 <= i < first.len() ==> exists|j: int| 0 <= j < second.len() && #[trigger] first[i]@ == #[trigger] second[j]@,
        forall|j: int| 0 <= j < second.len() ==> exists|i: int| 0 <= i < first.len() && #[trigger] first[i]@ == #[trigger] second[j]@,
    ensures
        spell_type_of(data, recognized(first), kind) == spell_type_of(data, recognized(second), kind),
{
    let a = recognized(first);
    let b = recognized(second);
    assert forall|k: SpellKeyword| a.contains(k) == b.contains(k) by {
        lemma_recognized_contains(first, k);
        lemma_recognized_contains(second, k);
        if a.contains(k) {
            let i = choose|i: int| 0 <= i < first.len() && crate::keyword::keyword_name(k) == #[trigger] first[i]@;
            let j = choose|j: int| 0 <= j < second.len() && #[trigger] first[i]@ == #[trigger] second[j]@;
            assert(crate::keyword::keyword_name(k) == second[j]@);
        }
        if b.contains(k) {
            let j = choose|j: int| 0 <= j < second.len() && crate::keyword::keyword_name(k) == #[trigger] second[j]@;
            let i = choose|i: int| 0 <= i < first.len() && #[trigger] first[i]@ == #[trigger] second[j]@;
            assert(crate::keyword::keyword_name(k) == first[i]@);
        }
    }
}

/// A keyword string that names no keyword is ignored.
pub proof fn law_unrecognized_keyword_ignored(
    data: SpellData,
    keywords: Seq<String>,
    extra: String,
    kind: BaseType,
)
    requires
        parse_keyword(extra@) is None,
    ensures
        spell_type_of(data, recognized(keywords.push(extra)), kind) == spell_type_of(
            data,
            recognized(keywords),
            kind,
        ),
{
    assert(keywords.push(extra).drop_last() =~= keywords);
}

/// When a keyword decides a spell's variant, the spell's archetype, effect,
/// hostility, damage type and school play no part in it.
pub proof fn law_keywords_take_precedence(
    first: SpellData,
    second: SpellData,
    tags: Seq<SpellKeyword>,
    kind: BaseType,
)
    requires
        first.associated@ == second.associated@,
        keyword_variant(tags, first.associated@, kind) is Some,
    ensures
        variant_of(first, tags, kind) == variant_of(second, tags, kind),
        variant_of(first, tags, kind) == keyword_variant(tags, first.associated@, kind)->0,
{
}

/// Classification changes nothing of a spell's data but its damage type, and
/// that only when the game reports none; a damage type that keywords fill in
/// is `Plain` only when no keyword gives one.
pub proof fn law_only_missing_damage_is_filled(data: SpellData, tags: Seq<SpellKeyword>)
    ensures
        filled_data(data, tags).hostile == data.hostile,
        filled_data(data, tags).effect == data.effect,
        filled_data(data, tags).school == data.school,
        filled_data(data, tags).archetype == data.archetype,
        filled_data(data, tags).associated == data.associated,
        data.damage != MagicDamageType::Plain ==> filled_data(data, tags).damage == data.damage,
{
}

/// Classifying an already classified spell's data again, with the same
/// keywords, gives the same result.
pub proof fn law_classification_idempotent(data: SpellData, tags: Seq<SpellKeyword>, kind: BaseType)
    requires
        classifiable(data, tags, kind),
    ensures
        classifiable(spell_type_of(data, tags, kind).data, tags, kind),
        spell_type_of(spell_type_of(data, tags, kind).data, tags, kind) == spell_type_of(
            data,
            tags,
            kind,
        ),
{
}

/// A spell is `Unknown` exactly when neither its keywords nor its archetype
/// classify it.
pub proof fn law_unknown_iff_unclassified(data: SpellData, tags: Seq<SpellKeyword>, kind: BaseType)
    ensures
        (variant_of(data, tags, kind) == SpellVariant::Unknown) <==> (keyword_variant(
            tags,
            data.associated@,
            kind,
        ) is None && archetype_variant(filled_data(data, tags), kind) is None),
{
}

/// When a spell names no item, what kind of item it names plays no part in
/// its classification.
pub proof fn law_no_item_no_lookup(
    data: SpellData,
    tags: Seq<SpellKeyword>,
    first: BaseType,
    second: BaseType,
)
    requires
        data.associated@.len() == 0,
    ensures
        classifiable(data, tags, first) == classifiable(data, tags, second),
        spell_type_of(data, tags, first) == spell_type_of(data, tags, second),
{
}

/// What kind of item a spell names matters only for bound-weapon spells: it
/// never changes a spell's data, and two kinds give different variants only
/// when both variants are bound weapons.
pub proof fn law_kind_matters_only_for_bound_weapons(
    data: SpellData,
    tags: Seq<SpellKeyword>,
    first: BaseType,
    second: BaseType,
)
    ensures
        spell_type_of(data, tags, first).data == spell_type_of(data, tags, second).data,
        variant_of(data, tags, first) != variant_of(data, tags, second) ==> (variant_of(
            data,
            tags,
            first,
        ) is BoundWeapon && variant_of(data, tags, second) is BoundWeapon),
{
}

/// A spell's school decides its icon only for spells with no icon of their
/// own, which are drawn with their school's icon.
pub proof fn law_school_only_for_fallback(variant: SpellVariant, first: SpellSchool, second: SpellSchool)
    ensures
        variant_icon(variant, first) != variant_icon(variant, second) ==> variant_icon(variant, first)
            == IconSource::OfSchool(first),
{
}

/// The archetypes of spells that modify an actor value.
pub open spec fn is_value_modifier(archetype: SpellArchetype) -> bool {
    archetype == SpellArchetype::ValueModifier || archetype == SpellArchetype::PeakValueModifier
        || archetype == SpellArchetype::DualValueModifier
}

/// The keywords that decide a spell's variant on their own.
pub open spec fn is_classifying_keyword(k: SpellKeyword) -> bool {
    k == SpellKeyword::MAG_MagicEffectLight || k == SpellKeyword::MAG_MagicInfluenceParalysis
        || k == SpellKeyword::MAG_MagicInfluenceSilence || k == SpellKeyword::NAT_MagicRoot
        || k == SpellKeyword::MAG_MagicSoulTrap || k == SpellKeyword::MAG_MagicSummonReanimate
        || k == SpellKeyword::MAG_MagicSummonWeapon
        || k == SpellKeyword::MAG_MagicWeaponEnchantment
        || k == SpellKeyword::MAG_MagicWeightSpell || k == SpellKeyword::MAG_PoisonCloakSpell
        || k == SpellKeyword::MAG_WeapTypeBound || k == SpellKeyword::MagicFlameCloak
}

/// A value-modifying spell that no keyword classifies and that touches
/// health is damage of its (filled in) damage type when it is hostile, and
/// healing when it is not; one that touches any other actor value is neither,
/// and stays `Unknown`.
pub proof fn law_value_modifier_damage_or_heal(
    data: SpellData,
    tags: Seq<SpellKeyword>,
    kind: BaseType,
)
    requires
        is_value_modifier(data.archetype),
        forall|i: int| 0 <= i < tags.len() ==> !is_classifying_keyword(#[trigger] tags[i]),
    ensures
        data.effect == ActorValue::Health && data.hostile ==> variant_of(data, tags, kind)
            == SpellVariant::Damage(spell_type_of(data, tags, kind).data.damage),
        data.effect == ActorValue::Health && !data.hostile ==> variant_of(data, tags, kind)
            == SpellVariant::Heal,
        data.effect != ActorValue::Health ==> variant_of(data, tags, kind) == SpellVariant::Unknown,
        variant_of(data, tags, kind) == SpellVariant::Heal ==> !data.hostile,
        variant_of(data, tags, kind) is Damage ==> data.hostile,
{
    assert(!tags.contains(SpellKeyword::MAG_MagicEffectLight));
    assert(!tags.contains(SpellKeyword::MAG_MagicInfluenceParalysis));
    assert(!tags.contains(SpellKeyword::MAG_MagicInfluenceSilence));
    assert(!tags.contains(SpellKeyword::NAT_MagicRoot));
    assert(!tags.contains(SpellKeyword::MAG_MagicSoulTrap));
    assert(!tags.contains(SpellKeyword::MAG_MagicSummonReanimate));
    assert(!tags.contains(SpellKeyword::MAG_MagicSummonWeapon));
    assert(!tags.contains(SpellKeyword::MAG_MagicWeaponEnchantment));
    assert(!tags.contains(SpellKeyword::MAG_MagicWeightSpell));
    assert(!tags.contains(SpellKeyword::MAG_PoisonCloakSpell));
    assert(!tags.contains(SpellKeyword::MAG_WeapTypeBound));
    assert(!tags.contains(SpellKeyword::MagicFlameCloak));
}

/// Only a spell that touches health is classified as damage or healing by
/// its value-modifying archetype, whatever its hostility and damage type.
pub proof fn law_value_modifier_needs_health(data: SpellData, kind: BaseType)
    requires
        is_value_modifier(data.archetype),
        data.effect != ActorValue::Health,
    ensures
        archetype_variant(data, kind) is None,
        crate::spell::value_mod_variant(data) is None,
{
}

/// The damage type a spell ends up with depends only on the damage type the
/// game reports and on the keywords: never on the spell's hostility, effect,
/// archetype, school, or the item it names.
pub proof fn law_damage_independent_of_the_rest(
    first: SpellData,
    second: SpellData,
    tags: Seq<SpellKeyword>,
    kind: BaseType,
)
    requires
        first.damage == second.damage,
    ensures
        spell_type_of(first, tags, kind).data.damage == spell_type_of(second, tags, kind).data.damage,
{
}

/// When the game reports no damage type, the keywords give it, the first of
/// Bleed, Earth, Lunar, Poison, Stamina, Sun, Water, Wind, unspecific damage
/// (`Other`) whose keyword the spell carries; with none of them it stays
/// `Plain`. A damage type the game reports is kept.
pub proof fn law_damage_from_keywords(data: SpellData, tags: Seq<SpellKeyword>, kind: BaseType)
    ensures
        ({
            let d = spell_type_of(data, tags, kind).data.damage;
            let bleed = tags.contains(SpellKeyword::MAG_MagicDamageBleed);
            let earth = tags.contains(SpellKeyword::IconMagicEarth);
            let lunar = tags.contains(SpellKeyword::MagicDamageLunar);
            let poison = tags.contains(SpellKeyword::MAG_MagicDamagePoison);
            let stamina = tags.contains(SpellKeyword::MAG_MagicDamageStamina);
            let sun = tags.contains(SpellKeyword::MAG_MagicDamageSun);
            let water = tags.contains(SpellKeyword::IconMagicWater);
            let wind = tags.contains(SpellKeyword::IconMagicWind);
            let other = tags.contains(SpellKeyword::DAR_UnspecificMagicDamage);
            &&& data.damage != MagicDamageType::Plain ==> d == data.damage
            &&& data.damage == MagicDamageType::Plain ==> {
                &&& bleed ==> d == MagicDamageType::Bleed
                &&& !bleed && earth ==> d == MagicDamageType::Earth
                &&& !bleed && !earth && lunar ==> d == MagicDamageType::Lunar
                &&& !bleed && !earth && !lunar && poison ==> d == MagicDamageType::Poison
                &&& !bleed && !earth && !lunar && !poison && stamina ==> d == MagicDamageType::Stamina
                &&& !bleed && !earth && !lunar && !poison && !stamina && sun ==> d == MagicDamageType::Sun
                &&& !bleed && !earth && !lunar && !poison && !stamina && !sun && water ==> d
                    == MagicDamageType::Water
                &&& !bleed && !earth && !lunar && !poison && !stamina && !sun && !water && wind ==> d
                    == MagicDamageType::Wind
                &&& !bleed && !earth && !lunar && !poison && !stamina && !sun && !water && !wind
                    && other ==> d == MagicDamageType::Other
                &&& !bleed && !earth && !lunar && !poison && !stamina && !sun && !water && !wind
                    && !other ==> d == MagicDamageType::Plain
            }
        }),
{
}

/// The variant that stands for a group of variants drawn with one icon: the
/// fear spells share the fear icon, the ice shards share one icon, cloaks of
/// every damage type share the cloak icon, and bound
/// swords, greatswords and unknown bound weapons share the one-handed sword.
pub open spec fn icon_group(v: SpellVariant) -> SpellVariant {
    match v {
        SpellVariant::Fear | SpellVariant::Rout => SpellVariant::Demoralize,
        SpellVariant::IcySpear => SpellVariant::IceSpike,
        SpellVariant::Cloak(_) => SpellVariant::Cloak(MagicDamageType::Plain),
        SpellVariant::BoundWeapon(BoundType::Sword) | SpellVariant::BoundWeapon(BoundType::Unknown) => {
            SpellVariant::BoundWeapon(BoundType::Greatsword)
        },
        _ => v,
    }
}

/// Whether two variants are drawn alike on purpose.
pub open spec fn share_icon(a: SpellVariant, b: SpellVariant) -> bool {
    icon_group(a) == icon_group(b)
}

/// The group of variants each icon is drawn for.
spec fn icon_owner(i: Icon) -> SpellVariant {
    match i {
        Icon::WeaponAxeTwoHanded => SpellVariant::BoundWeapon(BoundType::BattleAxe),
        Icon::WeaponBow => SpellVariant::BoundWeapon(BoundType::Bow),
        Icon::WeaponDagger => SpellVariant::BoundWeapon(BoundType::Dagger),
        Icon::WeaponSwordOneHanded => SpellVariant::BoundWeapon(BoundType::Greatsword),
        Icon::WeaponHammer => SpellVariant::BoundWeapon(BoundType::Hammer),
        Icon::WeaponMace => SpellVariant::BoundWeapon(BoundType::Mace),
        Icon::ArmorShieldHeavy => SpellVariant::BoundWeapon(BoundType::Shield),
        Icon::WeaponAxeOneHanded => SpellVariant::BoundWeapon(BoundType::WarAxe),
        Icon::SpellCure => SpellVariant::Cure,
        Icon::SpellFeather => SpellVariant::CarryWeight,
        Icon::SpellFear => SpellVariant::Demoralize,
        Icon::SpellDetect => SpellVariant::Detect,
        Icon::SpellSharpen => SpellVariant::EnhanceWeapon,
        Icon::SpellFireball => SpellVariant::Fireball,
        Icon::SpellFireDual => SpellVariant::Firebolt,
        Icon::SpellMeteor => SpellVariant::FireboltStorm,
        Icon::SpellFireWall => SpellVariant::FireWall,
        Icon::SpellFrost => SpellVariant::Frost,
        Icon::SpellFrostWall => SpellVariant::FrostWall,
        Icon::SpellWisp => SpellVariant::Guide,
        Icon::SpellHeal => SpellVariant::Heal,
        Icon::SpellIceShard => SpellVariant::IceSpike,
        Icon::SpellLight => SpellVariant::Light,
        Icon::SpellChainLightning => SpellVariant::LightningStorm,
        Icon::SpellReanimate => SpellVariant::Reanimate,
        Icon::SpellReflect => SpellVariant::Reflect,
        Icon::SpellRoot => SpellVariant::Root,
        Icon::SpellRune => SpellVariant::Rune,
        Icon::SpellShockStrong => SpellVariant::Shock,
        Icon::SpellSilence => SpellVariant::Silence,
        Icon::SpellTime => SpellVariant::SlowTime,
        Icon::SpellSoultrap => SpellVariant::SoulTrap,
        Icon::SpellShock => SpellVariant::Sparks,
        Icon::SpellSummon => SpellVariant::Summon,
        Icon::SpellTeleport => SpellVariant::Teleport,
        Icon::SpellTornado => SpellVariant::Tornado,
        Icon::SpellLightningBlast => SpellVariant::Thunderbolt,
        Icon::SpellHoly => SpellVariant::TurnUndead,
        Icon::SpellWard => SpellVariant::Ward,
        Icon::ArmorCloak => SpellVariant::Cloak(MagicDamageType::Plain),
    }
}

proof fn lemma_icon_owner(v: SpellVariant, school: SpellSchool)
    ensures
        forall|i: Icon| variant_icon(v, school) == IconSource::Icon(i) ==> icon_owner(i) == icon_group(v),
{
    match v {
        SpellVariant::BoundWeapon(w) => match w {
            BoundType::BattleAxe => {},
            BoundType::Bow => {},
            BoundType::Dagger => {},
            BoundType::Greatsword => {},
            BoundType::Hammer => {},
            BoundType::Mace => {},
            BoundType::Shield => {},
            BoundType::Sword => {},
            BoundType::WarAxe => {},
            BoundType::Unknown => {},
        },
        _ => {},
    }
}

/// The variants drawn with their school's icon, having none of their own.
pub open spec fn uses_school_icon(v: SpellVariant) -> bool {
    v == SpellVariant::Unknown || v == SpellVariant::Burden || v == SpellVariant::Banish
        || v == SpellVariant::Blizzard || v == SpellVariant::Calm || v == SpellVariant::IceStorm
        || v == SpellVariant::Invisibility || v == SpellVariant::LightningBolt
        || v == SpellVariant::Mayhem || v == SpellVariant::Pacify || v == SpellVariant::Paralyze
        || v == SpellVariant::Rally || v == SpellVariant::StormWall || v == SpellVariant::Thorns
}

/// Each variant is told apart by its icon: two variants drawn with the same
/// spell or item icon are the same variant or share that icon on purpose;
/// damage spells are drawn with their damage type's icon; exactly the
/// variants without an icon of their own use their school's.
pub proof fn law_icons_tell_variants_apart(a: SpellVariant, b: SpellVariant, school: SpellSchool)
    ensures
        variant_icon(a, school) is Icon && variant_icon(a, school) == variant_icon(b, school)
            ==> share_icon(a, b),
        (variant_icon(a, school) == IconSource::OfSchool(school)) <==> uses_school_icon(a),
        variant_icon(a, school) is OfSchool ==> variant_icon(a, school) == IconSource::OfSchool(
            school,
        ),
        forall|t: MagicDamageType|
            (variant_icon(a, school) == IconSource::OfDamage(t)) <==> a == SpellVariant::Damage(t),
        variant_icon(SpellVariant::Heal, school) == IconSource::Icon(Icon::SpellHeal),
        variant_icon(SpellVariant::Cure, school) == IconSource::Icon(Icon::SpellCure),
{
    lemma_icon_owner(a, school);
    lemma_icon_owner(b, school);
}

/// Colors: only cure and healing spells are green; only bound weapons,
/// guides, lights and soul traps are eldritch; only turn undead is drawn in
/// the sun's color; damage spells take their damage type's color; every other
/// variant has the default color.
pub proof fn law_colors(v: SpellVariant)
    ensures
        (variant_color(v) == SpellColor::Inventory(InvColor::Green)) <==> (v == SpellVariant::Cure
            || v == SpellVariant::Heal),
        (variant_color(v) == SpellColor::Inventory(InvColor::Eldritch)) <==> (v is BoundWeapon || v
            == SpellVariant::Guide || v == SpellVariant::Light || v == SpellVariant::SoulTrap),
        (variant_color(v) == SpellColor::Inventory(InvColor::Sun)) <==> v == SpellVariant::TurnUndead,
        forall|t: MagicDamageType|
            (variant_color(v) == SpellColor::OfDamage(t)) <==> v == SpellVariant::Damage(t),
        (variant_color(v) == SpellColor::Default) <==> !(v == SpellVariant::Cure || v
            == SpellVariant::Heal || v is BoundWeapon || v == SpellVariant::Guide || v
            == SpellVariant::Light || v == SpellVariant::SoulTrap || v == SpellVariant::TurnUndead
            || v is Damage),
{
}

/// With no keyword deciding it, a spell's archetype decides its variant: cures
/// are `Cure`, detect life and night eye are `Detect`, summoning a creature is
/// `Summon`, a cloak is a cloak of the spell's (filled in) damage type, a bound
/// weapon is a bound weapon of the kind its item names, spawned hazards are
/// walls or tornadoes by damage type, the archetypes named after a variant give
/// that variant, and the remaining archetypes leave the spell `Unknown`.
pub proof fn law_archetype_variants(data: SpellData, tags: Seq<SpellKeyword>, kind: BaseType)
    requires
        forall|i: int| 0 <= i < tags.len() ==> !is_classifying_keyword(#[trigger] tags[i]),
    ensures
        ({
            let v = variant_of(data, tags, kind);
            let d = spell_type_of(data, tags, kind).data.damage;
            let a = data.archetype;
            &&& a == SpellArchetype::CureDisease ==> v == SpellVariant::Cure
            &&& a == SpellArchetype::CurePoison ==> v == SpellVariant::Cure
            &&& a == SpellArchetype::CureParalysis ==> v == SpellVariant::Cure
            &&& a == SpellArchetype::Demoralize ==> v == SpellVariant::Demoralize
            &&& a == SpellArchetype::DetectLife ==> v == SpellVariant::Detect
            &&& a == SpellArchetype::NightEye ==> v == SpellVariant::Detect
            &&& a == SpellArchetype::Guide ==> v == SpellVariant::Guide
            &&& a == SpellArchetype::Light ==> v == SpellVariant::Light
            &&& a == SpellArchetype::Reanimate ==> v == SpellVariant::Reanimate
            &&& a == SpellArchetype::SoulTrap ==> v == SpellVariant::SoulTrap
            &&& a == SpellArchetype::SummonCreature ==> v == SpellVariant::Summon
            &&& a == SpellArchetype::EnhanceWeapon ==> v == SpellVariant::EnhanceWeapon
            &&& a == SpellArchetype::SlowTime ==> v == SpellVariant::SlowTime
            &&& a == SpellArchetype::Absorb ==> v == SpellVariant::Unknown
            &&& a == SpellArchetype::Banish ==> v == SpellVariant::Unknown
            &&& a == SpellArchetype::Calm ==> v == SpellVariant::Unknown
            &&& a == SpellArchetype::CommandSummoned ==> v == SpellVariant::Unknown
            &&& a == SpellArchetype::Darkness ==> v == SpellVariant::Unknown
            &&& a == SpellArchetype::Disarm ==> v == SpellVariant::Unknown
            &&& a == SpellArchetype::Disguise ==> v == SpellVariant::Unknown
            &&& a == SpellArchetype::Dispel ==> v == SpellVariant::Unknown
            &&& a == SpellArchetype::Etherealize ==> v == SpellVariant::Unknown
            &&& a == SpellArchetype::Frenzy ==> v == SpellVariant::Unknown
            &&& a == SpellArchetype::GrabActor ==> v == SpellVariant::Unknown
            &&& a == SpellArchetype::Invisibility ==> v == SpellVariant::Unknown
            &&& a == SpellArchetype::Lock ==> v == SpellVariant::Unknown
            &&& a == SpellArchetype::Open ==> v == SpellVariant::Unknown
            &&& a == SpellArchetype::Paralysis ==> v == SpellVariant::Unknown
            &&& a == SpellArchetype::Rally ==> v == SpellVariant::Unknown
            &&& a == SpellArchetype::Telekinesis ==> v == SpellVariant::Unknown
            &&& a == SpellArchetype::TurnUndead ==> v == SpellVariant::Unknown
            &&& a == SpellArchetype::Cloak ==> v == SpellVariant::Cloak(d)
            &&& a == SpellArchetype::BoundWeapon ==> v == SpellVariant::BoundWeapon(
                bound_type_of(data.associated@, kind),
            )
            &&& a == SpellArchetype::SpawnHazard && d == MagicDamageType::Fire ==> v == SpellVariant::FireWall
            &&& a == SpellArchetype::SpawnHazard && d == MagicDamageType::Frost ==> v == SpellVariant::FrostWall
            &&& a == SpellArchetype::SpawnHazard && d == MagicDamageType::Shock ==> v == SpellVariant::StormWall
            &&& a == SpellArchetype::SpawnHazard && d == MagicDamageType::Wind ==> v == SpellVariant::Tornado
            &&& a == SpellArchetype::SpawnHazard && d != MagicDamageType::Fire && d != MagicDamageType::Frost
                && d != MagicDamageType::Shock && d != MagicDamageType::Wind ==> v == SpellVariant::Unknown
        }),
{
    assert(!tags.contains(SpellKeyword::MAG_MagicEffectLight));
    assert(!tags.contains(SpellKeyword::MAG_MagicInfluenceParalysis));
    assert(!tags.contains(SpellKeyword::MAG_MagicInfluenceSilence));
    assert(!tags.contains(SpellKeyword::NAT_MagicRoot));
    assert(!tags.contains(SpellKeyword::MAG_MagicSoulTrap));
    assert(!tags.contains(SpellKeyword::MAG_MagicSummonReanimate));
    assert(!tags.contains(SpellKeyword::MAG_MagicSummonWeapon));
    assert(!tags.contains(SpellKeyword::MAG_MagicWeaponEnchantment));
    assert(!tags.contains(SpellKeyword::MAG_MagicWeightSpell));
    assert(!tags.contains(SpellKeyword::MAG_PoisonCloakSpell));
    assert(!tags.contains(SpellKeyword::MAG_WeapTypeBound));
    assert(!tags.contains(SpellKeyword::MagicFlameCloak));
}

/// Each keyword that decides a variant gives its own variant, whatever the
/// spell's data, when no keyword earlier in the order light, paralysis,
/// silence, root, soul trap, reanimate, summoned weapon, weapon enchantment,
/// weight, poison cloak, bound weapon type, flame cloak is present.
pub proof fn law_keyword_variants(data: SpellData, tags: Seq<SpellKeyword>, kind: BaseType)
    ensures
        ({
            let v = variant_of(data, tags, kind);
            &&& tags.contains(SpellKeyword::MAG_MagicEffectLight)
                ==> v == SpellVariant::Light
            &&& !tags.contains(SpellKeyword::MAG_MagicEffectLight) && tags.contains(SpellKeyword::MAG_MagicInfluenceParalysis)
                ==> v == SpellVariant::Paralyze
            &&& !tags.contains(SpellKeyword::MAG_MagicEffectLight) && !tags.contains(SpellKeyword::MAG_MagicInfluenceParalysis) && tags.contains(SpellKeyword::MAG_MagicInfluenceSilence)
                ==> v == SpellVariant::Silence
            &&& !tags.contains(SpellKeyword::MAG_MagicEffectLight) && !tags.contains(SpellKeyword::MAG_MagicInfluenceParalysis) && !tags.contains(SpellKeyword::MAG_MagicInfluenceSilence) && tags.contains(SpellKeyword::NAT_MagicRoot)
                ==> v == SpellVariant::Root
            &&& !tags.contains(SpellKeyword::MAG_MagicEffectLight) && !tags.contains(SpellKeyword::MAG_MagicInfluenceParalysis) && !tags.contains(SpellKeyword::MAG_MagicInfluenceSilence) && !tags.contains(SpellKeyword::NAT_MagicRoot) && tags.contains(SpellKeyword::MAG_MagicSoulTrap)
                ==> v == SpellVariant::SoulTrap
            &&& !tags.contains(SpellKeyword::MAG_MagicEffectLight) && !tags.contains(SpellKeyword::MAG_MagicInfluenceParalysis) && !tags.contains(SpellKeyword::MAG_MagicInfluenceSilence) && !tags.contains(SpellKeyword::NAT_MagicRoot) && !tags.contains(SpellKeyword::MAG_MagicSoulTrap) && tags.contains(SpellKeyword::MAG_MagicSummonReanimate)
                ==> v == SpellVariant::Reanimate
            &&& !tags.contains(SpellKeyword::MAG_MagicEffectLight) && !tags.contains(SpellKeyword::MAG_MagicInfluenceParalysis) && !tags.contains(SpellKeyword::MAG_MagicInfluenceSilence) && !tags.contains(SpellKeyword::NAT_MagicRoot) && !tags.contains(SpellKeyword::MAG_MagicSoulTrap) && !tags.contains(SpellKeyword::MAG_MagicSummonReanimate) && tags.contains(SpellKeyword::MAG_MagicSummonWeapon)
                ==> v == SpellVariant::BoundWeapon(bound_type_of(data.associated@, kind))
            &&& !tags.contains(SpellKeyword::MAG_MagicEffectLight) && !tags.contains(SpellKeyword::MAG_MagicInfluenceParalysis) && !tags.contains(SpellKeyword::MAG_MagicInfluenceSilence) && !tags.contains(SpellKeyword::NAT_MagicRoot) && !tags.contains(SpellKeyword::MAG_MagicSoulTrap) && !tags.contains(SpellKeyword::MAG_MagicSummonReanimate) && !tags.contains(SpellKeyword::MAG_MagicSummonWeapon) && tags.contains(SpellKeyword::MAG_MagicWeaponEnchantment)
                ==> v == SpellVariant::EnhanceWeapon
            &&& !tags.contains(SpellKeyword::MAG_MagicEffectLight) && !tags.contains(SpellKeyword::MAG_MagicInfluenceParalysis) && !tags.contains(SpellKeyword::MAG_MagicInfluenceSilence) && !tags.contains(SpellKeyword::NAT_MagicRoot) && !tags.contains(SpellKeyword::MAG_MagicSoulTrap) && !tags.contains(SpellKeyword::MAG_MagicSummonReanimate) && !tags.contains(SpellKeyword::MAG_MagicSummonWeapon) && !tags.contains(SpellKeyword::MAG_MagicWeaponEnchantment) && tags.contains(SpellKeyword::MAG_MagicWeightSpell)
                ==> v == SpellVariant::CarryWeight
            &&& !tags.contains(SpellKeyword::MAG_MagicEffectLight) && !tags.contains(SpellKeyword::MAG_MagicInfluenceParalysis) && !tags.contains(SpellKeyword::MAG_MagicInfluenceSilence) && !tags.contains(SpellKeyword::NAT_MagicRoot) && !tags.contains(SpellKeyword::MAG_MagicSoulTrap) && !tags.contains(SpellKeyword::MAG_MagicSummonReanimate) && !tags.contains(SpellKeyword::MAG_MagicSummonWeapon) && !tags.contains(SpellKeyword::MAG_MagicWeaponEnchantment) && !tags.contains(SpellKeyword::MAG_MagicWeightSpell) && tags.contains(SpellKeyword::MAG_PoisonCloakSpell)
                ==> v == SpellVariant::Cloak(MagicDamageType::Poison)
            &&& !tags.contains(SpellKeyword::MAG_MagicEffectLight) && !tags.contains(SpellKeyword::MAG_MagicInfluenceParalysis) && !tags.contains(SpellKeyword::MAG_MagicInfluenceSilence) && !tags.contains(SpellKeyword::NAT_MagicRoot) && !tags.contains(SpellKeyword::MAG_MagicSoulTrap) && !tags.contains(SpellKeyword::MAG_MagicSummonReanimate) && !tags.contains(SpellKeyword::MAG_MagicSummonWeapon) && !tags.contains(SpellKeyword::MAG_MagicWeaponEnchantment) && !tags.contains(SpellKeyword::MAG_MagicWeightSpell) && !tags.contains(SpellKeyword::MAG_PoisonCloakSpell) && tags.contains(SpellKeyword::MAG_WeapTypeBound)
                ==> v == SpellVariant::BoundWeapon(bound_type_of(data.associated@, kind))
            &&& !tags.contains(SpellKeyword::MAG_MagicEffectLight) && !tags.contains(SpellKeyword::MAG_MagicInfluenceParalysis) && !tags.contains(SpellKeyword::MAG_MagicInfluenceSilence) && !tags.contains(SpellKeyword::NAT_MagicRoot) && !tags.contains(SpellKeyword::MAG_MagicSoulTrap) && !tags.contains(SpellKeyword::MAG_MagicSummonReanimate) && !tags.contains(SpellKeyword::MAG_MagicSummonWeapon) && !tags.contains(SpellKeyword::MAG_MagicWeaponEnchantment) && !tags.contains(SpellKeyword::MAG_MagicWeightSpell) && !tags.contains(SpellKeyword::MAG_PoisonCloakSpell) && !tags.contains(SpellKeyword::MAG_WeapTypeBound) && tags.contains(SpellKeyword::MagicFlameCloak)
                ==> v == SpellVariant::Cloak(MagicDamageType::Fire)
        }),
{
}

/// The kind of weapon a bound-weapon spell summons: one-handed axes are war
/// axes, two-handed axes battle axes, every bow and crossbow a bow, daggers,
/// hammers and maces themselves, one-handed swords swords and two-handed
/// swords greatswords; any other item, or no item at all, is unknown.
pub proof fn law_bound_weapon_kinds(associated: Seq<char>, kind: BaseType)
    ensures
        associated.len() == 0 ==> bound_type_of(associated, kind) == BoundType::Unknown,
        associated.len() > 0 ==> ({
            let b = bound_type_of(associated, kind);
            &&& kind == BaseType::Weapon(WeaponType::AxeOneHanded) ==> b == BoundType::WarAxe
            &&& kind == BaseType::Weapon(WeaponType::AxeTwoHanded) ==> b == BoundType::BattleAxe
            &&& kind == BaseType::Weapon(WeaponType::Bow) ==> b == BoundType::Bow
            &&& kind == BaseType::Weapon(WeaponType::BowShort) ==> b == BoundType::Bow
            &&& kind == BaseType::Weapon(WeaponType::Crossbow) ==> b == BoundType::Bow
            &&& kind == BaseType::Weapon(WeaponType::Dagger) ==> b == BoundType::Dagger
            &&& kind == BaseType::Weapon(WeaponType::Hammer) ==> b == BoundType::Hammer
            &&& kind == BaseType::Weapon(WeaponType::Mace) ==> b == BoundType::Mace
            &&& kind == BaseType::Weapon(WeaponType::SwordOneHanded) ==> b == BoundType::Sword
            &&& kind == BaseType::Weapon(WeaponType::SwordTwoHanded) ==> b == BoundType::Greatsword
            &&& kind == BaseType::Weapon(WeaponType::Other) ==> b == BoundType::Unknown
            &&& kind == BaseType::Other ==> b == BoundType::Unknown
        }),
        bound_type_of(associated, kind) != BoundType::Shield,
{
}

/// The icon of each variant that has one of its own is the icon named after
/// what the spell does.
pub proof fn law_icon_of_each_variant(school: SpellSchool)
    ensures
        variant_icon(SpellVariant::Cure, school) == IconSource::Icon(Icon::SpellCure),
        variant_icon(SpellVariant::CarryWeight, school) == IconSource::Icon(Icon::SpellFeather),
        variant_icon(SpellVariant::Demoralize, school) == IconSource::Icon(Icon::SpellFear),
        variant_icon(SpellVariant::Detect, school) == IconSource::Icon(Icon::SpellDetect),
        variant_icon(SpellVariant::EnhanceWeapon, school) == IconSource::Icon(Icon::SpellSharpen),
        variant_icon(SpellVariant::Fear, school) == IconSource::Icon(Icon::SpellFear),
        variant_icon(SpellVariant::Fireball, school) == IconSource::Icon(Icon::SpellFireball),
        variant_icon(SpellVariant::Firebolt, school) == IconSource::Icon(Icon::SpellFireDual),
        variant_icon(SpellVariant::FireboltStorm, school) == IconSource::Icon(Icon::SpellMeteor),
        variant_icon(SpellVariant::FireWall, school) == IconSource::Icon(Icon::SpellFireWall),
        variant_icon(SpellVariant::Frost, school) == IconSource::Icon(Icon::SpellFrost),
        variant_icon(SpellVariant::FrostWall, school) == IconSource::Icon(Icon::SpellFrostWall),
        variant_icon(SpellVariant::Guide, school) == IconSource::Icon(Icon::SpellWisp),
        variant_icon(SpellVariant::Heal, school) == IconSource::Icon(Icon::SpellHeal),
        variant_icon(SpellVariant::IceSpike, school) == IconSource::Icon(Icon::SpellIceShard),
        variant_icon(SpellVariant::IcySpear, school) == IconSource::Icon(Icon::SpellIceShard),
        variant_icon(SpellVariant::Light, school) == IconSource::Icon(Icon::SpellLight),
        variant_icon(SpellVariant::LightningStorm, school) == IconSource::Icon(Icon::SpellChainLightning),
        variant_icon(SpellVariant::Reanimate, school) == IconSource::Icon(Icon::SpellReanimate),
        variant_icon(SpellVariant::Reflect, school) == IconSource::Icon(Icon::SpellReflect),
        variant_icon(SpellVariant::Root, school) == IconSource::Icon(Icon::SpellRoot),
        variant_icon(SpellVariant::Rout, school) == IconSource::Icon(Icon::SpellFear),
        variant_icon(SpellVariant::Rune, school) == IconSource::Icon(Icon::SpellRune),
        variant_icon(SpellVariant::Shock, school) == IconSource::Icon(Icon::SpellShockStrong),
        variant_icon(SpellVariant::Silence, school) == IconSource::Icon(Icon::SpellSilence),
        variant_icon(SpellVariant::SlowTime, school) == IconSource::Icon(Icon::SpellTime),
        variant_icon(SpellVariant::SoulTrap, school) == IconSource::Icon(Icon::SpellSoultrap),
        variant_icon(SpellVariant::Sparks, school) == IconSource::Icon(Icon::SpellShock),
        variant_icon(SpellVariant::Summon, school) == IconSource::Icon(Icon::SpellSummon),
        variant_icon(SpellVariant::Teleport, school) == IconSource::Icon(Icon::SpellTeleport),
        variant_icon(SpellVariant::Tornado, school) == IconSource::Icon(Icon::SpellTornado),
        variant_icon(SpellVariant::Thunderbolt, school) == IconSource::Icon(Icon::SpellLightningBlast),
        variant_icon(SpellVariant::TurnUndead, school) == IconSource::Icon(Icon::SpellHoly),
        variant_icon(SpellVariant::Ward, school) == IconSource::Icon(Icon::SpellWard),
        variant_icon(SpellVariant::BoundWeapon(BoundType::BattleAxe), school) == IconSource::Icon(Icon::WeaponAxeTwoHanded),
        variant_icon(SpellVariant::BoundWeapon(BoundType::Bow), school) == IconSource::Icon(Icon::WeaponBow),
        variant_icon(SpellVariant::BoundWeapon(BoundType::Dagger), school) == IconSource::Icon(Icon::WeaponDagger),
        variant_icon(SpellVariant::BoundWeapon(BoundType::Greatsword), school) == IconSource::Icon(Icon::WeaponSwordOneHanded),
        variant_icon(SpellVariant::BoundWeapon(BoundType::Hammer), school) == IconSource::Icon(Icon::WeaponHammer),
        variant_icon(SpellVariant::BoundWeapon(BoundType::Mace), school) == IconSource::Icon(Icon::WeaponMace),
        variant_icon(SpellVariant::BoundWeapon(BoundType::Shield), school) == IconSource::Icon(Icon::ArmorShieldHeavy),
        variant_icon(SpellVariant::BoundWeapon(BoundType::Sword), school) == IconSource::Icon(Icon::WeaponSwordOneHanded),
        variant_icon(SpellVariant::BoundWeapon(BoundType::WarAxe), school) == IconSource::Icon(Icon::WeaponAxeOneHanded),
        variant_icon(SpellVariant::BoundWeapon(BoundType::Unknown), school) == IconSource::Icon(Icon::WeaponSwordOneHanded),
        forall|t: MagicDamageType| variant_icon(SpellVariant::Cloak(t), school) == IconSource::Icon(Icon::ArmorCloak),
{
}

} // verus!
