//! Deciding which variant a spell is, from its keywords and its data.
//!
//! Magic overhauls move spells from one school to another, so the
//! classification looks at every school alike. Keywords are consulted first;
//! only when no keyword classifies the spell does the classification look at
//! the spell's archetype.

use vstd::prelude::*;

use crate::game::{ActorValue, BaseType, MagicDamageType, SpellArchetype, SpellData, WeaponType};
use crate::keyword::{has_keyword, recognize_keywords, recognized, SpellKeyword};

verus! {

/// The kind of weapon a bound-weapon spell summons.
#[derive(Clone, Copy, Debug, PartialEq, Eq, Structural, Hash)]
pub enum BoundType {
    BattleAxe,
    Bow,
    Dagger,
    Greatsword,
    Hammer,
    Mace,
    Shield,
    Sword,
    WarAxe,
    Unknown,
}

impl Default for BoundType {
    fn default() -> (b: BoundType)
        ensures
            b == BoundType::Unknown,
    {
        BoundType::Unknown
    }
}

/// What a spell does, as far as the HUD distinguishes spells.
#[derive(Clone, Copy, Debug, PartialEq, Eq, Structural, Hash)]
pub enum SpellVariant {
    Unknown,
    Banish,
    Blizzard,
    BoundWeapon(BoundType),
    Burden,
    Calm,
    CarryWeight,
    Cloak(MagicDamageType),
    Cure,
    Damage(MagicDamageType),
    Demoralize,
    Detect,
    EnhanceWeapon,
    Fear,
    Fireball,
    Firebolt,
    FireWall,
    FireboltStorm,
    Frost,
    FrostWall,
    Guide,
    Heal,
    IceSpike,
    IceStorm,
    IcySpear,
    Invisibility,
    Light,
    LightningBolt,
    LightningStorm,
    Mayhem,
    Pacify,
    Paralyze,
    Rally,
    Reanimate,
    Reflect,
    Root,
    Rout,
    Rune,
    Shock,
    Silence,
    SlowTime,
    Sparks,
    SoulTrap,
    StormWall,
    Summon,
    Teleport,
    Thorns,
    Thunderbolt,
    Tornado,
    TurnUndead,
    Ward,
}

impl Default for SpellVariant {
    fn default() -> (v: SpellVariant)
        ensures
            v == SpellVariant::Unknown,
    {
        SpellVariant::Unknown
    }
}

/// A spell together with the variant it was classified as.
#[derive(Clone, Debug, PartialEq, Eq, Hash)]
pub struct SpellType {
    pub data: SpellData,
    pub variant: SpellVariant,
}

/// The kind of weapon that a bound-weapon spell summons: `Unknown` when the
/// spell names no item, otherwise decided by the kind of the item it names.
pub open spec fn bound_type_of(associated: Seq<char>, kind: BaseType) -> BoundType {
    if associated.len() == 0 {
        BoundType::Unknown
    } else {
        match kind {
            BaseType::Weapon(w) => match w {
                WeaponType::AxeOneHanded => BoundType::WarAxe,
                WeaponType::AxeTwoHanded => BoundType::BattleAxe,
                WeaponType::BowShort => BoundType::Bow,
                WeaponType::Bow => BoundType::Bow,
                WeaponType::Crossbow => BoundType::Bow,
                WeaponType::Dagger => BoundType::Dagger,
                WeaponType::Hammer => BoundType::Hammer,
                WeaponType::Mace => BoundType::Mace,
                WeaponType::SwordOneHanded => BoundType::Sword,
                WeaponType::SwordTwoHanded => BoundType::Greatsword,
                WeaponType::Other => BoundType::Unknown,
            },
            BaseType::Other => BoundType::Unknown,
        }
    }
}

/// The damage type that a spell's keywords give it, `Plain` when none does.
/// Earlier keywords in this list win over later ones.
pub open spec fn keyword_damage(tags: Seq<SpellKeyword>) -> MagicDamageType {
    if tags.contains(SpellKeyword::MAG_MagicDamageBleed) {
        MagicDamageType::Bleed
    } else if tags.contains(SpellKeyword::IconMagicEarth) {
        MagicDamageType::Earth
    } else if tags.contains(SpellKeyword::MagicDamageLunar) {
        MagicDamageType::Lunar
    } else if tags.contains(SpellKeyword::MAG_MagicDamagePoison) {
        MagicDamageType::Poison
    } else if tags.contains(SpellKeyword::MAG_MagicDamageStamina) {
        MagicDamageType::Stamina
    } else if tags.contains(SpellKeyword::MAG_MagicDamageSun) {
        MagicDamageType::Sun
    } else if tags.contains(SpellKeyword::IconMagicWater) {
        MagicDamageType::Water
    } else if tags.contains(SpellKeyword::IconMagicWind) {
        MagicDamageType::Wind
    } else if tags.contains(SpellKeyword::DAR_UnspecificMagicDamage) {
        MagicDamageType::Other
    } else {
        MagicDamageType::Plain
    }
}

/// The damage type a spell ends up with: the game's own, unless the game
/// reports none, in which case the one its keywords give it.
pub open spec fn filled_damage(damage: MagicDamageType, tags: Seq<SpellKeyword>) -> MagicDamageType {
    if damage == MagicDamageType::Plain {
        keyword_damage(tags)
    } else {
        damage
    }
}

/// The variant that a spell's keywords alone decide, if any does. Earlier
/// keywords in this list win over later ones.
pub open spec fn keyword_variant(
    tags: Seq<SpellKeyword>,
    associated: Seq<char>,
    kind: BaseType,
) -> Option<SpellVariant> {
    if tags.contains(SpellKeyword::MAG_MagicEffectLight) {
        Some(SpellVariant::Light)
    } else if tags.contains(SpellKeyword::MAG_MagicInfluenceParalysis) {
        Some(SpellVariant::Paralyze)
    } else if tags.contains(SpellKeyword::MAG_MagicInfluenceSilence) {
        Some(SpellVariant::Silence)
    } else if tags.contains(SpellKeyword::NAT_MagicRoot) {
        Some(SpellVariant::Root)
    } else if tags.contains(SpellKeyword::MAG_MagicSoulTrap) {
        Some(SpellVariant::SoulTrap)
    } else if tags.contains(SpellKeyword::MAG_MagicSummonReanimate) {
        Some(SpellVariant::Reanimate)
    } else if tags.contains(SpellKeyword::MAG_MagicSummonWeapon) {
        Some(SpellVariant::BoundWeapon(bound_type_of(associated, kind)))
    } else if tags.contains(SpellKeyword::MAG_MagicWeaponEnchantment) {
        Some(SpellVariant::EnhanceWeapon)
    } else if tags.contains(SpellKeyword::MAG_MagicWeightSpell) {
        Some(SpellVariant::CarryWeight)
    } else if tags.contains(SpellKeyword::MAG_PoisonCloakSpell) {
        Some(SpellVariant::Cloak(MagicDamageType::Poison))
    } else if tags.contains(SpellKeyword::MAG_WeapTypeBound) {
        Some(SpellVariant::BoundWeapon(bound_type_of(associated, kind)))
    } else if tags.contains(SpellKeyword::MagicFlameCloak) {
        Some(SpellVariant::Cloak(MagicDamageType::Fire))
    } else {
        None
    }
}

/// The variant of a value-modifying spell: damage of the spell's damage type
/// when it is hostile and touches health, healing when it is friendly and
/// touches health, and none otherwise.
pub open spec fn value_mod_variant(data: SpellData) -> Option<SpellVariant> {
    if data.effect == ActorValue::Health {
        if data.hostile {
            Some(SpellVariant::Damage(data.damage))
        } else {
            Some(SpellVariant::Heal)
        }
    } else {
        None
    }
}

/// Spells that spawn a hazard of earth damage are not classified; a spell
/// is in this case when no keyword decides its variant.
pub open spec fn unsupported_hazard(data: SpellData) -> bool {
    data.archetype == SpellArchetype::SpawnHazard && data.damage == MagicDamageType::Earth
}

/// The variant that a spell's archetype decides, if any does. `data` is the
/// spell's data with its damage type already filled in.
pub open spec fn archetype_variant(data: SpellData, kind: BaseType) -> Option<SpellVariant> {
    match data.archetype {
        SpellArchetype::ValueModifier => value_mod_variant(data),
        SpellArchetype::PeakValueModifier => value_mod_variant(data),
        SpellArchetype::DualValueModifier => value_mod_variant(data),
        SpellArchetype::BoundWeapon => Some(
            SpellVariant::BoundWeapon(bound_type_of(data.associated@, kind)),
        ),
        SpellArchetype::CureDisease => Some(SpellVariant::Cure),
        SpellArchetype::CurePoison => Some(SpellVariant::Cure),
        SpellArchetype::CureParalysis => Some(SpellVariant::Cure),
        SpellArchetype::Demoralize => Some(SpellVariant::Demoralize),
        SpellArchetype::DetectLife => Some(SpellVariant::Detect),
        SpellArchetype::Guide => Some(SpellVariant::Guide),
        SpellArchetype::Light => Some(SpellVariant::Light),
        SpellArchetype::Reanimate => Some(SpellVariant::Reanimate),
        SpellArchetype::SoulTrap => Some(SpellVariant::SoulTrap),
        SpellArchetype::SummonCreature => Some(SpellVariant::Summon),
        SpellArchetype::Cloak => Some(SpellVariant::Cloak(data.damage)),
        SpellArchetype::EnhanceWeapon => Some(SpellVariant::EnhanceWeapon),
        SpellArchetype::NightEye => Some(SpellVariant::Detect),
        SpellArchetype::SlowTime => Some(SpellVariant::SlowTime),
        SpellArchetype::SpawnHazard => match data.damage {
            MagicDamageType::Fire => Some(SpellVariant::FireWall),
            MagicDamageType::Frost => Some(SpellVariant::FrostWall),
            MagicDamageType::Shock => Some(SpellVariant::StormWall),
            MagicDamageType::Wind => Some(SpellVariant::Tornado),
            _ => None,
        },
        _ => None,
    }
}

/// The spell's data once its damage type has been filled in from its
/// keywords.
pub open spec fn filled_data(data: SpellData, tags: Seq<SpellKeyword>) -> SpellData {
    SpellData {
        hostile: data.hostile,
        effect: data.effect,
        damage: filled_damage(data.damage, tags),
        school: data.school,
        archetype: data.archetype,
        associated: data.associated,
    }
}

/// Whether the spell can be classified at all: every spell can, except one
/// that no keyword classifies and that spawns a hazard of earth damage.
pub open spec fn classifiable(data: SpellData, tags: Seq<SpellKeyword>, kind: BaseType) -> bool {
    !(keyword_variant(tags, data.associated@, kind) is None && unsupported_hazard(
        filled_data(data, tags),
    ))
}

/// The variant of a spell: the one its keywords decide, else the one its
/// archetype decides, else `Unknown`.
pub open spec fn variant_of(data: SpellData, tags: Seq<SpellKeyword>, kind: BaseType) -> SpellVariant {
    match keyword_variant(tags, data.associated@, kind) {
        Some(v) => v,
        None => match archetype_variant(filled_data(data, tags), kind) {
            Some(v) => v,
            None => SpellVariant::Unknown,
        },
    }
}

/// The classified spell.
pub open spec fn spell_type_of(data: SpellData, tags: Seq<SpellKeyword>, kind: BaseType) -> SpellType {
    SpellType { data: filled_data(data, tags), variant: variant_of(data, tags, kind) }
}

/// The kind of weapon a bound-weapon spell summons, given the form spec of the
/// item it names and what kind of item that form spec names.
pub fn bound_weapon_type(associated: &String, kind: BaseType) -> (b: BoundType)
    ensures
        b == bound_type_of(associated@, kind),
{
    if associated.as_str().is_empty() {
        return BoundType::Unknown;
    }
    match kind {
        BaseType::Weapon(w) => match w {
            WeaponType::AxeOneHanded => BoundType::WarAxe,
            WeaponType::AxeTwoHanded => BoundType::BattleAxe,
            WeaponType::BowShort => BoundType::Bow,
            WeaponType::Bow => BoundType::Bow,
            WeaponType::Crossbow => BoundType::Bow,
            WeaponType::Dagger => BoundType::Dagger,
            WeaponType::Hammer => BoundType::Hammer,
            WeaponType::Mace => BoundType::Mace,
            WeaponType::SwordOneHanded => BoundType::Sword,
            WeaponType::SwordTwoHanded => BoundType::Greatsword,
            WeaponType::Other => BoundType::Unknown,
        },
        BaseType::Other => BoundType::Unknown,
    }
}

/// The variant of a value-modifying spell (see [`value_mod_variant`]).
pub fn classify_value_mod_archetype(data: &SpellData) -> (v: Option<SpellVariant>)
    ensures
        v == value_mod_variant(*data),
        data.effect != ActorValue::Health ==> v is None,
        data.effect == ActorValue::Health && data.hostile ==> v == Some(SpellVariant::Damage(data.damage)),
        data.effect == ActorValue::Health && !data.hostile ==> v == Some(SpellVariant::Heal),
{
    match data.effect {
        ActorValue::Health => {
            if data.hostile {
                Some(SpellVariant::Damage(data.damage))
            } else {
                Some(SpellVariant::Heal)
            }
        },
        _ => None,
    }
}

impl SpellType {
    /// Classifies a spell from its data and the keyword strings attached to it.
    ///
    /// `associated_kind` is what kind of item the spell's `associated` form
    /// spec names; it is consulted only for bound-weapon spells whose form spec
    /// is not empty.
    pub fn new(data: SpellData, keywords: Vec<String>, associated_kind: BaseType) -> (s: Self)
        requires
            classifiable(data, recognized(keywords@), associated_kind),
        ensures
            s == spell_type_of(data, recognized(keywords@), associated_kind),
            data.damage != MagicDamageType::Plain ==> s.data.damage == data.damage,
            data.damage == MagicDamageType::Plain ==> s.data.damage == keyword_damage(
                recognized(keywords@),
            ),
    {
        let tags = recognize_keywords(&keywords);
        let mut data = data;

        data.damage = if data.damage == MagicDamageType::Plain {
            if has_keyword(&tags, SpellKeyword::MAG_MagicDamageBleed) {
                MagicDamageType::Bleed
            } else if has_keyword(&tags, SpellKeyword::IconMagicEarth) {
                MagicDamageType::Earth
            } else if has_keyword(&tags, SpellKeyword::MagicDamageLunar) {
                MagicDamageType::Lunar
            } else if has_keyword(&tags, SpellKeyword::MAG_MagicDamagePoison) {
                MagicDamageType::Poison
            } else if has_keyword(&tags, SpellKeyword::MAG_MagicDamageStamina) {
                MagicDamageType::Stamina
            } else if has_keyword(&tags, SpellKeyword::MAG_MagicDamageSun) {
                MagicDamageType::Sun
            } else if has_keyword(&tags, SpellKeyword::IconMagicWater) {
                MagicDamageType::Water
            } else if has_keyword(&tags, SpellKeyword::IconMagicWind) {
                MagicDamageType::Wind
            } else if has_keyword(&tags, SpellKeyword::DAR_UnspecificMagicDamage) {
                MagicDamageType::Other
            } else {
                MagicDamageType::Plain
            }
        } else {
            data.damage
        };

        // Keywords classify the spell if they can; otherwise its archetype does.
        let variant = if has_keyword(&tags, SpellKeyword::MAG_MagicEffectLight) {
            Some(SpellVariant::Light)
        } else if has_keyword(&tags, SpellKeyword::MAG_MagicInfluenceParalysis) {
            Some(SpellVariant::Paralyze)
        } else if has_keyword(&tags, SpellKeyword::MAG_MagicInfluenceSilence) {
            Some(SpellVariant::Silence)
        } else if has_keyword(&tags, SpellKeyword::NAT_MagicRoot) {
            Some(SpellVariant::Root)
        } else if has_keyword(&tags, SpellKeyword::MAG_MagicSoulTrap) {
            Some(SpellVariant::SoulTrap)
        } else if has_keyword(&tags, SpellKeyword::MAG_MagicSummonReanimate) {
            Some(SpellVariant::Reanimate)
        } else if has_keyword(&tags, SpellKeyword::MAG_MagicSummonWeapon) {
            Some(SpellVariant::BoundWeapon(bound_weapon_type(&data.associated, associated_kind)))
        } else if has_keyword(&tags, SpellKeyword::MAG_MagicWeaponEnchantment) {
            Some(SpellVariant::EnhanceWeapon)
        } else if has_keyword(&tags, SpellKeyword::MAG_MagicWeightSpell) {
            Some(SpellVariant::CarryWeight)
        } else if has_keyword(&tags, SpellKeyword::MAG_PoisonCloakSpell) {
            Some(SpellVariant::Cloak(MagicDamageType::Poison))
        } else if has_keyword(&tags, SpellKeyword::MAG_WeapTypeBound) {
            Some(SpellVariant::BoundWeapon(bound_weapon_type(&data.associated, associated_kind)))
        } else if has_keyword(&tags, SpellKeyword::MagicFlameCloak) {
            Some(SpellVariant::Cloak(MagicDamageType::Fire))
        } else {
            match data.archetype {
                SpellArchetype::ValueModifier => classify_value_mod_archetype(&data),
                SpellArchetype::PeakValueModifier => classify_value_mod_archetype(&data),
                SpellArchetype::DualValueModifier => classify_value_mod_archetype(&data),
                SpellArchetype::BoundWeapon => {
                    let weaptype = bound_weapon_type(&data.associated, associated_kind);
                    Some(SpellVariant::BoundWeapon(weaptype))
                },
                SpellArchetype::CureDisease => Some(SpellVariant::Cure),
                SpellArchetype::CurePoison => Some(SpellVariant::Cure),
                SpellArchetype::CureParalysis => Some(SpellVariant::Cure),
                SpellArchetype::Demoralize => Some(SpellVariant::Demoralize),
                SpellArchetype::DetectLife => Some(SpellVariant::Detect),
                SpellArchetype::Guide => Some(SpellVariant::Guide),
                SpellArchetype::Light => Some(SpellVariant::Light),
                SpellArchetype::Reanimate => Some(SpellVariant::Reanimate),
                SpellArchetype::SoulTrap => Some(SpellVariant::SoulTrap),
                SpellArchetype::SummonCreature => Some(SpellVariant::Summon),
                SpellArchetype::Cloak => Some(SpellVariant::Cloak(data.damage)),
                SpellArchetype::EnhanceWeapon => Some(SpellVariant::EnhanceWeapon),
                SpellArchetype::NightEye => Some(SpellVariant::Detect),
                SpellArchetype::SlowTime => Some(SpellVariant::SlowTime),
                SpellArchetype::SpawnHazard => {
                    match data.damage {
                        MagicDamageType::Fire => Some(SpellVariant::FireWall),
                        MagicDamageType::Frost => Some(SpellVariant::FrostWall),
                        MagicDamageType::Shock => Some(SpellVariant::StormWall),
                        MagicDamageType::Wind => Some(SpellVariant::Tornado),
                        _ => None,
                    }
                },
                _ => None,
            }
        };

        let variant = match variant {
            Some(v) => v,
            None => SpellVariant::Unknown,
        };

        SpellType { data, variant }
    }
}

} // verus!
