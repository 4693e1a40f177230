//! The game-side description of a spell, as plain values.

use vstd::prelude::*;

verus! {

/// The damage type of a spell's effect.
#[derive(Clone, Copy, Debug, PartialEq, Eq, Structural, Hash)]
pub enum MagicDamageType {
    /// No damage type (the game's `None`).
    Plain,
    Bleed,
    Earth,
    Fire,
    Frost,
    Lunar,
    Other,
    Poison,
    Shock,
    Stamina,
    Sun,
    Water,
    Wind,
}

/// The archetype the game assigns to a spell's main magic effect.
#[derive(Clone, Copy, Debug, PartialEq, Eq, Structural, Hash)]
pub enum SpellArchetype {
    Absorb,
    Banish,
    BoundWeapon,
    Calm,
    Cloak,
    CommandSummoned,
    CureDisease,
    CureParalysis,
    CurePoison,
    Darkness,
    Demoralize,
    DetectLife,
    Disarm,
    Disguise,
    Dispel,
    DualValueModifier,
    EnhanceWeapon,
    Etherealize,
    Frenzy,
    GrabActor,
    Guide,
    Invisibility,
    Light,
    Lock,
    NightEye,
    Open,
    Paralysis,
    PeakValueModifier,
    Rally,
    Reanimate,
    SlowTime,
    SoulTrap,
    SpawnHazard,
    SummonCreature,
    Telekinesis,
    TurnUndead,
    ValueModifier,
}

/// The actor value that a spell's main effect modifies.
#[derive(Clone, Copy, Debug, PartialEq, Eq, Structural, Hash)]
pub enum ActorValue {
    Health,
    Magicka,
    Stamina,
    Other,
}

/// The school of magic a spell belongs to.
#[derive(Clone, Copy, Debug, PartialEq, Eq, Structural, Hash)]
pub enum SpellSchool {
    Alteration,
    Conjuration,
    Destruction,
    Illusion,
    Restoration,
}

/// The kinds of weapon that the game distinguishes, as far as a bound
/// weapon's kind depends on them.
#[derive(Clone, Copy, Debug, PartialEq, Eq, Structural, Hash)]
pub enum WeaponType {
    AxeOneHanded,
    AxeTwoHanded,
    Bow,
    BowShort,
    Crossbow,
    Dagger,
    Hammer,
    Mace,
    SwordOneHanded,
    SwordTwoHanded,
    Other,
}

/// What kind of item a form spec names, as far as a bound weapon's kind
/// depends on it.
#[derive(Clone, Copy, Debug, PartialEq, Eq, Structural, Hash)]
pub enum BaseType {
    Weapon(WeaponType),
    Other,
}

/// What the game reports about a spell.
#[derive(Clone, Debug, PartialEq, Eq, Hash)]
pub struct SpellData {
    pub hostile: bool,
    pub effect: ActorValue,
    pub damage: MagicDamageType,
    pub school: SpellSchool,
    pub archetype: SpellArchetype,
    /// The form spec of the item a bound-weapon spell summons; empty when
    /// the spell summons nothing.
    pub associated: String,
}

} // verus!
