//! Which icon and which color the HUD shows for a classified spell.

use vstd::prelude::*;

use crate::game::{MagicDamageType, SpellSchool};
use crate::spell::{BoundType, SpellType, SpellVariant};

verus! {

/// The inventory colors a spell can be drawn in.
#[derive(Clone, Copy, Debug, PartialEq, Eq, Structural, Hash)]
pub enum InvColor {
    Eldritch,
    Green,
    Sun,
}

/// The color a spell is drawn in.
#[derive(Clone, Copy, Debug, PartialEq, Eq, Structural, Hash)]
pub enum SpellColor {
    /// The HUD's default color.
    Default,
    /// One of the inventory colors.
    Inventory(InvColor),
    /// The color of a damage type.
    OfDamage(MagicDamageType),
}

/// The icons a spell can be drawn with.
#[derive(Clone, Copy, Debug, PartialEq, Eq, Structural, Hash)]
pub enum Icon {
    WeaponAxeTwoHanded,
    WeaponBow,
    WeaponDagger,
    WeaponSwordOneHanded,
    WeaponHammer,
    WeaponMace,
    ArmorShieldHeavy,
    WeaponAxeOneHanded,
    SpellCure,
    SpellFeather,
    ArmorCloak,
    SpellFear,
    SpellDetect,
    SpellSharpen,
    SpellFireball,
    SpellFireDual,
    SpellMeteor,
    SpellFireWall,
    SpellFrost,
    SpellFrostWall,
    SpellWisp,
    SpellHeal,
    SpellIceShard,
    SpellLight,
    SpellChainLightning,
    SpellReanimate,
    SpellReflect,
    SpellRoot,
    SpellRune,
    SpellShockStrong,
    SpellSilence,
    SpellTime,
    SpellSoultrap,
    SpellShock,
    SpellSummon,
    SpellTeleport,
    SpellTornado,
    SpellLightningBlast,
    SpellHoly,
    SpellWard,
}

/// The icon file a spell is drawn with.
#[derive(Clone, Copy, Debug, PartialEq, Eq, Structural, Hash)]
pub enum IconSource {
    /// A spell or item icon.
    Icon(Icon),
    /// The icon of a damage type.
    OfDamage(MagicDamageType),
    /// The icon of a school of magic, for spells with no icon of their own.
    OfSchool(SpellSchool),
}

/// The color of a spell of the given variant.
pub open spec fn variant_color(variant: SpellVariant) -> SpellColor {
    match variant {
        SpellVariant::BoundWeapon(_) | SpellVariant::Guide | SpellVariant::Light
        | SpellVariant::SoulTrap => SpellColor::Inventory(InvColor::Eldritch),
        SpellVariant::Cure | SpellVariant::Heal => SpellColor::Inventory(InvColor::Green),
        SpellVariant::TurnUndead => SpellColor::Inventory(InvColor::Sun),
        SpellVariant::Damage(t) => SpellColor::OfDamage(t),
        _ => SpellColor::Default,
    }
}

/// The icon of a spell of the given variant and school.
pub open spec fn variant_icon(variant: SpellVariant, school: SpellSchool) -> IconSource {
    match variant {
        SpellVariant::Unknown => IconSource::OfSchool(school),
        SpellVariant::BoundWeapon(w) => match w {
            BoundType::BattleAxe => IconSource::Icon(Icon::WeaponAxeTwoHanded),
            BoundType::Bow => IconSource::Icon(Icon::WeaponBow),
            BoundType::Dagger => IconSource::Icon(Icon::WeaponDagger),
            BoundType::Greatsword => IconSource::Icon(Icon::WeaponSwordOneHanded),
            BoundType::Hammer => IconSource::Icon(Icon::WeaponHammer),
            BoundType::Mace => IconSource::Icon(Icon::WeaponMace),
            BoundType::Shield => IconSource::Icon(Icon::ArmorShieldHeavy),
            BoundType::Sword => IconSource::Icon(Icon::WeaponSwordOneHanded),
            BoundType::WarAxe => IconSource::Icon(Icon::WeaponAxeOneHanded),
            BoundType::Unknown => IconSource::Icon(Icon::WeaponSwordOneHanded),
        },
        SpellVariant::Burden => IconSource::OfSchool(school),
        SpellVariant::Cure => IconSource::Icon(Icon::SpellCure),
        SpellVariant::Damage(t) => IconSource::OfDamage(t),
        SpellVariant::Banish => IconSource::OfSchool(school),
        SpellVariant::Blizzard => IconSource::OfSchool(school),
        SpellVariant::Calm => IconSource::OfSchool(school),
        SpellVariant::CarryWeight => IconSource::Icon(Icon::SpellFeather),
        SpellVariant::Cloak(_) => IconSource::Icon(Icon::ArmorCloak),
        SpellVariant::Demoralize => IconSource::Icon(Icon::SpellFear),
        SpellVariant::Detect => IconSource::Icon(Icon::SpellDetect),
        SpellVariant::EnhanceWeapon => IconSource::Icon(Icon::SpellSharpen),
        SpellVariant::Fear => IconSource::Icon(Icon::SpellFear),
        SpellVariant::Fireball => IconSource::Icon(Icon::SpellFireball),
        SpellVariant::Firebolt => IconSource::Icon(Icon::SpellFireDual),
        SpellVariant::FireboltStorm => IconSource::Icon(Icon::SpellMeteor),
        SpellVariant::FireWall => IconSource::Icon(Icon::SpellFireWall),
        SpellVariant::Frost => IconSource::Icon(Icon::SpellFrost),
        SpellVariant::FrostWall => IconSource::Icon(Icon::SpellFrostWall),
        SpellVariant::Guide => IconSource::Icon(Icon::SpellWisp),
        SpellVariant::Heal => IconSource::Icon(Icon::SpellHeal),
        SpellVariant::IceSpike => IconSource::Icon(Icon::SpellIceShard),
        SpellVariant::IceStorm => IconSource::OfSchool(school),
        SpellVariant::IcySpear => IconSource::Icon(Icon::SpellIceShard),
        SpellVariant::Invisibility => IconSource::OfSchool(school),
        SpellVariant::Light => IconSource::Icon(Icon::SpellLight),
        SpellVariant::LightningBolt => IconSource::OfSchool(school),
        SpellVariant::LightningStorm => IconSource::Icon(Icon::SpellChainLightning),
        SpellVariant::Mayhem => IconSource::OfSchool(school),
        SpellVariant::Pacify => IconSource::OfSchool(school),
        SpellVariant::Paralyze => IconSource::OfSchool(school),
        SpellVariant::Rally => IconSource::OfSchool(school),
        SpellVariant::Reanimate => IconSource::Icon(Icon::SpellReanimate),
        SpellVariant::Reflect => IconSource::Icon(Icon::SpellReflect),
        SpellVariant::Root => IconSource::Icon(Icon::SpellRoot),
        SpellVariant::Rout => IconSource::Icon(Icon::SpellFear),
        SpellVariant::Rune => IconSource::Icon(Icon::SpellRune),
        SpellVariant::Shock => IconSource::Icon(Icon::SpellShockStrong),
        SpellVariant::Silence => IconSource::Icon(Icon::SpellSilence),
        SpellVariant::SlowTime => IconSource::Icon(Icon::SpellTime),
        SpellVariant::SoulTrap => IconSource::Icon(Icon::SpellSoultrap),
        SpellVariant::Sparks => IconSource::Icon(Icon::SpellShock),
        SpellVariant::StormWall => IconSource::OfSchool(school),
        SpellVariant::Summon => IconSource::Icon(Icon::SpellSummon),
        SpellVariant::Teleport => IconSource::Icon(Icon::SpellTeleport),
        SpellVariant::Tornado => IconSource::Icon(Icon::SpellTornado),
        SpellVariant::Thorns => IconSource::OfSchool(school),
        SpellVariant::Thunderbolt => IconSource::Icon(Icon::SpellLightningBlast),
        SpellVariant::TurnUndead => IconSource::Icon(Icon::SpellHoly),
        SpellVariant::Ward => IconSource::Icon(Icon::SpellWard),
    }
}

impl SpellType {
    /// The color this spell is drawn in.
    pub fn color(&self) -> (c: SpellColor)
        ensures
            c == variant_color(self.variant),
    {
        let variant = self.variant;
        match variant {
            SpellVariant::Unknown => SpellColor::Default,
            SpellVariant::BoundWeapon(_) => SpellColor::Inventory(InvColor::Eldritch),
            SpellVariant::Burden => SpellColor::Default,
            SpellVariant::Cure => SpellColor::Inventory(InvColor::Green),
            SpellVariant::Damage(t) => SpellColor::OfDamage(t),
            SpellVariant::Demoralize => SpellColor::Default,
            SpellVariant::Detect => SpellColor::Default,
            SpellVariant::CarryWeight => SpellColor::Default,
            SpellVariant::Guide => SpellColor::Inventory(InvColor::Eldritch),
            SpellVariant::Heal => SpellColor::Inventory(InvColor::Green),
            SpellVariant::Light => SpellColor::Inventory(InvColor::Eldritch),
            SpellVariant::Reanimate => SpellColor::Default,
            SpellVariant::Reflect => SpellColor::Default,
            SpellVariant::Rune => SpellColor::Default,
            SpellVariant::SoulTrap => SpellColor::Inventory(InvColor::Eldritch),
            SpellVariant::Summon => SpellColor::Default,
            SpellVariant::Teleport => SpellColor::Default,
            SpellVariant::TurnUndead => SpellColor::Inventory(InvColor::Sun),
            SpellVariant::Ward => SpellColor::Default,
            _ => SpellColor::Default,
        }
    }

    /// The icon this spell is drawn with.
    pub fn icon_file(&self) -> (i: IconSource)
        ensures
            i == variant_icon(self.variant, self.data.school),
    {
        let variant = self.variant;
        match variant {
            SpellVariant::Unknown => self.icon_fallback(),
            SpellVariant::BoundWeapon(w) => match w {
                BoundType::BattleAxe => IconSource::Icon(Icon::WeaponAxeTwoHanded),
                BoundType::Bow => IconSource::Icon(Icon::WeaponBow),
                BoundType::Dagger => IconSource::Icon(Icon::WeaponDagger),
                BoundType::Greatsword => IconSource::Icon(Icon::WeaponSwordOneHanded),
                BoundType::Hammer => IconSource::Icon(Icon::WeaponHammer),
                BoundType::Mace => IconSource::Icon(Icon::WeaponMace),
                BoundType::Shield => IconSource::Icon(Icon::ArmorShieldHeavy),
                BoundType::Sword => IconSource::Icon(Icon::WeaponSwordOneHanded),
                BoundType::WarAxe => IconSource::Icon(Icon::WeaponAxeOneHanded),
                BoundType::Unknown => IconSource::Icon(Icon::WeaponSwordOneHanded),
            },
            SpellVariant::Burden => self.icon_fallback(),
            SpellVariant::Cure => IconSource::Icon(Icon::SpellCure),
            SpellVariant::Damage(t) => IconSource::OfDamage(t),
            SpellVariant::Banish => self.icon_fallback(),
            SpellVariant::Blizzard => self.icon_fallback(),
            SpellVariant::Calm => self.icon_fallback(),
            SpellVariant::CarryWeight => IconSource::Icon(Icon::SpellFeather),
            SpellVariant::Cloak(_) => IconSource::Icon(Icon::ArmorCloak),
            SpellVariant::Demoralize => IconSource::Icon(Icon::SpellFear),
            SpellVariant::Detect => IconSource::Icon(Icon::SpellDetect),
            SpellVariant::EnhanceWeapon => IconSource::Icon(Icon::SpellSharpen),
            SpellVariant::Fear => IconSource::Icon(Icon::SpellFear),
            SpellVariant::Fireball => IconSource::Icon(Icon::SpellFireball),
            SpellVariant::Firebolt => IconSource::Icon(Icon::SpellFireDual),
            SpellVariant::FireboltStorm => IconSource::Icon(Icon::SpellMeteor),
            SpellVariant::FireWall => IconSource::Icon(Icon::SpellFireWall),
            SpellVariant::Frost => IconSource::Icon(Icon::SpellFrost),
            SpellVariant::FrostWall => IconSource::Icon(Icon::SpellFrostWall),
            SpellVariant::Guide => IconSource::Icon(Icon::SpellWisp),
            SpellVariant::Heal => IconSource::Icon(Icon::SpellHeal),
            SpellVariant::IceSpike => IconSource::Icon(Icon::SpellIceShard),
            SpellVariant::IceStorm => self.icon_fallback(),
            SpellVariant::IcySpear => IconSource::Icon(Icon::SpellIceShard),
            SpellVariant::Invisibility => self.icon_fallback(),
            SpellVariant::Light => IconSource::Icon(Icon::SpellLight),
            SpellVariant::LightningBolt => self.icon_fallback(),
            SpellVariant::LightningStorm => IconSource::Icon(Icon::SpellChainLightning),
            SpellVariant::Mayhem => self.icon_fallback(),
            SpellVariant::Pacify => self.icon_fallback(),
            SpellVariant::Paralyze => self.icon_fallback(),
            SpellVariant::Rally => self.icon_fallback(),
            SpellVariant::Reanimate => IconSource::Icon(Icon::SpellReanimate),
            SpellVariant::Reflect => IconSource::Icon(Icon::SpellReflect),
            SpellVariant::Root => IconSource::Icon(Icon::SpellRoot),
            SpellVariant::Rout => IconSource::Icon(Icon::SpellFear),
            SpellVariant::Rune => IconSource::Icon(Icon::SpellRune),
            SpellVariant::Shock => IconSource::Icon(Icon::SpellShockStrong),
            SpellVariant::Silence => IconSource::Icon(Icon::SpellSilence),
            SpellVariant::SlowTime => IconSource::Icon(Icon::SpellTime),
            SpellVariant::SoulTrap => IconSource::Icon(Icon::SpellSoultrap),
            SpellVariant::Sparks => IconSource::Icon(Icon::SpellShock),
            SpellVariant::StormWall => self.icon_fallback(),
            SpellVariant::Summon => IconSource::Icon(Icon::SpellSummon),
            SpellVariant::Teleport => IconSource::Icon(Icon::SpellTeleport),
            SpellVariant::Tornado => IconSource::Icon(Icon::SpellTornado),
            SpellVariant::Thorns => self.icon_fallback(),
            SpellVariant::Thunderbolt => IconSource::Icon(Icon::SpellLightningBlast),
            SpellVariant::TurnUndead => IconSource::Icon(Icon::SpellHoly),
            SpellVariant::Ward => IconSource::Icon(Icon::SpellWard),
        }
    }

    /// The icon for a spell with no icon of its own: its school's.
    pub fn icon_fallback(&self) -> (i: IconSource)
        ensures
            i == IconSource::OfSchool(self.data.school),
    {
        IconSource::OfSchool(self.data.school)
    }
}

} // verus!
