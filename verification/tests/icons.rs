use spell_classify::game::{ActorValue, BaseType, MagicDamageType, SpellArchetype, SpellData, SpellSchool};
use spell_classify::icon::{Icon, IconSource, InvColor, SpellColor};
use spell_classify::spell::{BoundType, SpellType, SpellVariant};

fn spell(variant: SpellVariant, school: SpellSchool) -> SpellType {
    SpellType {
        data: SpellData {
            hostile: false,
            effect: ActorValue::Health,
            damage: MagicDamageType::Plain,
            school,
            archetype: SpellArchetype::Calm,
            associated: String::new(),
        },
        variant,
    }
}

#[test]
fn colors() {
    let cases = [
        (SpellVariant::Unknown, SpellColor::Default),
        (SpellVariant::BoundWeapon(BoundType::Bow), SpellColor::Inventory(InvColor::Eldritch)),
        (SpellVariant::Cure, SpellColor::Inventory(InvColor::Green)),
        (SpellVariant::Heal, SpellColor::Inventory(InvColor::Green)),
        (SpellVariant::Damage(MagicDamageType::Sun), SpellColor::OfDamage(MagicDamageType::Sun)),
        (SpellVariant::Guide, SpellColor::Inventory(InvColor::Eldritch)),
        (SpellVariant::Light, SpellColor::Inventory(InvColor::Eldritch)),
        (SpellVariant::SoulTrap, SpellColor::Inventory(InvColor::Eldritch)),
        (SpellVariant::TurnUndead, SpellColor::Inventory(InvColor::Sun)),
        (SpellVariant::Ward, SpellColor::Default),
        (SpellVariant::Fireball, SpellColor::Default),
        (SpellVariant::Cloak(MagicDamageType::Fire), SpellColor::Default),
    ];
    for (v, expected) in cases {
        assert_eq!(spell(v, SpellSchool::Destruction).color(), expected, "{:?}", v);
    }
}

#[test]
fn icons() {
    let cases = [
        (SpellVariant::Cure, IconSource::Icon(Icon::SpellCure)),
        (SpellVariant::Damage(MagicDamageType::Frost), IconSource::OfDamage(MagicDamageType::Frost)),
        (SpellVariant::CarryWeight, IconSource::Icon(Icon::SpellFeather)),
        (SpellVariant::Cloak(MagicDamageType::Poison), IconSource::Icon(Icon::ArmorCloak)),
        (SpellVariant::Rout, IconSource::Icon(Icon::SpellFear)),
        (SpellVariant::Firebolt, IconSource::Icon(Icon::SpellFireDual)),
        (SpellVariant::IcySpear, IconSource::Icon(Icon::SpellIceShard)),
        (SpellVariant::Sparks, IconSource::Icon(Icon::SpellShock)),
        (SpellVariant::Shock, IconSource::Icon(Icon::SpellShockStrong)),
        (SpellVariant::Thunderbolt, IconSource::Icon(Icon::SpellLightningBlast)),
        (SpellVariant::TurnUndead, IconSource::Icon(Icon::SpellHoly)),
        (SpellVariant::SlowTime, IconSource::Icon(Icon::SpellTime)),
    ];
    for (v, expected) in cases {
        assert_eq!(spell(v, SpellSchool::Restoration).icon_file(), expected, "{:?}", v);
    }
}

#[test]
fn bound_weapon_icons() {
    let cases = [
        (BoundType::BattleAxe, Icon::WeaponAxeTwoHanded),
        (BoundType::Bow, Icon::WeaponBow),
        (BoundType::Dagger, Icon::WeaponDagger),
        (BoundType::Greatsword, Icon::WeaponSwordOneHanded),
        (BoundType::Hammer, Icon::WeaponHammer),
        (BoundType::Mace, Icon::WeaponMace),
        (BoundType::Shield, Icon::ArmorShieldHeavy),
        (BoundType::Sword, Icon::WeaponSwordOneHanded),
        (BoundType::WarAxe, Icon::WeaponAxeOneHanded),
        (BoundType::Unknown, Icon::WeaponSwordOneHanded),
    ];
    for (b, expected) in cases {
        assert_eq!(
            spell(SpellVariant::BoundWeapon(b), SpellSchool::Conjuration).icon_file(),
            IconSource::Icon(expected)
        );
    }
}

#[test]
fn spells_without_an_icon_use_their_school() {
    for v in [
        SpellVariant::Unknown,
        SpellVariant::Burden,
        SpellVariant::Banish,
        SpellVariant::StormWall,
        SpellVariant::Paralyze,
        SpellVariant::Thorns,
    ] {
        let s = spell(v, SpellSchool::Illusion);
        assert_eq!(s.icon_file(), IconSource::OfSchool(SpellSchool::Illusion));
        assert_eq!(s.icon_fallback(), IconSource::OfSchool(SpellSchool::Illusion));
    }
    assert_eq!(
        spell(SpellVariant::Heal, SpellSchool::Illusion).icon_fallback(),
        IconSource::OfSchool(SpellSchool::Illusion)
    );
}
