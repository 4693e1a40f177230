use spell_classify::game::{ActorValue, BaseType, MagicDamageType, SpellArchetype, SpellData, SpellSchool, WeaponType};
use spell_classify::spell::{bound_weapon_type, classify_value_mod_archetype, BoundType, SpellType, SpellVariant};

fn data(archetype: SpellArchetype, damage: MagicDamageType) -> SpellData {
    SpellData {
        hostile: false,
        effect: ActorValue::Magicka,
        damage,
        school: SpellSchool::Alteration,
        archetype,
        associated: String::new(),
    }
}

fn words(list: &[&str]) -> Vec<String> {
    list.iter().map(|s| s.to_string()).collect()
}

#[test]
fn hostile_health_value_modifier_is_damage() {
    let mut d = data(SpellArchetype::ValueModifier, MagicDamageType::Fire);
    d.effect = ActorValue::Health;
    d.hostile = true;
    let s = SpellType::new(d.clone(), vec![], BaseType::Other);
    assert_eq!(s.variant, SpellVariant::Damage(MagicDamageType::Fire));
    assert_eq!(s.data, d);
}

#[test]
fn friendly_health_value_modifier_is_heal() {
    for archetype in [
        SpellArchetype::ValueModifier,
        SpellArchetype::PeakValueModifier,
        SpellArchetype::DualValueModifier,
    ] {
        let mut d = data(archetype, MagicDamageType::Plain);
        d.effect = ActorValue::Health;
        let s = SpellType::new(d, vec![], BaseType::Other);
        assert_eq!(s.variant, SpellVariant::Heal);
    }
}

#[test]
fn value_modifier_of_other_values_is_unknown() {
    let mut d = data(SpellArchetype::ValueModifier, MagicDamageType::Frost);
    d.effect = ActorValue::Stamina;
    d.hostile = true;
    let s = SpellType::new(d, vec![], BaseType::Other);
    assert_eq!(s.variant, SpellVariant::Unknown);
}

#[test]
fn classify_value_mod_archetype_cases() {
    let mut d = data(SpellArchetype::ValueModifier, MagicDamageType::Shock);
    d.effect = ActorValue::Health;
    d.hostile = true;
    assert_eq!(classify_value_mod_archetype(&d), Some(SpellVariant::Damage(MagicDamageType::Shock)));
    d.hostile = false;
    assert_eq!(classify_value_mod_archetype(&d), Some(SpellVariant::Heal));
    d.effect = ActorValue::Magicka;
    assert_eq!(classify_value_mod_archetype(&d), None);
}

#[test]
fn archetypes_without_keywords() {
    let cases = [
        (SpellArchetype::CureDisease, SpellVariant::Cure),
        (SpellArchetype::CurePoison, SpellVariant::Cure),
        (SpellArchetype::CureParalysis, SpellVariant::Cure),
        (SpellArchetype::Demoralize, SpellVariant::Demoralize),
        (SpellArchetype::DetectLife, SpellVariant::Detect),
        (SpellArchetype::NightEye, SpellVariant::Detect),
        (SpellArchetype::Guide, SpellVariant::Guide),
        (SpellArchetype::Light, SpellVariant::Light),
        (SpellArchetype::Reanimate, SpellVariant::Reanimate),
        (SpellArchetype::SoulTrap, SpellVariant::SoulTrap),
        (SpellArchetype::SummonCreature, SpellVariant::Summon),
        (SpellArchetype::EnhanceWeapon, SpellVariant::EnhanceWeapon),
        (SpellArchetype::SlowTime, SpellVariant::SlowTime),
        (SpellArchetype::Calm, SpellVariant::Unknown),
        (SpellArchetype::Paralysis, SpellVariant::Unknown),
        (SpellArchetype::TurnUndead, SpellVariant::Unknown),
        (SpellArchetype::Banish, SpellVariant::Unknown),
    ];
    for (archetype, expected) in cases {
        let s = SpellType::new(data(archetype, MagicDamageType::Plain), vec![], BaseType::Other);
        assert_eq!(s.variant, expected, "{:?}", archetype);
    }
}

#[test]
fn cloak_archetype_takes_the_damage_type() {
    let s = SpellType::new(data(SpellArchetype::Cloak, MagicDamageType::Frost), vec![], BaseType::Other);
    assert_eq!(s.variant, SpellVariant::Cloak(MagicDamageType::Frost));
}

#[test]
fn spawn_hazard_walls() {
    let cases = [
        (MagicDamageType::Fire, SpellVariant::FireWall),
        (MagicDamageType::Frost, SpellVariant::FrostWall),
        (MagicDamageType::Shock, SpellVariant::StormWall),
        (MagicDamageType::Wind, SpellVariant::Tornado),
        (MagicDamageType::Poison, SpellVariant::Unknown),
        (MagicDamageType::Plain, SpellVariant::Unknown),
    ];
    for (damage, expected) in cases {
        let s = SpellType::new(data(SpellArchetype::SpawnHazard, damage), vec![], BaseType::Other);
        assert_eq!(s.variant, expected);
    }
}

#[test]
fn keywords_decide_before_archetype() {
    let s = SpellType::new(
        data(SpellArchetype::CureDisease, MagicDamageType::Plain),
        words(&["MAG_MagicInfluenceSilence"]),
        BaseType::Other,
    );
    assert_eq!(s.variant, SpellVariant::Silence);
    let cases = [
        ("MAG_MagicEffectLight", SpellVariant::Light),
        ("MAG_MagicInfluenceParalysis", SpellVariant::Paralyze),
        ("NAT_MagicRoot", SpellVariant::Root),
        ("MAG_MagicSoulTrap", SpellVariant::SoulTrap),
        ("MAG_MagicSummonReanimate", SpellVariant::Reanimate),
        ("MAG_MagicWeaponEnchantment", SpellVariant::EnhanceWeapon),
        ("MAG_MagicWeightSpell", SpellVariant::CarryWeight),
        ("MAG_PoisonCloakSpell", SpellVariant::Cloak(MagicDamageType::Poison)),
        ("MagicFlameCloak", SpellVariant::Cloak(MagicDamageType::Fire)),
    ];
    for (word, expected) in cases {
        let s = SpellType::new(data(SpellArchetype::Cloak, MagicDamageType::Frost), words(&[word]), BaseType::Other);
        assert_eq!(s.variant, expected, "{}", word);
    }
}

#[test]
fn earlier_keyword_wins() {
    let s = SpellType::new(
        data(SpellArchetype::Light, MagicDamageType::Plain),
        words(&["MagicFlameCloak", "MAG_MagicEffectLight", "NAT_MagicRoot"]),
        BaseType::Other,
    );
    assert_eq!(s.variant, SpellVariant::Light);
    let s = SpellType::new(
        data(SpellArchetype::Light, MagicDamageType::Plain),
        words(&["MagicFlameCloak", "NAT_MagicRoot"]),
        BaseType::Other,
    );
    assert_eq!(s.variant, SpellVariant::Root);
}

#[test]
fn damage_is_filled_from_keywords_only_when_missing() {
    let s = SpellType::new(
        data(SpellArchetype::Calm, MagicDamageType::Plain),
        words(&["IconMagicWater", "MAG_MagicDamageSun"]),
        BaseType::Other,
    );
    assert_eq!(s.data.damage, MagicDamageType::Sun);
    let s = SpellType::new(
        data(SpellArchetype::Calm, MagicDamageType::Frost),
        words(&["IconMagicWater", "MAG_MagicDamageSun"]),
        BaseType::Other,
    );
    assert_eq!(s.data.damage, MagicDamageType::Frost);
    let s = SpellType::new(
        data(SpellArchetype::Calm, MagicDamageType::Plain),
        words(&["DAR_UnspecificMagicDamage"]),
        BaseType::Other,
    );
    assert_eq!(s.data.damage, MagicDamageType::Other);
    let s = SpellType::new(data(SpellArchetype::Calm, MagicDamageType::Plain), words(&["Fire"]), BaseType::Other);
    assert_eq!(s.data.damage, MagicDamageType::Plain);
}

#[test]
fn damage_keyword_priority() {
    let cases = [
        ("MAG_MagicDamageBleed", MagicDamageType::Bleed),
        ("IconMagicEarth", MagicDamageType::Earth),
        ("MagicDamageLunar", MagicDamageType::Lunar),
        ("MAG_MagicDamagePoison", MagicDamageType::Poison),
        ("MAG_MagicDamageStamina", MagicDamageType::Stamina),
        ("MAG_MagicDamageSun", MagicDamageType::Sun),
        ("IconMagicWater", MagicDamageType::Water),
        ("IconMagicWind", MagicDamageType::Wind),
        ("DAR_UnspecificMagicDamage", MagicDamageType::Other),
    ];
    for (word, expected) in cases {
        let s = SpellType::new(data(SpellArchetype::Calm, MagicDamageType::Plain), words(&[word]), BaseType::Other);
        assert_eq!(s.data.damage, expected, "{}", word);
    }
    let s = SpellType::new(
        data(SpellArchetype::Calm, MagicDamageType::Plain),
        words(&["DAR_UnspecificMagicDamage", "IconMagicWind", "MAG_MagicDamageBleed"]),
        BaseType::Other,
    );
    assert_eq!(s.data.damage, MagicDamageType::Bleed);
}

#[test]
fn filled_damage_feeds_the_archetype() {
    let s = SpellType::new(
        data(SpellArchetype::SpawnHazard, MagicDamageType::Plain),
        words(&["IconMagicWind"]),
        BaseType::Other,
    );
    assert_eq!(s.variant, SpellVariant::Tornado);
    let s = SpellType::new(
        data(SpellArchetype::Cloak, MagicDamageType::Plain),
        words(&["MAG_MagicDamageStamina"]),
        BaseType::Other,
    );
    assert_eq!(s.variant, SpellVariant::Cloak(MagicDamageType::Stamina));
}

#[test]
fn bound_weapons() {
    let mut d = data(SpellArchetype::BoundWeapon, MagicDamageType::Plain);
    d.associated = "Skyrim.esm|0x0001ED".to_string();
    let kinds = [
        (WeaponType::AxeOneHanded, BoundType::WarAxe),
        (WeaponType::AxeTwoHanded, BoundType::BattleAxe),
        (WeaponType::BowShort, BoundType::Bow),
        (WeaponType::Bow, BoundType::Bow),
        (WeaponType::Crossbow, BoundType::Bow),
        (WeaponType::Dagger, BoundType::Dagger),
        (WeaponType::Hammer, BoundType::Hammer),
        (WeaponType::Mace, BoundType::Mace),
        (WeaponType::SwordOneHanded, BoundType::Sword),
        (WeaponType::SwordTwoHanded, BoundType::Greatsword),
        (WeaponType::Other, BoundType::Unknown),
    ];
    for (w, expected) in kinds {
        let s = SpellType::new(d.clone(), vec![], BaseType::Weapon(w));
        assert_eq!(s.variant, SpellVariant::BoundWeapon(expected));
        let s = SpellType::new(data(SpellArchetype::Calm, MagicDamageType::Plain), vec![], BaseType::Weapon(w));
        assert_eq!(s.variant, SpellVariant::Unknown);
    }
    let s = SpellType::new(d, vec![], BaseType::Other);
    assert_eq!(s.variant, SpellVariant::BoundWeapon(BoundType::Unknown));
}

#[test]
fn bound_weapon_keywords() {
    let mut d = data(SpellArchetype::Calm, MagicDamageType::Plain);
    d.associated = "Skyrim.esm|0x058F5F".to_string();
    for word in ["MAG_MagicSummonWeapon", "MAG_WeapTypeBound"] {
        let s = SpellType::new(d.clone(), words(&[word]), BaseType::Weapon(WeaponType::Dagger));
        assert_eq!(s.variant, SpellVariant::BoundWeapon(BoundType::Dagger));
    }
}

#[test]
fn bound_weapon_without_item_is_unknown() {
    let empty = String::new();
    assert_eq!(bound_weapon_type(&empty, BaseType::Weapon(WeaponType::Mace)), BoundType::Unknown);
    let named = "Skyrim.esm|0x0424EE".to_string();
    assert_eq!(bound_weapon_type(&named, BaseType::Weapon(WeaponType::Mace)), BoundType::Mace);
    assert_eq!(bound_weapon_type(&named, BaseType::Other), BoundType::Unknown);
    let s = SpellType::new(
        data(SpellArchetype::BoundWeapon, MagicDamageType::Plain),
        vec![],
        BaseType::Weapon(WeaponType::Mace),
    );
    assert_eq!(s.variant, SpellVariant::BoundWeapon(BoundType::Unknown));
}

#[test]
fn unknown_keywords_are_ignored() {
    let base = SpellType::new(data(SpellArchetype::Guide, MagicDamageType::Plain), vec![], BaseType::Other);
    let with_noise = SpellType::new(
        data(SpellArchetype::Guide, MagicDamageType::Plain),
        words(&["MagicDamageFire", "mag_magiceffectlight", "MAG_MagicEffectLight ", ""]),
        BaseType::Other,
    );
    assert_eq!(base, with_noise);
    assert_eq!(base.variant, SpellVariant::Guide);
}

#[test]
fn keyword_order_and_repetition_do_not_matter() {
    let a = SpellType::new(
        data(SpellArchetype::Cloak, MagicDamageType::Plain),
        words(&["IconMagicEarth", "MAG_MagicDamagePoison", "IconMagicEarth"]),
        BaseType::Other,
    );
    let b = SpellType::new(
        data(SpellArchetype::Cloak, MagicDamageType::Plain),
        words(&["MAG_MagicDamagePoison", "IconMagicEarth"]),
        BaseType::Other,
    );
    assert_eq!(a, b);
    assert_eq!(a.variant, SpellVariant::Cloak(MagicDamageType::Earth));
}

#[test]
fn classifying_twice_changes_nothing() {
    let first = SpellType::new(
        data(SpellArchetype::SpawnHazard, MagicDamageType::Plain),
        words(&["IconMagicWind", "ABY_ShadowMantleSpell"]),
        BaseType::Other,
    );
    let second = SpellType::new(
        first.data.clone(),
        words(&["IconMagicWind", "ABY_ShadowMantleSpell"]),
        BaseType::Other,
    );
    assert_eq!(first, second);
}

#[test]
fn defaults() {
    assert_eq!(SpellVariant::default(), SpellVariant::Unknown);
    assert_eq!(BoundType::default(), BoundType::Unknown);
}

#[test]
fn item_kind_matters_only_for_bound_weapons() {
    let mut d = data(SpellArchetype::Guide, MagicDamageType::Plain);
    d.associated = "Skyrim.esm|0x0424EE".to_string();
    let a = SpellType::new(d.clone(), vec![], BaseType::Weapon(WeaponType::Bow));
    let b = SpellType::new(d.clone(), vec![], BaseType::Other);
    assert_eq!(a, b);
    d.archetype = SpellArchetype::BoundWeapon;
    let a = SpellType::new(d.clone(), vec![], BaseType::Weapon(WeaponType::Bow));
    let b = SpellType::new(d, vec![], BaseType::Other);
    assert_eq!(a.data, b.data);
    assert_eq!(a.variant, SpellVariant::BoundWeapon(BoundType::Bow));
    assert_eq!(b.variant, SpellVariant::BoundWeapon(BoundType::Unknown));
}
