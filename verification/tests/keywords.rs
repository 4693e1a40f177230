use spell_classify::keyword::{has_keyword, recognize_keywords, str_eq, SpellKeyword};

#[test]
fn names_are_recognised_exactly() {
    assert_eq!(SpellKeyword::from_name("IconMagicWater"), Some(SpellKeyword::IconMagicWater));
    assert_eq!(SpellKeyword::from_name("NAT_MagicTreeBarkSpell"), Some(SpellKeyword::NAT_MagicTreeBarkSpell));
    assert_eq!(SpellKeyword::from_name("MagicFlameCloak"), Some(SpellKeyword::MagicFlameCloak));
    assert_eq!(SpellKeyword::from_name("magicflamecloak"), None);
    assert_eq!(SpellKeyword::from_name("MagicFlameCloak2"), None);
    assert_eq!(SpellKeyword::from_name("MagicFlame"), None);
    assert_eq!(SpellKeyword::from_name(""), None);
}

#[test]
fn every_keyword_round_trips_through_its_debug_name() {
    let all = [
        SpellKeyword::IconMagicWater,
        SpellKeyword::DAR_MagicAspectSpell,
        SpellKeyword::MAG_MagicShieldFrost,
        SpellKeyword::ABY_ShadowWeaponSpell,
        SpellKeyword::BLO_BloodStealHealthSpell,
        SpellKeyword::DAR_WeakenWeapons,
        SpellKeyword::LUN_LunarBodySpell,
        SpellKeyword::NAT_MagicAspectofFurySpell,
    ];
    for k in all {
        assert_eq!(SpellKeyword::from_name(&format!("{:?}", k)), Some(k));
    }
}

#[test]
fn recognised_keywords_keep_order_and_skip_the_rest() {
    let list: Vec<String> = ["NAT_MagicRoot", "Fire", "IconMagicWind", "NAT_MagicRoot"]
        .iter()
        .map(|s| s.to_string())
        .collect();
    let tags = recognize_keywords(&list);
    assert_eq!(
        tags,
        vec![SpellKeyword::NAT_MagicRoot, SpellKeyword::IconMagicWind, SpellKeyword::NAT_MagicRoot]
    );
    assert!(has_keyword(&tags, SpellKeyword::IconMagicWind));
    assert!(!has_keyword(&tags, SpellKeyword::IconMagicWater));
    assert_eq!(recognize_keywords(&vec![]), vec![]);
}

#[test]
fn string_equality() {
    assert!(str_eq("abc", "abc"));
    assert!(!str_eq("abc", "abd"));
    assert!(!str_eq("abc", "ab"));
    assert!(str_eq("", ""));
    assert!(str_eq("héllo", "héllo"));
    assert!(!str_eq("héllo", "hello"));
}
