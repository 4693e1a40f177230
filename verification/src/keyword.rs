//! The keywords that magic overhauls attach to spells, and how keyword strings
//! are recognised.

use vstd::prelude::*;

verus! {

/// A keyword that the classification of a spell may look at. Each keyword is
/// recognised by the exact string of its name.
#[allow(non_camel_case_types)]
#[derive(Clone, Copy, Debug, PartialEq, Eq, Structural, Hash)]
pub enum SpellKeyword {
    IconMagicWater,
    IconMagicEarth,
    IconMagicWind,
    DAR_MagicAspectSpell,
    DAR_MagicMeleeProcSpell,
    DAR_UnspecificMagicDamage,
    MAG_MagicDamageBleed,
    MAG_MagicDamageMagicka,
    MAG_MagicDamagePoison,
    MAG_MagicDamageStamina,
    MAG_MagicDamageSun,
    MAG_MagicEffectLight,
    MAG_MagicFortifySpeed,
    MAG_MagicInfluenceCommand,
    MAG_MagicInfluenceCourage,
    MAG_MagicInfluenceParalysis,
    MAG_MagicInfluenceSilence,
    MAG_MagicJumpSpell,
    MAG_MagicShieldFire,
    MAG_MagicShieldFrost,
    MAG_MagicShieldPoison,
    MAG_MagicShieldSpell,
    MAG_MagicSlowfallSpell,
    MAG_MagicSoulTrap,
    MAG_MagicStaffEnchantment,
    MAG_MagicStealthSpell,
    MAG_MagicSummonReanimate,
    MAG_MagicSummonWeapon,
    MAG_MagicUnarmedSpell,
    MAG_MagicWeaponEnchantment,
    MAG_MagicWeightSpell,
    MAG_PoisonCloakSpell,
    MAG_WeapTypeBound,
    MagicDamageLunar,
    MagicFlameCloak,
    ABY_ShadowDamageResist,
    ABY_ShadowInvisAddonSpell,
    ABY_ShadowMantleSpell,
    ABY_ShadowWeaponSpell,
    BLO_BloodFFSpell,
    BLO_BloodLustSpell,
    BLO_BloodSiphonSpell,
    BLO_BloodStanceSpell,
    BLO_BloodStealHealthSpell,
    DAR_ArcaneDamageMagickaRegen,
    DAR_ArcaneDamageRelease,
    DAR_ArcanePullSpell,
    DAR_ArcaneWeaponSpell,
    DAR_ArclightBodySpell,
    DAR_AstralBodySpell,
    DAR_AstralRestoreSpell,
    DAR_AstralStarSpell,
    DAR_EldritchFrenzySpell,
    DAR_EldritchHardnessSpell,
    DAR_EldritchInfectionSpell,
    DAR_EldritchWeaveSpell,
    DAR_MagicSkoriaSlow,
    DAR_MagicWeaponSlow,
    DAR_MoltenBodySpell,
    DAR_NecroticDamageBlocker,
    DAR_WeakenWeapons,
    LUN_LunarBodySpell,
    NAT_MagicAspectofFurySpell,
    NAT_MagicAttunementSpell,
    NAT_MagicNatureHealingSpell,
    NAT_MagicReflectSpell,
    NAT_MagicRejuvenateSpell,
    NAT_MagicRevitalizingGrowthSpell,
    NAT_MagicRoot,
    NAT_MagicSpikeSpell,
    NAT_MagicStrengthSpell,
    NAT_MagicThornsSpell,
    NAT_MagicTreeBarkSpell,
}

/// The string by which a keyword is recognised: exactly its name, with case
/// and underscores as written.
pub open spec fn keyword_name(k: SpellKeyword) -> Seq<char> {
    match k {
        SpellKeyword::IconMagicWater => "IconMagicWater"@,
        SpellKeyword::IconMagicEarth => "IconMagicEarth"@,
        SpellKeyword::IconMagicWind => "IconMagicWind"@,
        SpellKeyword::DAR_MagicAspectSpell => "DAR_MagicAspectSpell"@,
        SpellKeyword::DAR_MagicMeleeProcSpell => "DAR_MagicMeleeProcSpell"@,
        SpellKeyword::DAR_UnspecificMagicDamage => "DAR_UnspecificMagicDamage"@,
        SpellKeyword::MAG_MagicDamageBleed => "MAG_MagicDamageBleed"@,
        SpellKeyword::MAG_MagicDamageMagicka => "MAG_MagicDamageMagicka"@,
        SpellKeyword::MAG_MagicDamagePoison => "MAG_MagicDamagePoison"@,
        SpellKeyword::MAG_MagicDamageStamina => "MAG_MagicDamageStamina"@,
        SpellKeyword::MAG_MagicDamageSun => "MAG_MagicDamageSun"@,
        SpellKeyword::MAG_MagicEffectLight => "MAG_MagicEffectLight"@,
        SpellKeyword::MAG_MagicFortifySpeed => "MAG_MagicFortifySpeed"@,
        SpellKeyword::MAG_MagicInfluenceCommand => "MAG_MagicInfluenceCommand"@,
        SpellKeyword::MAG_MagicInfluenceCourage => "MAG_MagicInfluenceCourage"@,
        SpellKeyword::MAG_MagicInfluenceParalysis => "MAG_MagicInfluenceParalysis"@,
        SpellKeyword::MAG_MagicInfluenceSilence => "MAG_MagicInfluenceSilence"@,
        SpellKeyword::MAG_MagicJumpSpell => "MAG_MagicJumpSpell"@,
        SpellKeyword::MAG_MagicShieldFire => "MAG_MagicShieldFire"@,
        SpellKeyword::MAG_MagicShieldFrost => "MAG_MagicShieldFrost"@,
        SpellKeyword::MAG_MagicShieldPoison => "MAG_MagicShieldPoison"@,
        SpellKeyword::MAG_MagicShieldSpell => "MAG_MagicShieldSpell"@,
        SpellKeyword::MAG_MagicSlowfallSpell => "MAG_MagicSlowfallSpell"@,
        SpellKeyword::MAG_MagicSoulTrap => "MAG_MagicSoulTrap"@,
        SpellKeyword::MAG_MagicStaffEnchantment => "MAG_MagicStaffEnchantment"@,
        SpellKeyword::MAG_MagicStealthSpell => "MAG_MagicStealthSpell"@,
        SpellKeyword::MAG_MagicSummonReanimate => "MAG_MagicSummonReanimate"@,
        SpellKeyword::MAG_MagicSummonWeapon => "MAG_MagicSummonWeapon"@,
        SpellKeyword::MAG_MagicUnarmedSpell => "MAG_MagicUnarmedSpell"@,
        SpellKeyword::MAG_MagicWeaponEnchantment => "MAG_MagicWeaponEnchantment"@,
        SpellKeyword::MAG_MagicWeightSpell => "MAG_MagicWeightSpell"@,
        SpellKeyword::MAG_PoisonCloakSpell => "MAG_PoisonCloakSpell"@,
        SpellKeyword::MAG_WeapTypeBound => "MAG_WeapTypeBound"@,
        SpellKeyword::MagicDamageLunar => "MagicDamageLunar"@,
        SpellKeyword::MagicFlameCloak => "MagicFlameCloak"@,
        SpellKeyword::ABY_ShadowDamageResist => "ABY_ShadowDamageResist"@,
        SpellKeyword::ABY_ShadowInvisAddonSpell => "ABY_ShadowInvisAddonSpell"@,
        SpellKeyword::ABY_ShadowMantleSpell => "ABY_ShadowMantleSpell"@,
        SpellKeyword::ABY_ShadowWeaponSpell => "ABY_ShadowWeaponSpell"@,
        SpellKeyword::BLO_BloodFFSpell => "BLO_BloodFFSpell"@,
        SpellKeyword::BLO_BloodLustSpell => "BLO_BloodLustSpell"@,
        SpellKeyword::BLO_BloodSiphonSpell => "BLO_BloodSiphonSpell"@,
        SpellKeyword::BLO_BloodStanceSpell => "BLO_BloodStanceSpell"@,
        SpellKeyword::BLO_BloodStealHealthSpell => "BLO_BloodStealHealthSpell"@,
        SpellKeyword::DAR_ArcaneDamageMagickaRegen => "DAR_ArcaneDamageMagickaRegen"@,
        SpellKeyword::DAR_ArcaneDamageRelease => "DAR_ArcaneDamageRelease"@,
        SpellKeyword::DAR_ArcanePullSpell => "DAR_ArcanePullSpell"@,
        SpellKeyword::DAR_ArcaneWeaponSpell => "DAR_ArcaneWeaponSpell"@,
        SpellKeyword::DAR_ArclightBodySpell => "DAR_ArclightBodySpell"@,
        SpellKeyword::DAR_AstralBodySpell => "DAR_AstralBodySpell"@,
        SpellKeyword::DAR_AstralRestoreSpell => "DAR_AstralRestoreSpell"@,
        SpellKeyword::DAR_AstralStarSpell => "DAR_AstralStarSpell"@,
        SpellKeyword::DAR_EldritchFrenzySpell => "DAR_EldritchFrenzySpell"@,
        SpellKeyword::DAR_EldritchHardnessSpell => "DAR_EldritchHardnessSpell"@,
        SpellKeyword::DAR_EldritchInfectionSpell => "DAR_EldritchInfectionSpell"@,
        SpellKeyword::DAR_EldritchWeaveSpell => "DAR_EldritchWeaveSpell"@,
        SpellKeyword::DAR_MagicSkoriaSlow => "DAR_MagicSkoriaSlow"@,
        SpellKeyword::DAR_MagicWeaponSlow => "DAR_MagicWeaponSlow"@,
        SpellKeyword::DAR_MoltenBodySpell => "DAR_MoltenBodySpell"@,
        SpellKeyword::DAR_NecroticDamageBlocker => "DAR_NecroticDamageBlocker"@,
        SpellKeyword::DAR_WeakenWeapons => "DAR_WeakenWeapons"@,
        SpellKeyword::LUN_LunarBodySpell => "LUN_LunarBodySpell"@,
        SpellKeyword::NAT_MagicAspectofFurySpell => "NAT_MagicAspectofFurySpell"@,
        SpellKeyword::NAT_MagicAttunementSpell => "NAT_MagicAttunementSpell"@,
        SpellKeyword::NAT_MagicNatureHealingSpell => "NAT_MagicNatureHealingSpell"@,
        SpellKeyword::NAT_MagicReflectSpell => "NAT_MagicReflectSpell"@,
        SpellKeyword::NAT_MagicRejuvenateSpell => "NAT_MagicRejuvenateSpell"@,
        SpellKeyword::NAT_MagicRevitalizingGrowthSpell => "NAT_MagicRevitalizingGrowthSpell"@,
        SpellKeyword::NAT_MagicRoot => "NAT_MagicRoot"@,
        SpellKeyword::NAT_MagicSpikeSpell => "NAT_MagicSpikeSpell"@,
        SpellKeyword::NAT_MagicStrengthSpell => "NAT_MagicStrengthSpell"@,
        SpellKeyword::NAT_MagicThornsSpell => "NAT_MagicThornsSpell"@,
        SpellKeyword::NAT_MagicTreeBarkSpell => "NAT_MagicTreeBarkSpell"@,
    }
}

/// No two keywords share a name.
pub proof fn lemma_names_distinct(a: SpellKeyword, b: SpellKeyword)
    requires
        keyword_name(a) == keyword_name(b),
    ensures
        a == b,
{
    broadcast use vstd::string::group_string_axioms;

    reveal_strlit("IconMagicWater");
    reveal_strlit("IconMagicEarth");
    reveal_strlit("IconMagicWind");
    reveal_strlit("DAR_MagicAspectSpell");
    reveal_strlit("DAR_MagicMeleeProcSpell");
    reveal_strlit("DAR_UnspecificMagicDamage");
    reveal_strlit("MAG_MagicDamageBleed");
    reveal_strlit("MAG_MagicDamageMagicka");
    reveal_strlit("MAG_MagicDamagePoison");
    reveal_strlit("MAG_MagicDamageStamina");
    reveal_strlit("MAG_MagicDamageSun");
    reveal_strlit("MAG_MagicEffectLight");
    reveal_strlit("MAG_MagicFortifySpeed");
    reveal_strlit("MAG_MagicInfluenceCommand");
    reveal_strlit("MAG_MagicInfluenceCourage");
    reveal_strlit("MAG_MagicInfluenceParalysis");
    reveal_strlit("MAG_MagicInfluenceSilence");
    reveal_strlit("MAG_MagicJumpSpell");
    reveal_strlit("MAG_MagicShieldFire");
    reveal_strlit("MAG_MagicShieldFrost");
    reveal_strlit("MAG_MagicShieldPoison");
    reveal_strlit("MAG_MagicShieldSpell");
    reveal_strlit("MAG_MagicSlowfallSpell");
    reveal_strlit("MAG_MagicSoulTrap");
    reveal_strlit("MAG_MagicStaffEnchantment");
    reveal_strlit("MAG_MagicStealthSpell");
    reveal_strlit("MAG_MagicSummonReanimate");
    reveal_strlit("MAG_MagicSummonWeapon");
    reveal_strlit("MAG_MagicUnarmedSpell");
    reveal_strlit("MAG_MagicWeaponEnchantment");
    reveal_strlit("MAG_MagicWeightSpell");
    reveal_strlit("MAG_PoisonCloakSpell");
    reveal_strlit("MAG_WeapTypeBound");
    reveal_strlit("MagicDamageLunar");
    reveal_strlit("MagicFlameCloak");
    reveal_strlit("ABY_ShadowDamageResist");
    reveal_strlit("ABY_ShadowInvisAddonSpell");
    reveal_strlit("ABY_ShadowMantleSpell");
    reveal_strlit("ABY_ShadowWeaponSpell");
    reveal_strlit("BLO_BloodFFSpell");
    reveal_strlit("BLO_BloodLustSpell");
    reveal_strlit("BLO_BloodSiphonSpell");
    reveal_strlit("BLO_BloodStanceSpell");
    reveal_strlit("BLO_BloodStealHealthSpell");
    reveal_strlit("DAR_ArcaneDamageMagickaRegen");
    reveal_strlit("DAR_ArcaneDamageRelease");
    reveal_strlit("DAR_ArcanePullSpell");
    reveal_strlit("DAR_ArcaneWeaponSpell");
    reveal_strlit("DAR_ArclightBodySpell");
    reveal_strlit("DAR_AstralBodySpell");
    reveal_strlit("DAR_AstralRestoreSpell");
    reveal_strlit("DAR_AstralStarSpell");
    reveal_strlit("DAR_EldritchFrenzySpell");
    reveal_strlit("DAR_EldritchHardnessSpell");
    reveal_strlit("DAR_EldritchInfectionSpell");
    reveal_strlit("DAR_EldritchWeaveSpell");
    reveal_strlit("DAR_MagicSkoriaSlow");
    reveal_strlit("DAR_MagicWeaponSlow");
    reveal_strlit("DAR_MoltenBodySpell");
    reveal_strlit("DAR_NecroticDamageBlocker");
    reveal_strlit("DAR_WeakenWeapons");
    reveal_strlit("LUN_LunarBodySpell");
    reveal_strlit("NAT_MagicAspectofFurySpell");
    reveal_strlit("NAT_MagicAttunementSpell");
    reveal_strlit("NAT_MagicNatureHealingSpell");
    reveal_strlit("NAT_MagicReflectSpell");
    reveal_strlit("NAT_MagicRejuvenateSpell");
    reveal_strlit("NAT_MagicRevitalizingGrowthSpell");
    reveal_strlit("NAT_MagicRoot");
    reveal_strlit("NAT_MagicSpikeSpell");
    reveal_strlit("NAT_MagicStrengthSpell");
    reveal_strlit("NAT_MagicThornsSpell");
    reveal_strlit("NAT_MagicTreeBarkSpell");
    let x = keyword_name(a);
    let y = keyword_name(b);
    assert(x.len() == y.len());
    assert(x[9] == y[9]);
    assert(x[10] == y[10]);
    assert(x[15] == y[15]);
    assert(x[20] == y[20]);
}

/// The keyword that a string names, if it names one.
pub open spec fn parse_keyword(s: Seq<char>) -> Option<SpellKeyword> {
    if exists|k: SpellKeyword| keyword_name(k) == s {
        Some(choose|k: SpellKeyword| keyword_name(k) == s)
    } else {
        None
    }
}

/// Each keyword's name is recognised as that keyword, and as no other.
pub proof fn lemma_parse_name(k: SpellKeyword)
    ensures
        parse_keyword(keyword_name(k)) == Some(k),
{
    let c = choose|j: SpellKeyword| keyword_name(j) == keyword_name(k);
    lemma_names_distinct(c, k);
}

/// A string is recognised only when it is exactly a keyword's name.
pub proof fn lemma_parse_exact(s: Seq<char>, k: SpellKeyword)
    ensures
        parse_keyword(s) == Some(k) <==> keyword_name(k) == s,
{
    if keyword_name(k) == s {
        lemma_parse_name(k);
    }
}

/// The keywords recognised in a list of strings, in the order in which they
/// occur; strings that name no keyword are passed over.
pub open spec fn recognized(keywords: Seq<String>) -> Seq<SpellKeyword>
    decreases keywords.len(),
{
    if keywords.len() == 0 {
        Seq::empty()
    } else {
        let rest = recognized(keywords.drop_last());
        match parse_keyword(keywords.last()@) {
            Some(k) => rest.push(k),
            None => rest,
        }
    }
}

/// A keyword is among those recognised in a list exactly when one of the
/// list's strings is its name.
pub proof fn lemma_recognized_contains(keywords: Seq<String>, k: SpellKeyword)
    ensures
        recognized(keywords).contains(k) <==> exists|i: int|
            0 <= i < keywords.len() && keyword_name(k) == #[trigger] keywords[i]@,
    decreases keywords.len(),
{
    if keywords.len() > 0 {
        let init = keywords.drop_last();
        lemma_recognized_contains(init, k);
        lemma_parse_exact(keywords.last()@, k);
        let rest = recognized(init);
        if exists|i: int| 0 <= i < keywords.len() && keyword_name(k) == #[trigger] keywords[i]@ {
            let i = choose|i: int| 0 <= i < keywords.len() && keyword_name(k) == #[trigger] keywords[i]@;
            if i < keywords.len() - 1 {
                assert(init[i] == keywords[i]);
                assert(rest.contains(k));
                match parse_keyword(keywords.last()@) {
                    Some(j) => {
                        assert(rest.push(j)[rest.index_of(k)] == k);
                    },
                    None => {},
                }
            } else {
                assert(recognized(keywords) == rest.push(k));
                assert(rest.push(k)[rest.len() as int] == k);
            }
        } else {
            match parse_keyword(keywords.last()@) {
                Some(j) => {
                    lemma_parse_exact(keywords.last()@, j);
                    if recognized(keywords).contains(k) {
                        let n = recognized(keywords).index_of(k);
                        if n < rest.len() {
                            assert(rest[n] == k);
                            let i = choose|i: int| 0 <= i < init.len() && keyword_name(k) == #[trigger] init[i]@;
                            assert(keywords[i] == init[i]);
                        }
                    }
                },
                None => {
                    if rest.contains(k) {
                        let i = choose|i: int| 0 <= i < init.len() && keyword_name(k) == #[trigger] init[i]@;
                        assert(keywords[i] == init[i]);
                    }
                },
            }
        }
    }
}

/// Whether two strings are the same sequence of characters.
pub fn str_eq(a: &str, b: &str) -> (res: bool)
    ensures
        res == (a@ == b@),
{
    let x = a.as_bytes();
    let y = b.as_bytes();
    proof {
        vstd::utf8::encode_utf8_decode_utf8(a@);
        vstd::utf8::encode_utf8_decode_utf8(b@);
    }
    if x.len() != y.len() {
        assert(x@.len() != y@.len());
        return false;
    }
    let n = x.len();
    let mut i: usize = 0;
    while i < n
        invariant
            n == x@.len(),
            n == y@.len(),
            i <= n,
            a@ == b@ ==> x@ == y@,
            forall|j: int| 0 <= j < i ==> x@[j] == y@[j],
        decreases n - i,
    {
        if x[i] != y[i] {
            return false;
        }
        i = i + 1;
    }
    assert(x@ =~= y@);
    true
}

impl SpellKeyword {
    /// The keyword whose name is exactly `s`, if there is one.
    pub fn from_name(s: &str) -> (res: Option<SpellKeyword>)
        ensures
            res == parse_keyword(s@),
    {
        if str_eq(s, "IconMagicWater") {
            proof { lemma_parse_name(SpellKeyword::IconMagicWater); }
            return Some(SpellKeyword::IconMagicWater);
        }
        if str_eq(s, "IconMagicEarth") {
            proof { lemma_parse_name(SpellKeyword::IconMagicEarth); }
            return Some(SpellKeyword::IconMagicEarth);
        }
        if str_eq(s, "IconMagicWind") {
            proof { lemma_parse_name(SpellKeyword::IconMagicWind); }
            return Some(SpellKeyword::IconMagicWind);
        }
        if str_eq(s, "DAR_MagicAspectSpell") {
            proof { lemma_parse_name(SpellKeyword::DAR_MagicAspectSpell); }
            return Some(SpellKeyword::DAR_MagicAspectSpell);
        }
        if str_eq(s, "DAR_MagicMeleeProcSpell") {
            proof { lemma_parse_name(SpellKeyword::DAR_MagicMeleeProcSpell); }
            return Some(SpellKeyword::DAR_MagicMeleeProcSpell);
        }
        if str_eq(s, "DAR_UnspecificMagicDamage") {
            proof { lemma_parse_name(SpellKeyword::DAR_UnspecificMagicDamage); }
            return Some(SpellKeyword::DAR_UnspecificMagicDamage);
        }
        if str_eq(s, "MAG_MagicDamageBleed") {
            proof { lemma_parse_name(SpellKeyword::MAG_MagicDamageBleed); }
            return Some(SpellKeyword::MAG_MagicDamageBleed);
        }
        if str_eq(s, "MAG_MagicDamageMagicka") {
            proof { lemma_parse_name(SpellKeyword::MAG_MagicDamageMagicka); }
            return Some(SpellKeyword::MAG_MagicDamageMagicka);
        }
        if str_eq(s, "MAG_MagicDamagePoison") {
            proof { lemma_parse_name(SpellKeyword::MAG_MagicDamagePoison); }
            return Some(SpellKeyword::MAG_MagicDamagePoison);
        }
        if str_eq(s, "MAG_MagicDamageStamina") {
            proof { lemma_parse_name(SpellKeyword::MAG_MagicDamageStamina); }
            return Some(SpellKeyword::MAG_MagicDamageStamina);
        }
        if str_eq(s, "MAG_MagicDamageSun") {
            proof { lemma_parse_name(SpellKeyword::MAG_MagicDamageSun); }
            return Some(SpellKeyword::MAG_MagicDamageSun);
        }
        if str_eq(s, "MAG_MagicEffectLight") {
            proof { lemma_parse_name(SpellKeyword::MAG_MagicEffectLight); }
            return Some(SpellKeyword::MAG_MagicEffectLight);
        }
        if str_eq(s, "MAG_MagicFortifySpeed") {
            proof { lemma_parse_name(SpellKeyword::MAG_MagicFortifySpeed); }
            return Some(SpellKeyword::MAG_MagicFortifySpeed);
        }
        if str_eq(s, "MAG_MagicInfluenceCommand") {
            proof { lemma_parse_name(SpellKeyword::MAG_MagicInfluenceCommand); }
            return Some(SpellKeyword::MAG_MagicInfluenceCommand);
        }
        if str_eq(s, "MAG_MagicInfluenceCourage") {
            proof { lemma_parse_name(SpellKeyword::MAG_MagicInfluenceCourage); }
            return Some(SpellKeyword::MAG_MagicInfluenceCourage);
        }
        if str_eq(s, "MAG_MagicInfluenceParalysis") {
            proof { lemma_parse_name(SpellKeyword::MAG_MagicInfluenceParalysis); }
            return Some(SpellKeyword::MAG_MagicInfluenceParalysis);
        }
        if str_eq(s, "MAG_MagicInfluenceSilence") {
            proof { lemma_parse_name(SpellKeyword::MAG_MagicInfluenceSilence); }
            return Some(SpellKeyword::MAG_MagicInfluenceSilence);
        }
        if str_eq(s, "MAG_MagicJumpSpell") {
            proof { lemma_parse_name(SpellKeyword::MAG_MagicJumpSpell); }
            return Some(SpellKeyword::MAG_MagicJumpSpell);
        }
        if str_eq(s, "MAG_MagicShieldFire") {
            proof { lemma_parse_name(SpellKeyword::MAG_MagicShieldFire); }
            return Some(SpellKeyword::MAG_MagicShieldFire);
        }
        if str_eq(s, "MAG_MagicShieldFrost") {
            proof { lemma_parse_name(SpellKeyword::MAG_MagicShieldFrost); }
            return Some(SpellKeyword::MAG_MagicShieldFrost);
        }
        if str_eq(s, "MAG_MagicShieldPoison") {
            proof { lemma_parse_name(SpellKeyword::MAG_MagicShieldPoison); }
            return Some(SpellKeyword::MAG_MagicShieldPoison);
        }
        if str_eq(s, "MAG_MagicShieldSpell") {
            proof { lemma_parse_name(SpellKeyword::MAG_MagicShieldSpell); }
            return Some(SpellKeyword::MAG_MagicShieldSpell);
        }
        if str_eq(s, "MAG_MagicSlowfallSpell") {
            proof { lemma_parse_name(SpellKeyword::MAG_MagicSlowfallSpell); }
            return Some(SpellKeyword::MAG_MagicSlowfallSpell);
        }
        if str_eq(s, "MAG_MagicSoulTrap") {
            proof { lemma_parse_name(SpellKeyword::MAG_MagicSoulTrap); }
            return Some(SpellKeyword::MAG_MagicSoulTrap);
        }
        if str_eq(s, "MAG_MagicStaffEnchantment") {
            proof { lemma_parse_name(SpellKeyword::MAG_MagicStaffEnchantment); }
            return Some(SpellKeyword::MAG_MagicStaffEnchantment);
        }
        if str_eq(s, "MAG_MagicStealthSpell") {
            proof { lemma_parse_name(SpellKeyword::MAG_MagicStealthSpell); }
            return Some(SpellKeyword::MAG_MagicStealthSpell);
        }
        if str_eq(s, "MAG_MagicSummonReanimate") {
            proof { lemma_parse_name(SpellKeyword::MAG_MagicSummonReanimate); }
            return Some(SpellKeyword::MAG_MagicSummonReanimate);
        }
        if str_eq(s, "MAG_MagicSummonWeapon") {
            proof { lemma_parse_name(SpellKeyword::MAG_MagicSummonWeapon); }
            return Some(SpellKeyword::MAG_MagicSummonWeapon);
        }
        if str_eq(s, "MAG_MagicUnarmedSpell") {
            proof { lemma_parse_name(SpellKeyword::MAG_MagicUnarmedSpell); }
            return Some(SpellKeyword::MAG_MagicUnarmedSpell);
        }
        if str_eq(s, "MAG_MagicWeaponEnchantment") {
            proof { lemma_parse_name(SpellKeyword::MAG_MagicWeaponEnchantment); }
            return Some(SpellKeyword::MAG_MagicWeaponEnchantment);
        }
        if str_eq(s, "MAG_MagicWeightSpell") {
            proof { lemma_parse_name(SpellKeyword::MAG_MagicWeightSpell); }
            return Some(SpellKeyword::MAG_MagicWeightSpell);
        }
        if str_eq(s, "MAG_PoisonCloakSpell") {
            proof { lemma_parse_name(SpellKeyword::MAG_PoisonCloakSpell); }
            return Some(SpellKeyword::MAG_PoisonCloakSpell);
        }
        if str_eq(s, "MAG_WeapTypeBound") {
            proof { lemma_parse_name(SpellKeyword::MAG_WeapTypeBound); }
            return Some(SpellKeyword::MAG_WeapTypeBound);
        }
        if str_eq(s, "MagicDamageLunar") {
            proof { lemma_parse_name(SpellKeyword::MagicDamageLunar); }
            return Some(SpellKeyword::MagicDamageLunar);
        }
        if str_eq(s, "MagicFlameCloak") {
            proof { lemma_parse_name(SpellKeyword::MagicFlameCloak); }
            return Some(SpellKeyword::MagicFlameCloak);
        }
        if str_eq(s, "ABY_ShadowDamageResist") {
            proof { lemma_parse_name(SpellKeyword::ABY_ShadowDamageResist); }
            return Some(SpellKeyword::ABY_ShadowDamageResist);
        }
        if str_eq(s, "ABY_ShadowInvisAddonSpell") {
            proof { lemma_parse_name(SpellKeyword::ABY_ShadowInvisAddonSpell); }
            return Some(SpellKeyword::ABY_ShadowInvisAddonSpell);
        }
        if str_eq(s, "ABY_ShadowMantleSpell") {
            proof { lemma_parse_name(SpellKeyword::ABY_ShadowMantleSpell); }
            return Some(SpellKeyword::ABY_ShadowMantleSpell);
        }
        if str_eq(s, "ABY_ShadowWeaponSpell") {
            proof { lemma_parse_name(SpellKeyword::ABY_ShadowWeaponSpell); }
            return Some(SpellKeyword::ABY_ShadowWeaponSpell);
        }
        if str_eq(s, "BLO_BloodFFSpell") {
            proof { lemma_parse_name(SpellKeyword::BLO_BloodFFSpell); }
            return Some(SpellKeyword::BLO_BloodFFSpell);
        }
        if str_eq(s, "BLO_BloodLustSpell") {
            proof { lemma_parse_name(SpellKeyword::BLO_BloodLustSpell); }
            return Some(SpellKeyword::BLO_BloodLustSpell);
        }
        if str_eq(s, "BLO_BloodSiphonSpell") {
            proof { lemma_parse_name(SpellKeyword::BLO_BloodSiphonSpell); }
            return Some(SpellKeyword::BLO_BloodSiphonSpell);
        }
        if str_eq(s, "BLO_BloodStanceSpell") {
            proof { lemma_parse_name(SpellKeyword::BLO_BloodStanceSpell); }
            return Some(SpellKeyword::BLO_BloodStanceSpell);
        }
        if str_eq(s, "BLO_BloodStealHealthSpell") {
            proof { lemma_parse_name(SpellKeyword::BLO_BloodStealHealthSpell); }
            return Some(SpellKeyword::BLO_BloodStealHealthSpell);
        }
        if str_eq(s, "DAR_ArcaneDamageMagickaRegen") {
            proof { lemma_parse_name(SpellKeyword::DAR_ArcaneDamageMagickaRegen); }
            return Some(SpellKeyword::DAR_ArcaneDamageMagickaRegen);
        }
        if str_eq(s, "DAR_ArcaneDamageRelease") {
            proof { lemma_parse_name(SpellKeyword::DAR_ArcaneDamageRelease); }
            return Some(SpellKeyword::DAR_ArcaneDamageRelease);
        }
        if str_eq(s, "DAR_ArcanePullSpell") {
            proof { lemma_parse_name(SpellKeyword::DAR_ArcanePullSpell); }
            return Some(SpellKeyword::DAR_ArcanePullSpell);
        }
        if str_eq(s, "DAR_ArcaneWeaponSpell") {
            proof { lemma_parse_name(SpellKeyword::DAR_ArcaneWeaponSpell); }
            return Some(SpellKeyword::DAR_ArcaneWeaponSpell);
        }
        if str_eq(s, "DAR_ArclightBodySpell") {
            proof { lemma_parse_name(SpellKeyword::DAR_ArclightBodySpell); }
            return Some(SpellKeyword::DAR_ArclightBodySpell);
        }
        if str_eq(s, "DAR_AstralBodySpell") {
            proof { lemma_parse_name(SpellKeyword::DAR_AstralBodySpell); }
            return Some(SpellKeyword::DAR_AstralBodySpell);
        }
        if str_eq(s, "DAR_AstralRestoreSpell") {
            proof { lemma_parse_name(SpellKeyword::DAR_AstralRestoreSpell); }
            return Some(SpellKeyword::DAR_AstralRestoreSpell);
        }
        if str_eq(s, "DAR_AstralStarSpell") {
            proof { lemma_parse_name(SpellKeyword::DAR_AstralStarSpell); }
            return Some(SpellKeyword::DAR_AstralStarSpell);
        }
        if str_eq(s, "DAR_EldritchFrenzySpell") {
            proof { lemma_parse_name(SpellKeyword::DAR_EldritchFrenzySpell); }
            return Some(SpellKeyword::DAR_EldritchFrenzySpell);
        }
        if str_eq(s, "DAR_EldritchHardnessSpell") {
            proof { lemma_parse_name(SpellKeyword::DAR_EldritchHardnessSpell); }
            return Some(SpellKeyword::DAR_EldritchHardnessSpell);
        }
        if str_eq(s, "DAR_EldritchInfectionSpell") {
            proof { lemma_parse_name(SpellKeyword::DAR_EldritchInfectionSpell); }
            return Some(SpellKeyword::DAR_EldritchInfectionSpell);
        }
        if str_eq(s, "DAR_EldritchWeaveSpell") {
            proof { lemma_parse_name(SpellKeyword::DAR_EldritchWeaveSpell); }
            return Some(SpellKeyword::DAR_EldritchWeaveSpell);
        }
        if str_eq(s, "DAR_MagicSkoriaSlow") {
            proof { lemma_parse_name(SpellKeyword::DAR_MagicSkoriaSlow); }
            return Some(SpellKeyword::DAR_MagicSkoriaSlow);
        }
        if str_eq(s, "DAR_MagicWeaponSlow") {
            proof { lemma_parse_name(SpellKeyword::DAR_MagicWeaponSlow); }
            return Some(SpellKeyword::DAR_MagicWeaponSlow);
        }
        if str_eq(s, "DAR_MoltenBodySpell") {
            proof { lemma_parse_name(SpellKeyword::DAR_MoltenBodySpell); }
            return Some(SpellKeyword::DAR_MoltenBodySpell);
        }
        if str_eq(s, "DAR_NecroticDamageBlocker") {
            proof { lemma_parse_name(SpellKeyword::DAR_NecroticDamageBlocker); }
            return Some(SpellKeyword::DAR_NecroticDamageBlocker);
        }
        if str_eq(s, "DAR_WeakenWeapons") {
            proof { lemma_parse_name(SpellKeyword::DAR_WeakenWeapons); }
            return Some(SpellKeyword::DAR_WeakenWeapons);
        }
        if str_eq(s, "LUN_LunarBodySpell") {
            proof { lemma_parse_name(SpellKeyword::LUN_LunarBodySpell); }
            return Some(SpellKeyword::LUN_LunarBodySpell);
        }
        if str_eq(s, "NAT_MagicAspectofFurySpell") {
            proof { lemma_parse_name(SpellKeyword::NAT_MagicAspectofFurySpell); }
            return Some(SpellKeyword::NAT_MagicAspectofFurySpell);
        }
        if str_eq(s, "NAT_MagicAttunementSpell") {
            proof { lemma_parse_name(SpellKeyword::NAT_MagicAttunementSpell); }
            return Some(SpellKeyword::NAT_MagicAttunementSpell);
        }
        if str_eq(s, "NAT_MagicNatureHealingSpell") {
            proof { lemma_parse_name(SpellKeyword::NAT_MagicNatureHealingSpell); }
            return Some(SpellKeyword::NAT_MagicNatureHealingSpell);
        }
        if str_eq(s, "NAT_MagicReflectSpell") {
            proof { lemma_parse_name(SpellKeyword::NAT_MagicReflectSpell); }
            return Some(SpellKeyword::NAT_MagicReflectSpell);
        }
        if str_eq(s, "NAT_MagicRejuvenateSpell") {
            proof { lemma_parse_name(SpellKeyword::NAT_MagicRejuvenateSpell); }
            return Some(SpellKeyword::NAT_MagicRejuvenateSpell);
        }
        if str_eq(s, "NAT_MagicRevitalizingGrowthSpell") {
            proof { lemma_parse_name(SpellKeyword::NAT_MagicRevitalizingGrowthSpell); }
            return Some(SpellKeyword::NAT_MagicRevitalizingGrowthSpell);
        }
        if str_eq(s, "NAT_MagicRoot") {
            proof { lemma_parse_name(SpellKeyword::NAT_MagicRoot); }
            return Some(SpellKeyword::NAT_MagicRoot);
        }
        if str_eq(s, "NAT_MagicSpikeSpell") {
            proof { lemma_parse_name(SpellKeyword::NAT_MagicSpikeSpell); }
            return Some(SpellKeyword::NAT_MagicSpikeSpell);
        }
        if str_eq(s, "NAT_MagicStrengthSpell") {
            proof { lemma_parse_name(SpellKeyword::NAT_MagicStrengthSpell); }
            return Some(SpellKeyword::NAT_MagicStrengthSpell);
        }
        if str_eq(s, "NAT_MagicThornsSpell") {
            proof { lemma_parse_name(SpellKeyword::NAT_MagicThornsSpell); }
            return Some(SpellKeyword::NAT_MagicThornsSpell);
        }
        if str_eq(s, "NAT_MagicTreeBarkSpell") {
            proof { lemma_parse_name(SpellKeyword::NAT_MagicTreeBarkSpell); }
            return Some(SpellKeyword::NAT_MagicTreeBarkSpell);
        }
        assert forall|k: SpellKeyword| keyword_name(k) != s@ by {
            match k {
                SpellKeyword::IconMagicWater => {},
                SpellKeyword::IconMagicEarth => {},
                SpellKeyword::IconMagicWind => {},
                SpellKeyword::DAR_MagicAspectSpell => {},
                SpellKeyword::DAR_MagicMeleeProcSpell => {},
                SpellKeyword::DAR_UnspecificMagicDamage => {},
                SpellKeyword::MAG_MagicDamageBleed => {},
                SpellKeyword::MAG_MagicDamageMagicka => {},
                SpellKeyword::MAG_MagicDamagePoison => {},
                SpellKeyword::MAG_MagicDamageStamina => {},
                SpellKeyword::MAG_MagicDamageSun => {},
                SpellKeyword::MAG_MagicEffectLight => {},
                SpellKeyword::MAG_MagicFortifySpeed => {},
                SpellKeyword::MAG_MagicInfluenceCommand => {},
                SpellKeyword::MAG_MagicInfluenceCourage => {},
                SpellKeyword::MAG_MagicInfluenceParalysis => {},
                SpellKeyword::MAG_MagicInfluenceSilence => {},
                SpellKeyword::MAG_MagicJumpSpell => {},
                SpellKeyword::MAG_MagicShieldFire => {},
                SpellKeyword::MAG_MagicShieldFrost => {},
                SpellKeyword::MAG_MagicShieldPoison => {},
                SpellKeyword::MAG_MagicShieldSpell => {},
                SpellKeyword::MAG_MagicSlowfallSpell => {},
                SpellKeyword::MAG_MagicSoulTrap => {},
                SpellKeyword::MAG_MagicStaffEnchantment => {},
                SpellKeyword::MAG_MagicStealthSpell => {},
                SpellKeyword::MAG_MagicSummonReanimate => {},
                SpellKeyword::MAG_MagicSummonWeapon => {},
                SpellKeyword::MAG_MagicUnarmedSpell => {},
                SpellKeyword::MAG_MagicWeaponEnchantment => {},
                SpellKeyword::MAG_MagicWeightSpell => {},
                SpellKeyword::MAG_PoisonCloakSpell => {},
                SpellKeyword::MAG_WeapTypeBound => {},
                SpellKeyword::MagicDamageLunar => {},
                SpellKeyword::MagicFlameCloak => {},
                SpellKeyword::ABY_ShadowDamageResist => {},
                SpellKeyword::ABY_ShadowInvisAddonSpell => {},
                SpellKeyword::ABY_ShadowMantleSpell => {},
                SpellKeyword::ABY_ShadowWeaponSpell => {},
                SpellKeyword::BLO_BloodFFSpell => {},
                SpellKeyword::BLO_BloodLustSpell => {},
                SpellKeyword::BLO_BloodSiphonSpell => {},
                SpellKeyword::BLO_BloodStanceSpell => {},
                SpellKeyword::BLO_BloodStealHealthSpell => {},
                SpellKeyword::DAR_ArcaneDamageMagickaRegen => {},
                SpellKeyword::DAR_ArcaneDamageRelease => {},
                SpellKeyword::DAR_ArcanePullSpell => {},
                SpellKeyword::DAR_ArcaneWeaponSpell => {},
                SpellKeyword::DAR_ArclightBodySpell => {},
                SpellKeyword::DAR_AstralBodySpell => {},
                SpellKeyword::DAR_AstralRestoreSpell => {},
                SpellKeyword::DAR_AstralStarSpell => {},
                SpellKeyword::DAR_EldritchFrenzySpell => {},
                SpellKeyword::DAR_EldritchHardnessSpell => {},
                SpellKeyword::DAR_EldritchInfectionSpell => {},
                SpellKeyword::DAR_EldritchWeaveSpell => {},
                SpellKeyword::DAR_MagicSkoriaSlow => {},
                SpellKeyword::DAR_MagicWeaponSlow => {},
                SpellKeyword::DAR_MoltenBodySpell => {},
                SpellKeyword::DAR_NecroticDamageBlocker => {},
                SpellKeyword::DAR_WeakenWeapons => {},
                SpellKeyword::LUN_LunarBodySpell => {},
                SpellKeyword::NAT_MagicAspectofFurySpell => {},
                SpellKeyword::NAT_MagicAttunementSpell => {},
                SpellKeyword::NAT_MagicNatureHealingSpell => {},
                SpellKeyword::NAT_MagicReflectSpell => {},
                SpellKeyword::NAT_MagicRejuvenateSpell => {},
                SpellKeyword::NAT_MagicRevitalizingGrowthSpell => {},
                SpellKeyword::NAT_MagicRoot => {},
                SpellKeyword::NAT_MagicSpikeSpell => {},
                SpellKeyword::NAT_MagicStrengthSpell => {},
                SpellKeyword::NAT_MagicThornsSpell => {},
                SpellKeyword::NAT_MagicTreeBarkSpell => {},
            }
        }
        None
    }
}

/// The keywords recognised among `keywords`, in order.
pub fn recognize_keywords(keywords: &Vec<String>) -> (tags: Vec<SpellKeyword>)
    ensures
        tags@ == recognized(keywords@),
{
    let mut tags: Vec<SpellKeyword> = Vec::new();
    let mut i: usize = 0;
    while i < keywords.len()
        invariant
            i <= keywords@.len(),
            tags@ == recognized(keywords@.take(i as int)),
        decreases keywords@.len() - i,
    {
        let parsed = SpellKeyword::from_name(keywords[i].as_str());
        assert(keywords@.take(i + 1).drop_last() =~= keywords@.take(i as int));
        if let Some(k) = parsed {
            tags.push(k);
        }
        i = i + 1;
    }
    assert(keywords@.take(keywords@.len() as int) =~= keywords@);
    tags
}

/// Whether `k` occurs in `tags`.
pub fn has_keyword(tags: &Vec<SpellKeyword>, k: SpellKeyword) -> (res: bool)
    ensures
        res == tags@.contains(k),
{
    let mut i: usize = 0;
    while i < tags.len()
        invariant
            i <= tags@.len(),
            forall|j: int| 0 <= j < i ==> tags@[j] != k,
        decreases tags@.len() - i,
    {
        if tags[i] == k {
            return true;
        }
        i = i + 1;
    }
    false
}

} // verus!
