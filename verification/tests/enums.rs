use blue_archive::{
    Armor, BulletType, Club, Language, Position, School, Squad, TacticalRole, WeaponType,
};

#[test]
fn a_known_school_is_read_from_its_name() {
    assert_eq!(School::from_raw("Trinity"), School::Trinity);
    assert_eq!(School::from_raw("RedWinter"), School::RedWinter);
    assert_eq!(School::from_raw("SRT"), School::SRT);
}

#[test]
fn a_name_that_is_not_known_is_kept_as_it_is() {
    assert_eq!(School::from_raw("Highlander"), School::Unknown("Highlander".to_string()));
    assert_eq!(School::from_raw("trinity"), School::Unknown("trinity".to_string()));
    assert_eq!(School::from_raw("Trinity "), School::Unknown("Trinity ".to_string()));
    assert_eq!(School::from_raw(""), School::Unknown(String::new()));
    assert_eq!(School::from_raw("Unknown"), School::Unknown("Unknown".to_string()));
    assert_eq!(School::from_raw("Red Winter"), School::Unknown("Red Winter".to_string()));
}

#[test]
fn unknown_values_are_equal_when_their_texts_are() {
    assert_eq!(School::Unknown("X".to_string()), School::Unknown("X".to_string()));
    assert_ne!(School::Unknown("X".to_string()), School::Unknown("Y".to_string()));
    assert_ne!(School::Unknown("Trinity".to_string()), School::Trinity);
    assert_ne!(School::Abydos, School::Trinity);
    assert_eq!(School::Abydos.clone(), School::Abydos);
    assert_eq!(Club::Unknown("X".to_string()).clone(), Club::Unknown("X".to_string()));
}

#[test]
fn a_role_is_read_from_either_of_its_names() {
    assert_eq!(TacticalRole::from_raw("DamageDealer"), TacticalRole::DamageDealer);
    assert_eq!(TacticalRole::from_raw("Damage Dealer"), TacticalRole::DamageDealer);
    assert_eq!(TacticalRole::from_raw("Tanker"), TacticalRole::Tanker);
    assert_eq!(
        TacticalRole::from_raw("Damagedealer"),
        TacticalRole::Unknown("Damagedealer".to_string())
    );
}

#[test]
fn an_armor_is_read_from_either_of_its_names() {
    assert_eq!(Armor::from_raw("Unarmed"), Armor::Unarmed);
    assert_eq!(Armor::from_raw("ElasticArmor"), Armor::ElasticArmor);
    assert_eq!(Armor::from_raw("Elastic Armor"), Armor::ElasticArmor);
    assert_eq!(Armor::from_raw("HeavyArmor"), Armor::HeavyArmor);
    assert_eq!(Armor::from_raw("Light Armor"), Armor::LightArmor);
    assert_eq!(Armor::from_raw("Normal"), Armor::Unknown("Normal".to_string()));
}

#[test]
fn squads_positions_and_bullet_types_are_read_from_their_names() {
    assert_eq!(Squad::from_raw("Main"), Squad::Main);
    assert_eq!(Squad::from_raw("Support"), Squad::Support);
    assert_eq!(Squad::from_raw("Striker"), Squad::Unknown("Striker".to_string()));
    assert_eq!(Position::from_raw("Front"), Position::Front);
    assert_eq!(Position::from_raw("Middle"), Position::Middle);
    assert_eq!(Position::from_raw("Back"), Position::Back);
    assert_eq!(BulletType::from_raw("Explosion"), BulletType::Explosion);
    assert_eq!(BulletType::from_raw("Mystic"), BulletType::Mystic);
    assert_eq!(BulletType::from_raw("Penetration"), BulletType::Penetration);
    assert_eq!(BulletType::from_raw("Piercing"), BulletType::Unknown("Piercing".to_string()));
}

#[test]
fn a_club_is_read_from_its_tag_and_from_its_name() {
    assert_eq!(Club::from_raw("Kohshinjo68"), Club::ProblemSolver68);
    assert_eq!(Club::from_raw("Problem Solver 68"), Club::ProblemSolver68);
    assert_eq!(Club::from_raw("Veritas"), Club::Veritas);
    assert_eq!(Club::from_raw("CleanNClearing"), Club::CleaningAndClearing);
    assert_eq!(Club::from_raw("Cleaning & Clearing"), Club::CleaningAndClearing);
    assert_eq!(Club::from_raw("SisterHood"), Club::Sisterhood);
    assert_eq!(Club::from_raw("Sisterhood"), Club::Sisterhood);
    assert_eq!(Club::from_raw("anzenkyoku"), Club::PublicSafetyBureau);
    assert_eq!(Club::from_raw("HotSpringsDepartment"), Club::HotSpringsClub);
    assert_eq!(Club::from_raw("Hot Spring Club"), Club::HotSpringsClub);
    assert_eq!(Club::from_raw("ProblemSolver68"), Club::Unknown("ProblemSolver68".to_string()));
}

#[test]
fn weapon_types_are_read_from_their_letters() {
    assert_eq!(WeaponType::from_raw("AR"), WeaponType::AR);
    assert_eq!(WeaponType::from_raw("SMG"), WeaponType::SMG);
    assert_eq!(WeaponType::from_raw("RG"), WeaponType::RG);
    assert_eq!(WeaponType::from_raw("ar"), WeaponType::Unknown("ar".to_string()));
}

#[test]
fn categories_are_shown_by_their_names() {
    assert_eq!(School::RedWinter.to_string(), "RedWinter");
    assert_eq!(School::Unknown("Highlander".to_string()).to_string(), "Unknown");
    assert_eq!(TacticalRole::DamageDealer.to_string(), "Damage Dealer");
    assert_eq!(TacticalRole::Healer.to_string(), "Healer");
    assert_eq!(Squad::Main.to_string(), "Main");
    assert_eq!(Armor::HeavyArmor.to_string(), "Heavy Armor");
    assert_eq!(Armor::Unarmed.to_string(), "Unarmed");
    assert_eq!(Position::Middle.to_string(), "Middle");
    assert_eq!(BulletType::Penetration.to_string(), "Penetration");
    assert_eq!(Club::SpecOpsNumber227.to_string(), "Spec Ops #227");
    assert_eq!(Club::RedWinterSecretary.to_string(), "Red Winter Office");
    assert_eq!(Club::Veritas.to_string(), "Veritas");
    assert_eq!(Club::Unknown("X".to_string()).to_string(), "Unknown");
    assert_eq!(WeaponType::SMG.to_string(), "SMG");
}

#[test]
fn what_is_shown_is_read_back_as_the_same_value() {
    let clubs = [
        Club::ProblemSolver68,
        Club::MakeUpWorkClub,
        Club::AfterSchoolSweetsClub,
        Club::RABBITSquad,
        Club::TeaParty,
    ];
    for club in clubs {
        assert_eq!(Club::from_raw(&club.to_string()), club);
    }
    assert_eq!(Armor::from_raw(&Armor::LightArmor.to_string()), Armor::LightArmor);
}

#[test]
fn schools_have_full_names() {
    assert_eq!(School::Abydos.full_name(), "Abydos High School");
    assert_eq!(School::Hyakkiyako.full_name(), "Hyakkiyako Alliance Academy");
    assert_eq!(School::RedWinter.full_name(), "Red Winter Federal Academy");
    assert_eq!(School::SRT.full_name(), "SRT Special Academy");
    assert_eq!(School::Unknown("Highlander".to_string()).full_name(), "Highlander");
}

#[test]
fn weapon_types_have_full_names() {
    assert_eq!(WeaponType::AR.full_name(), "Assault Rifle");
    assert_eq!(WeaponType::GL.full_name(), "Grenade Launcher");
    assert_eq!(WeaponType::FT.full_name(), "Flamethrower");
    assert_eq!(WeaponType::HG.full_name(), "Handgun");
    assert_eq!(WeaponType::MG.full_name(), "Machine Gun");
    assert_eq!(WeaponType::MT.full_name(), "Mortar");
    assert_eq!(WeaponType::RG.full_name(), "Railgun");
    assert_eq!(WeaponType::RL.full_name(), "Rocket Launcher");
    assert_eq!(WeaponType::SG.full_name(), "Shotgun");
    assert_eq!(WeaponType::SMG.full_name(), "Submachine Gun");
    assert_eq!(WeaponType::SR.full_name(), "Sniper Rifle");
    assert_eq!(WeaponType::Unknown("Bow".to_string()).full_name(), "Bow");
}

#[test]
fn squads_have_a_second_name() {
    assert_eq!(Squad::Main.alt_name(), "Striker");
    assert_eq!(Squad::Support.alt_name(), "Special");
    assert_eq!(Squad::Unknown("Reserve".to_string()).alt_name(), "Reserve");
}

#[test]
fn languages_have_two_letters() {
    assert_eq!(Language::English.id(), "en");
    assert_eq!(Language::Chinese.id(), "cn");
    assert_eq!(Language::Japanese.id(), "jp");
    assert_eq!(Language::Korean.id(), "kr");
    assert_eq!(Language::Thai.id(), "th");
    assert_eq!(Language::Taiwanese.id(), "tw");
    assert_eq!(Language::Vietnamese.id(), "vi");
    assert_eq!(Language::English.to_string(), "English");
    assert_eq!(Language::Taiwanese.to_string(), "Taiwanese");
}
