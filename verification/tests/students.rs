use blue_archive::types::gear::{EmptyGear, Gear, GearKind, LevelUpType, Weapon};
use blue_archive::types::images::{Portrait, StudentImageData};
use blue_archive::types::student::{Student, StudentSummon};
use blue_archive::types::{Height, Released};
use blue_archive::{
    Age, Armor, BulletType, Club, Position, School, Squad, TacticalRole, WeaponType, ID,
};

fn asuna() -> Student {
    Student {
        id: ID(10004),
        is_released: (true, true, false),
        name: "Asuna".to_string(),
        dev_name: "Asuna".to_string(),
        school: "Millennium".to_string(),
        club: "CleanNClearing".to_string(),
        squad_type: "Main".to_string(),
        tactic_role: "DamageDealer".to_string(),
        position: "Front".to_string(),
        bullet_type: "Mystic".to_string(),
        armor_type: "LightArmor".to_string(),
        weapon_type: "AR".to_string(),
        weapon_img: "Weapon_Icon_10004".to_string(),
        collection_bg: "BG_CleanNClearing".to_string(),
        collection_texture: "Student_Portrait_Asuna_Collection".to_string(),
        family_name: "Ichinose".to_string(),
        personal_name: "Asuna".to_string(),
        character_age: "17 years old".to_string(),
        character_ssr_new: Some("Hey, hey! I&#39;m Asuna &amp; you?".to_string()),
        profile_introduction: "An agent of C&amp;C, &quot;Zero-One&quot;.".to_string(),
        hobby: "Anything that looks fun".to_string(),
        char_height_metric: "167cm".to_string(),
        char_height_imperial: Some("5&#39;5&quot;".to_string()),
        ..Student::default()
    }
}

fn aged(text: &str) -> Age {
    Student { character_age: text.to_string(), ..Student::default() }.age()
}

#[test]
fn names_are_put_together_with_a_space() {
    let student = asuna();
    assert_eq!(student.first_name(), "Asuna");
    assert_eq!(student.last_name(), "Ichinose");
    assert_eq!(student.full_name_last(), "Ichinose Asuna");
    assert_eq!(student.full_name_first(), "Asuna Ichinose");
    assert_eq!(student.full_name_with_last(), "Ichinose Asuna");
    assert_eq!(student.full_name_with_first(), "Asuna Ichinose");
    let nameless = Student::default();
    assert_eq!(nameless.full_name_last(), " ");
}

#[test]
fn the_age_is_the_number_that_the_text_starts_with() {
    assert_eq!(aged("17 years old"), Age(Some(17)));
    assert_eq!(aged("16"), Age(Some(16)));
    assert_eq!(aged("0"), Age(Some(0)));
    assert_eq!(aged("007"), Age(Some(7)));
    assert_eq!(aged("12abc34"), Age(Some(12)));
    assert_eq!(aged("255"), Age(Some(255)));
    assert_eq!(aged("1\u{ff12}"), Age(Some(1)));
}

#[test]
fn without_a_leading_number_there_is_no_age() {
    assert_eq!(aged("Top Secret"), Age(None));
    assert_eq!(aged(""), Age(None));
    assert_eq!(aged(" 17"), Age(None));
    assert_eq!(aged("-5"), Age(None));
    assert_eq!(aged("\u{ff11}\u{ff17}"), Age(None));
}

#[test]
fn a_number_above_255_is_no_age() {
    assert_eq!(aged("256"), Age(None));
    assert_eq!(aged("300 years old"), Age(None));
    assert_eq!(aged("1000"), Age(None));
    assert_eq!(aged("99999999999999999999999999999999"), Age(None));
    assert_eq!(aged("0000000000000000000000000000000000255"), Age(Some(255)));
}

#[test]
fn an_age_reads_from_text_as_the_student_reads_it() {
    assert_eq!(Age::from_raw("15 years old"), Age(Some(15)));
    assert_eq!(Age::from_raw("Unknown"), Age(None));
    assert_eq!(Age::from(17), Age(Some(17)));
}

#[test]
fn an_unknown_age_counts_as_zero_years() {
    assert_eq!(Age(Some(17)).as_u8(), 17);
    assert_eq!(Age(Some(0)).as_u8(), 0);
    assert_eq!(Age(None).as_u8(), 0);
    assert_eq!(Age(Some(17)).to_string(), "17");
    assert_eq!(Age(Some(255)).to_string(), "255");
    assert_eq!(Age(None).to_string(), "None");
}

#[test]
fn the_profile_is_shown_without_character_references() {
    assert_eq!(asuna().description(), "An agent of C&C, \"Zero-One\".");
    let plain = Student { profile_introduction: "No references.".to_string(), ..Student::default() };
    assert_eq!(plain.description(), "No references.");
}

#[test]
fn the_quote_is_decoded_and_an_empty_one_is_none() {
    assert_eq!(asuna().quote_ssr(), Some("Hey, hey! I'm Asuna & you?".to_string()));
    let silent = Student { character_ssr_new: Some(String::new()), ..Student::default() };
    assert_eq!(silent.quote_ssr(), None);
    assert_eq!(Student::default().quote_ssr(), None);
}

#[test]
fn the_height_keeps_the_metric_wording_and_decodes_the_imperial() {
    assert_eq!(
        asuna().height(),
        Height { metric: "167cm".to_string(), imperial: Some("5'5\"".to_string()) }
    );
    assert_eq!(Student::default().height(), Height { metric: String::new(), imperial: None });
}

#[test]
fn a_hobby_worded_none_is_no_hobby() {
    assert_eq!(asuna().hobby(), Some("Anything that looks fun".to_string()));
    let idle = Student { hobby: "None".to_string(), ..Student::default() };
    assert_eq!(idle.hobby(), None);
    let shy = Student { hobby: "none".to_string(), ..Student::default() };
    assert_eq!(shy.hobby(), Some("none".to_string()));
}

#[test]
fn the_release_is_read_from_the_three_flags() {
    assert_eq!(asuna().released(), Released { japan: true, global: true, china: false });
    assert_eq!(
        Released::from_flags(&[false, true, true, false]),
        Released { japan: false, global: true, china: true }
    );
    assert_eq!(
        Released { japan: true, global: false, china: true }.to_string(),
        "(JP: true, GL: false, CN, true)"
    );
}

#[test]
fn the_categories_of_a_student_are_read_from_her_fields() {
    let student = asuna();
    assert_eq!(student.school(), School::Millennium);
    assert_eq!(student.club(), Club::CleaningAndClearing);
    assert_eq!(student.squad(), Squad::Main);
    assert_eq!(student.tactical_role(), TacticalRole::DamageDealer);
    assert_eq!(student.position(), Position::Front);
    assert_eq!(student.bullet_type(), BulletType::Mystic);
    assert_eq!(student.armor(), Armor::LightArmor);
    assert_eq!(student.weapon_type(), WeaponType::AR);
    let blank = Student::default();
    assert_eq!(blank.school(), School::Unknown(String::new()));
    assert_eq!(blank.position(), Position::Unknown(String::new()));
}

#[test]
fn a_student_is_shown_in_one_line() {
    assert_eq!(
        asuna().to_string(),
        "Student : Ichinose Asuna :-: ID#:(10004) | Age:17 | School: Millennium"
    );
    assert_eq!(
        Student::default().to_string(),
        "Student :   :-: ID#:(0) | Age:None | School: Unknown"
    );
}

#[test]
fn identifiers_are_written_in_decimal() {
    assert_eq!(ID(0).to_string(), "ID#:(0)");
    assert_eq!(ID(7).to_string(), "ID#:(7)");
    assert_eq!(ID(10).to_string(), "ID#:(10)");
    assert_eq!(ID(10004).to_string(), "ID#:(10004)");
    assert_eq!(ID(4294967295).to_string(), "ID#:(4294967295)");
}

#[test]
fn the_pictures_of_a_student_are_found_by_her_file_names() {
    let student = asuna();
    let images = "https://raw.githubusercontent.com/lonqie/SchaleDB/main/images";
    assert_eq!(
        StudentImageData::new(&student, true),
        StudentImageData {
            portrait: Portrait {
                full_body_url: format!("{images}/student/portrait/Portrait_Asuna.webp"),
                icon_url: format!("{images}/student/icon/Student_Portrait_Asuna_Collection.png"),
                alternative_full_body_url: Some(format!(
                    "{images}/student/portrait/Portrait_Asuna_2.webp"
                )),
                bg_url: format!("{images}/background/BG_CleanNClearing.jpg"),
            },
            weapon_icon_url: format!("{images}/weapon/Weapon_Icon_10004.png"),
        }
    );
    assert_eq!(StudentImageData::new(&student, false).portrait.alternative_full_body_url, None);
    assert_eq!(
        StudentImageData::alternative_full_body_url(&student),
        format!("{images}/student/portrait/Portrait_Asuna_2.webp")
    );
}

#[test]
fn students_are_equal_when_every_field_is() {
    let student = asuna();
    assert_eq!(student.clone(), student);
    assert_ne!(Student { stars: 3, ..asuna() }, student);
    assert_ne!(Student { character_ssr_new: None, ..asuna() }, student);
    assert_ne!(Student { id: ID(10005), ..asuna() }, student);
    assert_ne!(Student { is_released: (true, true, true), ..asuna() }, student);
    assert_ne!(Student { image: StudentImageData::new(&student, false), ..asuna() }, student);
    assert_ne!(Student { gear: GearKind::Present(sample_gear()), ..asuna() }, student);
    assert_ne!(
        Student { weapon: Weapon { attack_power_1: 1, ..Weapon::default() }, ..asuna() },
        student
    );
}

fn sample_gear() -> Gear {
    Gear {
        released: (true, false, false),
        stat_type: vec!["MaxHP_Base".to_string()],
        stat_value: vec![vec![1000, 1500]],
        name: "Asuna&#39;s Ribbon".to_string(),
        description: "A ribbon.".to_string(),
        icon: "Gear_Icon_10004".to_string(),
        tier_up_material: vec![vec![5000, 5001], vec![5002]],
        tier_up_material_amount: vec![vec![80, 25], vec![4]],
    }
}

#[test]
fn a_student_without_gear_has_none() {
    assert_eq!(asuna().gear(), None);
    assert_eq!(GearKind::Empty(EmptyGear {}).get(), None);
    let geared = Student { gear: GearKind::Present(sample_gear()), ..asuna() };
    assert_eq!(geared.gear(), Some(sample_gear()));
    assert_eq!(GearKind::Present(sample_gear()).get(), Some(&sample_gear()));
}

#[test]
fn a_gear_knows_where_it_is_out_and_where_its_picture_is() {
    let gear = sample_gear();
    assert_eq!(gear.released(), Released { japan: true, global: false, china: false });
    assert_eq!(
        gear.icon_url(),
        "https://raw.githubusercontent.com/lonqie/SchaleDB/main/images/gear/Gear_Icon_10004"
    );
}

#[test]
fn gears_are_equal_when_every_row_is() {
    let gear = sample_gear();
    assert_eq!(gear.clone(), gear);
    assert_ne!(Gear { stat_value: vec![vec![1000, 1501]], ..sample_gear() }, gear);
    assert_ne!(Gear { stat_value: vec![vec![1000]], ..sample_gear() }, gear);
    assert_ne!(Gear { tier_up_material: vec![vec![5000, 5001]], ..sample_gear() }, gear);
    assert_ne!(Gear { tier_up_material_amount: vec![vec![80, 25], vec![5]], ..sample_gear() }, gear);
    assert_ne!(Gear { stat_type: vec!["AttackPower_Base".to_string()], ..sample_gear() }, gear);
    assert_ne!(Gear { stat_type: vec![], ..sample_gear() }, gear);
}

#[test]
fn the_way_a_weapon_grows_is_shown_by_its_name() {
    assert_eq!(LevelUpType::Standard.to_string(), "Standard");
    assert_eq!(LevelUpType::Premature.to_string(), "Premature");
    assert_eq!(LevelUpType::LateBloom.to_string(), "LateBloom");
    assert_eq!(LevelUpType::Unknown.to_string(), "Unknown");
    assert_eq!(Weapon::default().stat_level_up_type, LevelUpType::Unknown);
}

#[test]
fn students_differ_when_a_list_or_a_table_does() {
    let student = asuna();
    assert_ne!(Student { equipment: vec!["Hat".to_string()], ..asuna() }, student);
    assert_ne!(Student { favor_stat_value: vec![vec![1, 2]], ..asuna() }, student);
    assert_ne!(Student { favor_alts: vec![10039], ..asuna() }, student);
    assert_ne!(Student { memory_lobby: vec![5], ..asuna() }, student);
    assert_ne!(Student { furniture_interaction: vec![vec![], vec![7]], ..asuna() }, student);
    assert_ne!(Student { skill_material: vec![vec![3000]], ..asuna() }, student);
    assert_ne!(Student { attack_power_100: 1, ..asuna() }, student);
    assert_ne!(Student { cover: true, ..asuna() }, student);
    let summon = StudentSummon {
        id: ID(99999),
        source_skill: "Ex".to_string(),
        inherit_caster_stat: vec!["AttackPower".to_string()],
        inherit_caster_amount: Some(vec![vec![10000]]),
    };
    let caller = Student { summons: vec![summon.clone()], ..asuna() };
    assert_ne!(caller, student);
    assert_eq!(caller.clone(), caller);
    let other = StudentSummon { inherit_caster_amount: None, ..summon.clone() };
    assert_ne!(Student { summons: vec![other], ..asuna() }, caller);
    assert_ne!(Student { summons: vec![summon.clone(), summon], ..asuna() }, caller);
}
