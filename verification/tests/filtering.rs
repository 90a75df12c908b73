use blue_archive::types::student::Student;
use blue_archive::{
    filter, Age, Armor, BulletType, Club, Position, Released, School, Squad, StudentFilter,
    StudentFilterOptions, TacticalRole, WeaponType, ID,
};

fn student(name: &str, school: &str, age: &str) -> Student {
    Student {
        name: name.to_string(),
        school: school.to_string(),
        character_age: age.to_string(),
        ..Student::default()
    }
}

fn three_students() -> Vec<Student> {
    vec![
        student("A", "Trinity", "17 years old"),
        student("B", "Trinity", "16 years old"),
        student("C", "Abydos", "17 years old"),
    ]
}

fn names(students: &[&Student]) -> Vec<String> {
    students.iter().map(|student| student.name.clone()).collect()
}

fn roster() -> Vec<Student> {
    vec![
        Student {
            id: ID(10000),
            name: "Aru".to_string(),
            school: "Gehenna".to_string(),
            club: "Kohshinjo68".to_string(),
            squad_type: "Main".to_string(),
            tactic_role: "DamageDealer".to_string(),
            position: "Back".to_string(),
            bullet_type: "Explosion".to_string(),
            armor_type: "LightArmor".to_string(),
            weapon_type: "SR".to_string(),
            character_age: "16 years old".to_string(),
            is_released: (true, true, true),
            ..Student::default()
        },
        Student {
            id: ID(10004),
            name: "Asuna".to_string(),
            school: "Millennium".to_string(),
            club: "CleanNClearing".to_string(),
            squad_type: "Main".to_string(),
            tactic_role: "DamageDealer".to_string(),
            position: "Front".to_string(),
            bullet_type: "Mystic".to_string(),
            armor_type: "LightArmor".to_string(),
            weapon_type: "AR".to_string(),
            character_age: "17 years old".to_string(),
            is_released: (true, true, true),
            ..Student::default()
        },
        Student {
            id: ID(10020),
            name: "Koharu".to_string(),
            school: "Trinity".to_string(),
            club: "RemedialClass".to_string(),
            squad_type: "Main".to_string(),
            tactic_role: "Healer".to_string(),
            position: "Back".to_string(),
            bullet_type: "Explosion".to_string(),
            armor_type: "HeavyArmor".to_string(),
            weapon_type: "SG".to_string(),
            character_age: "15 years old".to_string(),
            is_released: (true, true, false),
            ..Student::default()
        },
        Student {
            id: ID(20001),
            name: "Hibiki".to_string(),
            school: "Millennium".to_string(),
            club: "Engineer".to_string(),
            squad_type: "Support".to_string(),
            tactic_role: "Supporter".to_string(),
            position: "Back".to_string(),
            bullet_type: "Explosion".to_string(),
            armor_type: "Elastic Armor".to_string(),
            weapon_type: "MT".to_string(),
            character_age: "Top Secret".to_string(),
            is_released: (true, false, false),
            ..Student::default()
        },
        Student {
            id: ID(30000),
            name: "Visitor".to_string(),
            school: "Highlander".to_string(),
            club: "Railway Club".to_string(),
            squad_type: "Reserve".to_string(),
            tactic_role: "Scout".to_string(),
            position: "Center".to_string(),
            bullet_type: "Sonic".to_string(),
            armor_type: "Structure".to_string(),
            weapon_type: "Bow".to_string(),
            character_age: "300 years old".to_string(),
            is_released: (false, false, false),
            ..Student::default()
        },
    ]
}

#[test]
fn school_then_age_keeps_the_one_student_that_passes_both() {
    let students = three_students();
    let found = filter(&students).apply(School::Trinity).apply(Age(Some(17))).finish();
    assert_eq!(found, vec![student("A", "Trinity", "17 years old")]);
}

#[test]
fn an_age_that_nobody_has_keeps_nobody() {
    let students = three_students();
    let found = filter(&students).apply(Age(Some(99))).finish_ref();
    assert!(found.is_empty());
}

#[test]
fn a_chain_without_filters_gives_the_whole_list() {
    let students = three_students();
    let found = filter(&students).finish_ref();
    assert_eq!(names(&found), vec!["A", "B", "C"]);
    assert_eq!(filter(&students).finish(), students);
    let nobody: Vec<Student> = Vec::new();
    assert!(filter(&nobody).finish_ref().is_empty());
    assert!(filter(&nobody).finish().is_empty());
}

#[test]
fn a_new_chain_has_kept_nothing_yet_and_one_filter_fills_it() {
    let students = three_students();
    let chain = StudentFilterOptions::new(&students);
    assert!(chain.filtered_students.is_none());
    let chain = chain.apply(School::Abydos);
    let kept = chain.filtered_students.as_ref().unwrap();
    assert_eq!(names(kept), vec!["C"]);
}

#[test]
fn the_same_filter_twice_is_the_same_as_once() {
    let students = roster();
    let once = filter(&students).apply(School::Millennium).finish_ref();
    let twice = filter(&students).apply(School::Millennium).apply(School::Millennium).finish_ref();
    assert_eq!(names(&once), vec!["Asuna", "Hibiki"]);
    assert_eq!(once, twice);
}

#[test]
fn two_filters_keep_the_same_students_in_either_order() {
    let students = roster();
    let one = filter(&students).apply(Position::Back).apply(BulletType::Explosion).finish_ref();
    let other = filter(&students).apply(BulletType::Explosion).apply(Position::Back).finish_ref();
    assert_eq!(names(&one), vec!["Aru", "Koharu", "Hibiki"]);
    assert_eq!(one, other);
}

#[test]
fn each_filter_leaves_no_more_students_than_there_were() {
    let students = roster();
    let all = filter(&students).finish_ref().len();
    let main = filter(&students).apply(Squad::Main).finish_ref().len();
    let main_back = filter(&students).apply(Squad::Main).apply(Position::Back).finish_ref().len();
    let main_back_healer = filter(&students)
        .apply(Squad::Main)
        .apply(Position::Back)
        .apply(TacticalRole::Healer)
        .finish_ref()
        .len();
    assert_eq!((all, main, main_back, main_back_healer), (5, 3, 2, 1));
}

#[test]
fn two_schools_at_once_keep_nobody() {
    let students = three_students();
    let found = filter(&students).apply(School::Trinity).apply(School::Abydos).finish_ref();
    assert!(found.is_empty());
    let found = filter(&students).apply(School::Abydos).apply(School::Trinity).finish();
    assert!(found.is_empty());
}

#[test]
fn an_unknown_school_matches_the_students_of_exactly_that_name() {
    let students = roster();
    let highlander = filter(&students).apply(School::Unknown("Highlander".to_string())).finish_ref();
    assert_eq!(names(&highlander), vec!["Visitor"]);
    let other = filter(&students).apply(School::Unknown("highlander".to_string())).finish_ref();
    assert!(other.is_empty());
    let known = filter(&students).apply(School::Unknown("Trinity".to_string())).finish_ref();
    assert!(known.is_empty());
    let empty = filter(&students).apply(School::Unknown(String::new())).finish_ref();
    assert!(empty.is_empty());
}

#[test]
fn a_student_whose_school_is_named_unknown_is_of_the_unknown_school_of_that_name() {
    let students = vec![student("X", "Unknown", "1"), student("Y", "", "2")];
    let named = filter(&students).apply(School::Unknown("Unknown".to_string())).finish_ref();
    assert_eq!(names(&named), vec!["X"]);
    let unnamed = filter(&students).apply(School::Unknown(String::new())).finish_ref();
    assert_eq!(names(&unnamed), vec!["Y"]);
}

#[test]
fn every_kind_of_filter_reads_its_own_field() {
    let students = roster();
    let by = |found: Vec<&Student>| names(&found);
    assert_eq!(by(Age(Some(16)).filter(&students)), vec!["Aru"]);
    assert_eq!(by(Age(None).filter(&students)), vec!["Hibiki", "Visitor"]);
    assert_eq!(
        by(Released { japan: true, global: true, china: false }.filter(&students)),
        vec!["Koharu"]
    );
    assert_eq!(by(ID(10004).filter(&students)), vec!["Asuna"]);
    assert_eq!(by(School::Gehenna.filter(&students)), vec!["Aru"]);
    assert_eq!(by(TacticalRole::DamageDealer.filter(&students)), vec!["Aru", "Asuna"]);
    assert_eq!(by(Squad::Support.filter(&students)), vec!["Hibiki"]);
    assert_eq!(by(Armor::LightArmor.filter(&students)), vec!["Aru", "Asuna"]);
    assert_eq!(by(Armor::ElasticArmor.filter(&students)), vec!["Hibiki"]);
    assert_eq!(by(Position::Front.filter(&students)), vec!["Asuna"]);
    assert_eq!(by(BulletType::Mystic.filter(&students)), vec!["Asuna"]);
    assert_eq!(by(Club::MakeUpWorkClub.filter(&students)), vec!["Koharu"]);
    assert_eq!(by(Club::Unknown("Railway Club".to_string()).filter(&students)), vec!["Visitor"]);
    assert_eq!(by(WeaponType::SG.filter(&students)), vec!["Koharu"]);
    assert_eq!(by(WeaponType::RG.filter(&students)), Vec::<String>::new());
}

#[test]
fn the_position_filter_reads_the_position_and_not_the_armor() {
    let students = vec![Student {
        name: "Odd".to_string(),
        position: "Middle".to_string(),
        armor_type: "Front".to_string(),
        ..Student::default()
    }];
    assert_eq!(names(&Position::Middle.filter(&students)), vec!["Odd"]);
    assert!(Position::Front.filter(&students).is_empty());
}

#[test]
fn the_result_keeps_the_order_of_the_list() {
    let students = roster();
    let found = filter(&students).apply(Position::Back).finish_ref();
    assert_eq!(names(&found), vec!["Aru", "Koharu", "Hibiki"]);
}

#[test]
fn students_that_hold_the_same_are_kept_together() {
    let students = vec![
        student("A", "Trinity", "17 years old"),
        student("A", "Trinity", "17 years old"),
        student("B", "Trinity", "16 years old"),
    ];
    let found = filter(&students).apply(School::Trinity).apply(Age(Some(17))).finish_ref();
    assert_eq!(names(&found), vec!["A", "A"]);
}

#[test]
fn finish_copies_what_finish_ref_points_at() {
    let students = roster();
    let copies = filter(&students).apply(Squad::Main).finish();
    let found = filter(&students).apply(Squad::Main).finish_ref();
    assert_eq!(copies.len(), 3);
    for (copy, held) in copies.iter().zip(found) {
        assert_eq!(copy, held);
    }
}
