use blue_archive::fetcher::find_student_by_name;
use blue_archive::text::{decimal_text, same_ignoring_case, same_text, truth_text};
use blue_archive::types::student::Student;
use blue_archive::{School, StudentFetcher, ID};

fn named(id: u32, name: &str, personal: &str, family: &str) -> Student {
    Student {
        id: ID(id),
        name: name.to_string(),
        personal_name: personal.to_string(),
        family_name: family.to_string(),
        school: "Millennium".to_string(),
        ..Student::default()
    }
}

fn fetcher() -> StudentFetcher {
    StudentFetcher::new(vec![
        named(10004, "Asuna", "Asuna", "Ichinose"),
        named(10007, "Iori", "Iori", "Shiromi"),
        named(10045, "Iori (Swimsuit)", "Iori", "Shiromi"),
        named(10039, "Asuna (Bunny)", "Asuna", "Ichinose"),
    ])
}

#[test]
fn a_student_is_found_by_any_of_her_names() {
    let fetcher = fetcher();
    assert_eq!(fetcher.get_student_by_name("Asuna").unwrap().id, ID(10004));
    assert_eq!(fetcher.get_student_by_name("Ichinose").unwrap().id, ID(10004));
    assert_eq!(fetcher.get_student_by_name("Asuna Ichinose").unwrap().id, ID(10004));
    assert_eq!(fetcher.get_student_by_name("Ichinose Asuna").unwrap().id, ID(10004));
    assert_eq!(fetcher.get_student_by_name("Iori (Swimsuit)").unwrap().id, ID(10045));
    assert_eq!(fetcher.get_student_by_name("Asuna (Bunny)").unwrap().id, ID(10039));
}

#[test]
fn the_case_of_the_letters_does_not_matter_in_a_name() {
    let fetcher = fetcher();
    assert_eq!(fetcher.get_student_by_name("ASUNA").unwrap().id, ID(10004));
    assert_eq!(fetcher.get_student_by_name("asuna ichinose").unwrap().id, ID(10004));
    assert_eq!(fetcher.get_student_by_name("iORI (sWIMSUIT)").unwrap().id, ID(10045));
    assert_eq!(fetcher.get_student_by_name("SHIROMI").unwrap().id, ID(10007));
}

#[test]
fn a_name_that_nobody_answers_to_finds_nobody() {
    let fetcher = fetcher();
    assert!(fetcher.get_student_by_name("Aris").is_none());
    assert!(fetcher.get_student_by_name("Asuna  Ichinose").is_none());
    assert!(fetcher.get_student_by_name("Asun").is_none());
    assert!(fetcher.get_student_by_name("").is_none());
    assert!(StudentFetcher::new(vec![]).get_student_by_name("Asuna").is_none());
    assert!(find_student_by_name(&[], "Asuna").is_none());
}

#[test]
fn of_several_students_of_a_name_the_first_is_found() {
    let students = fetcher().students;
    assert_eq!(find_student_by_name(&students, "iori").unwrap().name, "Iori");
    assert_eq!(find_student_by_name(&students[2..], "iori").unwrap().name, "Iori (Swimsuit)");
}

#[test]
fn a_student_is_found_by_her_identifier() {
    let fetcher = fetcher();
    assert_eq!(fetcher.get_student_by_id(10045).unwrap().name, "Iori (Swimsuit)");
    assert_eq!(fetcher.get_student_by_id(10004).unwrap(), fetcher.students[0]);
    assert!(fetcher.get_student_by_id(1).is_none());
}

#[test]
fn a_random_student_is_one_of_the_list() {
    let fetcher = fetcher();
    for _ in 0..50 {
        let picked = fetcher.get_random_student().unwrap();
        assert!(fetcher.students.iter().any(|student| std::ptr::eq(student, picked)));
    }
    let one = StudentFetcher::new(vec![named(1, "Only", "Only", "One")]);
    assert_eq!(one.get_random_student().unwrap().name, "Only");
    assert!(StudentFetcher::new(vec![]).get_random_student().is_none());
}

#[test]
fn random_students_are_drawn_without_repetition() {
    let fetcher = fetcher();
    for amount in 0..=4 {
        for _ in 0..20 {
            let picked = fetcher.get_random_students(amount);
            assert_eq!(picked.len(), amount);
            let mut ids: Vec<u32> = picked.iter().map(|student| student.id.0).collect();
            ids.sort();
            ids.dedup();
            assert_eq!(ids.len(), amount);
            for student in picked {
                assert!(fetcher.students.iter().any(|held| std::ptr::eq(held, student)));
            }
        }
    }
}

#[test]
fn asking_for_more_students_than_there_are_gives_them_all() {
    let fetcher = fetcher();
    let picked = fetcher.get_random_students(10);
    let mut ids: Vec<u32> = picked.iter().map(|student| student.id.0).collect();
    ids.sort();
    assert_eq!(ids, vec![10004, 10007, 10039, 10045]);
    assert!(StudentFetcher::new(vec![]).get_random_students(3).is_empty());
}

#[test]
fn a_fetcher_starts_a_chain_over_its_students() {
    let fetcher = fetcher();
    assert_eq!(fetcher.filter().finish_ref().len(), 4);
    assert_eq!(fetcher.filter().apply(School::Millennium).apply(ID(10007)).finish_ref().len(), 1);
    assert!(fetcher.filter().apply(School::Trinity).finish_ref().is_empty());
}

#[test]
fn texts_compare_without_regard_to_case() {
    assert!(same_ignoring_case("Pyroxenes", "pyroxenes"));
    assert!(same_ignoring_case("T1 HAIRPIN", "t1 Hairpin"));
    assert!(same_ignoring_case("", ""));
    assert!(!same_ignoring_case("Pyroxene", "Pyroxenes"));
    assert!(!same_ignoring_case("a b", "ab"));
}

#[test]
fn numbers_and_truth_values_are_written_plainly() {
    assert_eq!(decimal_text(0), "0");
    assert_eq!(decimal_text(9), "9");
    assert_eq!(decimal_text(10), "10");
    assert_eq!(decimal_text(1234567890), "1234567890");
    assert_eq!(decimal_text(u32::MAX), "4294967295");
    assert_eq!(truth_text(true), "true");
    assert_eq!(truth_text(false), "false");
}

#[test]
fn texts_are_the_same_when_every_character_is() {
    assert!(same_text("", ""));
    assert!(same_text("Trinity", "Trinity"));
    assert!(same_text("h\u{e9}llo \u{1f600}", "h\u{e9}llo \u{1f600}"));
    assert!(!same_text("Trinity", "trinity"));
    assert!(!same_text("Trinity", "Trinit"));
    assert!(!same_text("", " "));
    assert!(!same_text("h\u{e9}llo", "h\u{e8}llo"));
    assert!(!same_text("\u{e9}", "e\u{301}"));
}
