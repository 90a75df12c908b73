use blue_archive::api::{
    gather, CharacterNameOrQuery, Endpoint, Endpoints, EquipmentIDOrName, Query, QueryKind,
    StudentQueryBuilder,
};
use blue_archive::{
    Armor, BulletType, Language, Position, School, Squad, TacticalRole, WeaponType,
};

#[test]
fn a_condition_is_written_as_a_key_and_a_value() {
    assert_eq!(Query::Role(TacticalRole::DamageDealer).to_string(), "role=Damage Dealer");
    assert_eq!(Query::SquadType(Squad::Support).to_string(), "type=Support");
    assert_eq!(Query::School(School::Abydos).to_string(), "school=Abydos");
    assert_eq!(Query::Position(Position::Front).to_string(), "position=Front");
    assert_eq!(Query::Weapon(WeaponType::AR).to_string(), "weapon=AR");
    assert_eq!(Query::Damage(BulletType::Explosion).to_string(), "damage=Explosion");
    assert_eq!(Query::Armor(Armor::HeavyArmor).to_string(), "heavy%20armor=Heavy Armor");
    assert_eq!(Query::ID(10004).to_string(), "10004?id=true");
    assert_eq!(Query::Released(true).to_string(), "?released=true");
    assert_eq!(Query::Released(false).to_string(), "?released=false");
    assert_eq!(Query::School(School::Unknown("X".to_string())).to_string(), "school=Unknown");
}

#[test]
fn a_new_builder_asks_for_every_student() {
    let builder = StudentQueryBuilder::new();
    assert!(builder.kind.is_none());
    assert_eq!(builder.query_string, "");
    assert_eq!(StudentQueryBuilder::new().build().to_string(), "");
    assert_eq!(StudentQueryBuilder::new().build_empty().to_string(), "");
}

#[test]
fn a_query_by_name_is_the_name() {
    let query = StudentQueryBuilder::new().build_with_student_name("Asuna".to_string());
    assert_eq!(query.to_string(), "Asuna");
}

#[test]
fn a_single_condition_follows_the_word_query() {
    let query = StudentQueryBuilder::new().build_with_single(Query::School(School::Hyakkiyako));
    assert_eq!(query.to_string(), "query?school=Hyakkiyako");
    let query = StudentQueryBuilder::new().build_with_single(Query::Weapon(WeaponType::SG));
    assert_eq!(query.0, "query?weapon=SG");
}

#[test]
fn a_condition_on_the_identifier_or_the_release_stands_alone() {
    let query = StudentQueryBuilder::new().build_with_single(Query::ID(10020));
    assert_eq!(query.to_string(), "10020?id=true");
    let query = StudentQueryBuilder::new().build_with_single(Query::Released(true));
    assert_eq!(query.to_string(), "?released=true");
}

#[test]
fn several_conditions_are_joined_by_ampersands() {
    let query = StudentQueryBuilder::new().build_with_multiple(vec![
        Query::School(School::SRT),
        Query::Position(Position::Front),
        Query::ID(7),
    ]);
    assert_eq!(query.to_string(), "query?school=SRT&position=Front&7?id=true");
    let query =
        StudentQueryBuilder::new().build_with_multiple(vec![Query::Damage(BulletType::Mystic)]);
    assert_eq!(query.to_string(), "query?damage=Mystic");
    let query = StudentQueryBuilder::new().build_with_multiple(vec![]);
    assert_eq!(query.to_string(), "query?");
}

#[test]
fn a_builder_writes_what_it_holds() {
    let builder = StudentQueryBuilder {
        kind: Some(QueryKind::Single(Query::SquadType(Squad::Main))),
        query_string: "left over".to_string(),
    };
    assert_eq!(builder.build().to_string(), "query?type=Main");
    let builder = StudentQueryBuilder { kind: None, query_string: "left over".to_string() };
    assert_eq!(builder.build().to_string(), "left over");
    let builder = StudentQueryBuilder { kind: None, query_string: "left over".to_string() };
    assert_eq!(builder.build_empty().to_string(), "");
}

#[test]
fn a_data_file_is_addressed_by_language_and_name() {
    let data = "https://raw.githubusercontent.com/lonqie/SchaleDB/main/data";
    assert_eq!(Endpoint::Students.url(&Language::English), format!("{data}/en/students.json"));
    assert_eq!(Endpoint::Enemies.url(&Language::Japanese), format!("{data}/jp/enemies.json"));
    assert_eq!(Endpoint::Equipment.url(&Language::Korean), format!("{data}/kr/equipment.json"));
    assert_eq!(Endpoint::Currency.url(&Language::Thai), format!("{data}/th/currency.json"));
    assert_eq!(Endpoint::Raids.url(&Language::Taiwanese), format!("{data}/tw/raids.json"));
    assert_eq!(Endpoint::Summons.url(&Language::Vietnamese), format!("{data}/vi/summons.json"));
    assert_eq!(Endpoint::_Items.url(&Language::Chinese), format!("{data}/cn/_items.json"));
    assert_eq!(Endpoint::_Furniture.url(&Language::English), format!("{data}/en/_furniture.json"));
    assert_eq!(
        Endpoint::_Localization.url(&Language::English),
        format!("{data}/en/_localization.json")
    );
}

#[test]
fn the_query_service_is_addressed_by_what_is_asked() {
    assert_eq!(Endpoints::Status.path(), "");
    assert_eq!(Endpoints::Status.url(), "https://api.ennead.cc/buruaka/");
    assert_eq!(Endpoints::Character(None).path(), "character/");
    assert_eq!(
        Endpoints::Character(Some(CharacterNameOrQuery::Name("Asuna".to_string()))).path(),
        "character/Asuna"
    );
    assert_eq!(
        Endpoints::Character(Some(CharacterNameOrQuery::Query(vec![
            Query::School(School::Abydos),
            Query::Armor(Armor::LightArmor),
        ])))
        .url(),
        "https://api.ennead.cc/buruaka/character/query?school=Abydos&heavy%20armor=Light Armor"
    );
    assert_eq!(Endpoints::Equipment(EquipmentIDOrName::ID(6000)).path(), "equipment/6000?id=true");
    assert_eq!(
        Endpoints::Equipment(EquipmentIDOrName::Name("t1 hairpin".to_string())).path(),
        "equipment/t1 hairpin"
    );
    assert_eq!(Endpoints::Raid.path(), "raid");
    assert_eq!(Endpoints::Banner.url(), "https://api.ennead.cc/buruaka/banner");
}

#[test]
fn stages_have_no_address() {
    assert_eq!(Endpoints::Stage.checked_url(), None);
    assert_eq!(
        Endpoints::Raid.checked_url(),
        Some("https://api.ennead.cc/buruaka/raid".to_string())
    );
}

#[test]
fn answers_are_gathered_in_the_order_of_the_requests() {
    let answers: Vec<Result<u32, String>> = vec![Ok(3), Ok(1), Ok(2)];
    assert_eq!(gather(answers), Ok(vec![3, 1, 2]));
    let none: Vec<Result<u32, String>> = vec![];
    assert_eq!(gather(none), Ok(vec![]));
}

#[test]
fn the_first_failure_is_the_answer_to_all() {
    let answers: Vec<Result<u32, String>> =
        vec![Ok(3), Err("second".to_string()), Ok(2), Err("fourth".to_string())];
    assert_eq!(gather(answers), Err("second".to_string()));
    let answers: Vec<Result<u32, String>> = vec![Err("first".to_string())];
    assert_eq!(gather(answers), Err("first".to_string()));
}
