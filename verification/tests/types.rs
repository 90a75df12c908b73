use blue_archive::types::banners::{Banner, Banners, Gacha};
use blue_archive::types::equipment::{CostType, EquipmentCategory, Shop, ShopCategory};
use blue_archive::types::raids::Faction;
use blue_archive::Released;
use chrono::NaiveDate;

fn banner(start_at: i64, end_at: i64) -> Banner {
    Banner {
        gacha_type: Gacha::Pickup,
        start_at,
        end_at,
        rateup_student_names: vec!["Asuna".to_string()],
    }
}

#[test]
fn a_banner_starts_and_ends_at_a_moment_in_utc() {
    let banner = banner(947638923004, 0);
    assert_eq!(
        banner.starts(),
        Some(NaiveDate::from_ymd_opt(2000, 1, 12).unwrap().and_hms_milli_opt(1, 2, 3, 4).unwrap())
    );
    assert_eq!(
        banner.ends(),
        Some(NaiveDate::from_ymd_opt(1970, 1, 1).unwrap().and_hms_opt(0, 0, 0).unwrap())
    );
}

#[test]
fn a_moment_before_1970_is_counted_backwards() {
    let banner = banner(-1, -86_400_000);
    assert_eq!(
        banner.starts(),
        Some(
            NaiveDate::from_ymd_opt(1969, 12, 31)
                .unwrap()
                .and_hms_milli_opt(23, 59, 59, 999)
                .unwrap()
        )
    );
    assert_eq!(
        banner.ends(),
        Some(NaiveDate::from_ymd_opt(1969, 12, 31).unwrap().and_hms_opt(0, 0, 0).unwrap())
    );
}

#[test]
fn a_moment_too_far_away_is_none() {
    let banner = banner(i64::MAX, i64::MIN);
    assert_eq!(banner.starts(), None);
    assert_eq!(banner.ends(), None);
}

#[test]
fn banners_are_sorted_by_when_they_run() {
    let banners = Banners { current: vec![banner(1, 2)], upcoming: vec![], ended: vec![] };
    assert_eq!(banners.current.len(), 1);
    assert_eq!(banners.current[0].gacha_type, Gacha::Pickup);
    assert_eq!(banners.current[0].rateup_student_names, vec!["Asuna"]);
    assert!(banners.upcoming.is_empty() && banners.ended.is_empty());
}

#[test]
fn kinds_of_recruitment_are_shown_by_their_names() {
    assert_eq!(Gacha::Pickup.to_string(), "Pickup");
    assert_eq!(Gacha::Limited.to_string(), "Limited");
    assert_eq!(Gacha::Fes.to_string(), "Fes");
}

#[test]
fn kinds_of_shop_are_read_from_the_names_they_are_shown_by() {
    assert_eq!(ShopCategory::General.to_string(), "General");
    assert_eq!(ShopCategory::SecretStoneGrowth.to_string(), "Secret Stone Growth");
    assert_eq!(ShopCategory::MasterCoin.to_string(), "Master Coin");
    assert_eq!(ShopCategory::parse("General"), Some(ShopCategory::General));
    assert_eq!(ShopCategory::parse("Secret Stone Growth"), Some(ShopCategory::SecretStoneGrowth));
    assert_eq!(ShopCategory::parse("Master Coin"), Some(ShopCategory::MasterCoin));
    assert_eq!(ShopCategory::parse("MasterCoin"), None);
    assert_eq!(ShopCategory::parse(""), None);
}

#[test]
fn factions_are_read_from_the_names_they_are_shown_by() {
    assert_eq!(Faction::Decagrammaton.to_string(), "Decagrammaton");
    assert_eq!(Faction::CommunioSanctorum.to_string(), "Communio Sanctorum");
    assert_eq!(Faction::TheLibraryofLore.to_string(), "The Library of Lore");
    assert_eq!(Faction::parse("Slumpia"), Some(Faction::Slumpia));
    assert_eq!(Faction::parse("Kaitenger"), Some(Faction::Kaitenger));
    assert_eq!(Faction::parse("Seven Prisoners"), Some(Faction::SevenPrisoners));
    assert_eq!(Faction::parse("Hundred Ghost Tales"), Some(Faction::HundredGhostTales));
    assert_eq!(Faction::parse("SevenPrisoners"), None);
    assert_eq!(Faction::parse("slumpia"), None);
}

#[test]
fn kinds_of_equipment_are_shown_by_their_names() {
    assert_eq!(EquipmentCategory::Shoes.to_string(), "Shoes");
    assert_eq!(EquipmentCategory::Hairpin.to_string(), "Hairpin");
    assert_eq!(EquipmentCategory::WeaponExpGrowthZ.to_string(), "WeaponExpGrowthZ");
    assert_ne!(EquipmentCategory::Hat, EquipmentCategory::Bag);
}

#[test]
fn an_offer_of_a_shop_holds_what_it_was_given() {
    let offer = Shop {
        category: ShopCategory::General,
        released: Released { japan: true, global: true, china: false },
        amount: 1,
        cost_type: CostType::Currency,
        cost_id: 1,
        cost_amount: 12000,
    };
    assert_eq!(offer.clone(), offer);
    assert_ne!(Shop { cost_type: CostType::Item, ..offer }, offer);
}
