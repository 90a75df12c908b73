//! Equipment: the shops that sell it and the kinds it comes in.

use vstd::prelude::*;
use crate::text::same_text;
use crate::types::Released;

verus! {

/// The kind of a piece of equipment.
#[derive(Debug, Clone, Copy, PartialEq, Eq, Structural)]
pub enum EquipmentCategory {
    Shoes,
    Hat,
    Watch,
    Badge,
    Bag,
    Charm,
    Necklace,
    Hairpin,
    Gloves,
    Exp,
    WeaponExpGrowthA,
    WeaponExpGrowthC,
    WeaponExpGrowthB,
    WeaponExpGrowthZ,
}

impl EquipmentCategory {
    /// How the kind is written.
    pub open spec fn label(&self) -> Seq<char> {
        match self {
            EquipmentCategory::Shoes => "Shoes"@,
            EquipmentCategory::Hat => "Hat"@,
            EquipmentCategory::Watch => "Watch"@,
            EquipmentCategory::Badge => "Badge"@,
            EquipmentCategory::Bag => "Bag"@,
            EquipmentCategory::Charm => "Charm"@,
            EquipmentCategory::Necklace => "Necklace"@,
            EquipmentCategory::Hairpin => "Hairpin"@,
            EquipmentCategory::Gloves => "Gloves"@,
            EquipmentCategory::Exp => "Exp"@,
            EquipmentCategory::WeaponExpGrowthA => "WeaponExpGrowthA"@,
            EquipmentCategory::WeaponExpGrowthC => "WeaponExpGrowthC"@,
            EquipmentCategory::WeaponExpGrowthB => "WeaponExpGrowthB"@,
            EquipmentCategory::WeaponExpGrowthZ => "WeaponExpGrowthZ"@,
        }
    }

    /// The kind as text.
    pub fn to_string(&self) -> (text: String)
        ensures
            text@ == self.label(),
    {
        match self {
            EquipmentCategory::Shoes => "Shoes".to_owned(),
            EquipmentCategory::Hat => "Hat".to_owned(),
            EquipmentCategory::Watch => "Watch".to_owned(),
            EquipmentCategory::Badge => "Badge".to_owned(),
            EquipmentCategory::Bag => "Bag".to_owned(),
            EquipmentCategory::Charm => "Charm".to_owned(),
            EquipmentCategory::Necklace => "Necklace".to_owned(),
            EquipmentCategory::Hairpin => "Hairpin".to_owned(),
            EquipmentCategory::Gloves => "Gloves".to_owned(),
            EquipmentCategory::Exp => "Exp".to_owned(),
            EquipmentCategory::WeaponExpGrowthA => "WeaponExpGrowthA".to_owned(),
            EquipmentCategory::WeaponExpGrowthC => "WeaponExpGrowthC".to_owned(),
            EquipmentCategory::WeaponExpGrowthB => "WeaponExpGrowthB".to_owned(),
            EquipmentCategory::WeaponExpGrowthZ => "WeaponExpGrowthZ".to_owned(),
        }
    }
}

/// The kind of a shop.
#[derive(Debug, Clone, Copy, PartialEq, Eq, Structural)]
pub enum ShopCategory {
    General,
    SecretStoneGrowth,
    MasterCoin,
}

impl ShopCategory {
    /// How the kind of shop is written.
    pub open spec fn label(&self) -> Seq<char> {
        match self {
            ShopCategory::General => "General"@,
            ShopCategory::SecretStoneGrowth => "Secret Stone Growth"@,
            ShopCategory::MasterCoin => "Master Coin"@,
        }
    }

    /// The kind of shop as text.
    pub fn to_string(&self) -> (text: String)
        ensures
            text@ == self.label(),
    {
        match self {
            ShopCategory::General => "General".to_owned(),
            ShopCategory::SecretStoneGrowth => "Secret Stone Growth".to_owned(),
            ShopCategory::MasterCoin => "Master Coin".to_owned(),
        }
    }

    /// The kind of shop that is written `raw`, if there is one.
    pub open spec fn known(raw: Seq<char>) -> Option<ShopCategory> {
        if raw == "General"@ {
            Some(ShopCategory::General)
        } else if raw == "Secret Stone Growth"@ {
            Some(ShopCategory::SecretStoneGrowth)
        } else if raw == "Master Coin"@ {
            Some(ShopCategory::MasterCoin)
        } else {
            None
        }
    }

    /// Reads the kind of shop from the way it is written; none where `raw` writes none.
    pub fn parse(raw: &str) -> (found: Option<ShopCategory>)
        ensures
            found == ShopCategory::known(raw@),
    {
        if same_text(raw, "General") {
            Some(ShopCategory::General)
        } else if same_text(raw, "Secret Stone Growth") {
            Some(ShopCategory::SecretStoneGrowth)
        } else if same_text(raw, "Master Coin") {
            Some(ShopCategory::MasterCoin)
        } else {
            None
        }
    }
}

/// What a shop takes in payment.
#[derive(Debug, Clone, Copy, PartialEq, Eq, Structural)]
pub enum CostType {
    Currency,
    Item,
}

/// An offer of a shop: what it sells of a piece of equipment, and for how much.
#[derive(Debug, Clone, Copy, PartialEq, Eq, Structural)]
pub struct Shop {
    /// The kind of the shop.
    pub category: ShopCategory,
    /// Where the offer is out.
    pub released: Released,
    /// How many pieces are sold at once.
    pub amount: u32,
    /// What the shop takes in payment.
    pub cost_type: CostType,
    /// Which currency or item it takes.
    pub cost_id: u16,
    /// How much of it.
    pub cost_amount: u32,
}

} // verus!
