//! The gear and the weapon that belong to a student.

use vstd::prelude::*;
use vstd::std_specs::cmp::PartialEqSpecImpl;
use vstd::string::StringExecFns;
use crate::IMAGE_DATA_URI;
use crate::types::rows::{clone_texts, same_rows, same_texts};
use crate::types::Released;

verus! {

/// How a weapon grows with its level.
#[derive(Debug, Clone, Copy, PartialEq, Eq, Structural)]
pub enum LevelUpType {
    Standard,
    Premature,
    LateBloom,
    /// A way of growing that the library does not know.
    Unknown,
}

impl LevelUpType {
    /// How the way of growing is written.
    pub open spec fn label(&self) -> Seq<char> {
        match self {
            LevelUpType::Standard => "Standard"@,
            LevelUpType::Premature => "Premature"@,
            LevelUpType::LateBloom => "LateBloom"@,
            LevelUpType::Unknown => "Unknown"@,
        }
    }

    /// The way of growing as text.
    pub fn to_string(&self) -> (text: String)
        ensures
            text@ == self.label(),
    {
        match self {
            LevelUpType::Standard => "Standard".to_owned(),
            LevelUpType::Premature => "Premature".to_owned(),
            LevelUpType::LateBloom => "LateBloom".to_owned(),
            LevelUpType::Unknown => "Unknown".to_owned(),
        }
    }
}

/// A gear: the keepsake that a student can be given.
#[derive(Debug)]
pub struct Gear {
    /// Whether the gear is out in Japan, in the global version and in China, in that order.
    pub released: (bool, bool, bool),
    /// Which abilities the gear raises.
    pub stat_type: Vec<String>,
    /// By how much the gear raises them, tier by tier.
    pub stat_value: Vec<Vec<u16>>,
    /// The name of the gear.
    pub name: String,
    /// What the game says of the gear.
    pub description: String,
    /// The name of the picture of the gear.
    pub icon: String,
    /// What it takes to raise the gear, tier by tier.
    pub tier_up_material: Vec<Vec<u16>>,
    /// How much of each it takes.
    pub tier_up_material_amount: Vec<Vec<u8>>,
}

/// What a [`Gear`] holds.
pub struct GearView {
    pub released: (bool, bool, bool),
    pub stat_type: Seq<Seq<char>>,
    pub stat_value: Seq<Seq<u16>>,
    pub name: Seq<char>,
    pub description: Seq<char>,
    pub icon: Seq<char>,
    pub tier_up_material: Seq<Seq<u16>>,
    pub tier_up_material_amount: Seq<Seq<u8>>,
}

impl View for Gear {
    type V = GearView;

    open spec fn view(&self) -> GearView {
        GearView {
            released: self.released,
            stat_type: self.stat_type.deep_view(),
            stat_value: self.stat_value.deep_view(),
            name: self.name@,
            description: self.description@,
            icon: self.icon@,
            tier_up_material: self.tier_up_material.deep_view(),
            tier_up_material_amount: self.tier_up_material_amount.deep_view(),
        }
    }
}

impl DeepView for Gear {
    type V = GearView;

    open spec fn deep_view(&self) -> GearView {
        self@
    }
}

impl Clone for Gear {
    fn clone(&self) -> (copy: Gear)
        ensures
            copy@ == self@,
    {
        Gear {
            released: self.released,
            stat_type: clone_texts(&self.stat_type),
            stat_value: self.stat_value.clone(),
            name: self.name.clone(),
            description: self.description.clone(),
            icon: self.icon.clone(),
            tier_up_material: self.tier_up_material.clone(),
            tier_up_material_amount: self.tier_up_material_amount.clone(),
        }
    }
}

impl PartialEq for Gear {
    fn eq(&self, other: &Gear) -> (equal: bool) {
        broadcast use vstd::laws_eq::group_laws_eq;

        self.released.0 == other.released.0 && self.released.1 == other.released.1 && self.released.2 == other.released.2
            && same_texts(&self.stat_type, &other.stat_type)
            && same_rows(&self.stat_value, &other.stat_value)
            && self.name == other.name
            && self.description == other.description
            && self.icon == other.icon
            && same_rows(&self.tier_up_material, &other.tier_up_material)
            && same_rows(&self.tier_up_material_amount, &other.tier_up_material_amount)
    }
}

impl Eq for Gear {}

/// Two values are equal when they show the same: every field of one holds what the
/// same field of the other holds.
impl PartialEqSpecImpl for Gear {
    open spec fn obeys_eq_spec() -> bool {
        true
    }

    open spec fn eq_spec(&self, other: &Gear) -> bool {
        self@ == other@
    }
}

/// The weapon that only one student carries.
#[derive(Debug)]
pub struct Weapon {
    /// The name of the weapon.
    pub name: String,
    /// What the game says of the weapon.
    pub description: String,
    /// The ground on which the weapon helps.
    pub adaptation_type: String,
    /// How much it helps there.
    pub adaptation_value: u8,
    pub attack_power_1: u32,
    pub attack_power_100: u32,
    pub max_hp_1: u32,
    pub max_hp_100: u32,
    pub heal_power_1: u32,
    pub heal_power_100: u32,
    /// How the weapon grows with its level.
    pub stat_level_up_type: LevelUpType,
}

/// What a [`Weapon`] holds.
pub struct WeaponView {
    pub name: Seq<char>,
    pub description: Seq<char>,
    pub adaptation_type: Seq<char>,
    pub adaptation_value: u8,
    pub attack_power_1: u32,
    pub attack_power_100: u32,
    pub max_hp_1: u32,
    pub max_hp_100: u32,
    pub heal_power_1: u32,
    pub heal_power_100: u32,
    pub stat_level_up_type: LevelUpType,
}

impl View for Weapon {
    type V = WeaponView;

    open spec fn view(&self) -> WeaponView {
        WeaponView {
            name: self.name@,
            description: self.description@,
            adaptation_type: self.adaptation_type@,
            adaptation_value: self.adaptation_value,
            attack_power_1: self.attack_power_1,
            attack_power_100: self.attack_power_100,
            max_hp_1: self.max_hp_1,
            max_hp_100: self.max_hp_100,
            heal_power_1: self.heal_power_1,
            heal_power_100: self.heal_power_100,
            stat_level_up_type: self.stat_level_up_type,
        }
    }
}

impl DeepView for Weapon {
    type V = WeaponView;

    open spec fn deep_view(&self) -> WeaponView {
        self@
    }
}

impl Clone for Weapon {
    fn clone(&self) -> (copy: Weapon)
        ensures
            copy@ == self@,
    {
        Weapon {
            name: self.name.clone(),
            description: self.description.clone(),
            adaptation_type: self.adaptation_type.clone(),
            adaptation_value: self.adaptation_value,
            attack_power_1: self.attack_power_1,
            attack_power_100: self.attack_power_100,
            max_hp_1: self.max_hp_1,
            max_hp_100: self.max_hp_100,
            heal_power_1: self.heal_power_1,
            heal_power_100: self.heal_power_100,
            stat_level_up_type: self.stat_level_up_type,
        }
    }
}

impl PartialEq for Weapon {
    fn eq(&self, other: &Weapon) -> (equal: bool) {
        self.name == other.name
            && self.description == other.description
            && self.adaptation_type == other.adaptation_type
            && self.adaptation_value == other.adaptation_value
            && self.attack_power_1 == other.attack_power_1
            && self.attack_power_100 == other.attack_power_100
            && self.max_hp_1 == other.max_hp_1
            && self.max_hp_100 == other.max_hp_100
            && self.heal_power_1 == other.heal_power_1
            && self.heal_power_100 == other.heal_power_100
            && self.stat_level_up_type == other.stat_level_up_type
    }
}

impl Eq for Weapon {}

/// Two values are equal when they show the same: every field of one holds what the
/// same field of the other holds.
impl PartialEqSpecImpl for Weapon {
    open spec fn obeys_eq_spec() -> bool {
        true
    }

    open spec fn eq_spec(&self, other: &Weapon) -> bool {
        self@ == other@
    }
}

impl WeaponView {
    /// The record with every text empty, every number zero and every flag unset.
    pub open spec fn blank() -> WeaponView {
        WeaponView {
            name: Seq::<char>::empty(),
            description: Seq::<char>::empty(),
            adaptation_type: Seq::<char>::empty(),
            adaptation_value: 0,
            attack_power_1: 0,
            attack_power_100: 0,
            max_hp_1: 0,
            max_hp_100: 0,
            heal_power_1: 0,
            heal_power_100: 0,
            stat_level_up_type: LevelUpType::Unknown,
        }
    }
}

impl Default for Weapon {
    fn default() -> (blank: Weapon)
        ensures
            blank@ == WeaponView::blank(),
    {
        Weapon {
            name: String::new(),
            description: String::new(),
            adaptation_type: String::new(),
            adaptation_value: 0,
            attack_power_1: 0,
            attack_power_100: 0,
            max_hp_1: 0,
            max_hp_100: 0,
            heal_power_1: 0,
            heal_power_100: 0,
            stat_level_up_type: LevelUpType::Unknown,
        }
    }
}

impl GearView {
    /// Where the gear is out.
    pub open spec fn released(self) -> Released {
        Released { japan: self.released.0, global: self.released.1, china: self.released.2 }
    }

    /// Where the picture of the gear is: [`IMAGE_DATA_URI`]`/gear/` and the name of
    /// the picture.
    pub open spec fn icon_url(self) -> Seq<char> {
        IMAGE_DATA_URI@ + "/gear/"@ + self.icon
    }
}

impl Gear {
    /// Where the gear is out.
    pub fn released(&self) -> (released: Released)
        ensures
            released == self@.released(),
    {
        Released { japan: self.released.0, global: self.released.1, china: self.released.2 }
    }

    /// Where the picture of the gear is.
    pub fn icon_url(&self) -> (url: String)
        ensures
            url@ == self@.icon_url(),
    {
        let mut url = IMAGE_DATA_URI.to_owned();
        url.append("/gear/");
        url.append(self.icon.as_str());
        url
    }
}

/// The gear that the data gives for a student who has none: nothing at all.
#[derive(Debug, Clone, Copy, PartialEq, Eq, Structural)]
pub struct EmptyGear {}

/// What the data gives as the gear of a student: a gear, or the empty record that
/// stands for "none".
#[derive(Debug)]
pub enum GearKind {
    Present(Gear),
    Empty(EmptyGear),
}

impl View for GearKind {
    type V = Option<GearView>;

    open spec fn view(&self) -> Option<GearView> {
        match self {
            GearKind::Present(gear) => Some(gear@),
            GearKind::Empty(_) => None,
        }
    }
}

impl GearKind {
    /// The gear, where there is one.
    pub fn get(&self) -> (gear: Option<&Gear>)
        ensures
            match self {
                GearKind::Present(held) => gear == Some(held),
                GearKind::Empty(_) => gear is None,
            },
    {
        match self {
            GearKind::Present(gear) => Some(gear),
            GearKind::Empty(_) => None,
        }
    }
}

impl Clone for GearKind {
    fn clone(&self) -> (copy: GearKind)
        ensures
            copy@ == self@,
    {
        match self {
            GearKind::Present(gear) => GearKind::Present(gear.clone()),
            GearKind::Empty(_) => GearKind::Empty(EmptyGear {}),
        }
    }
}

impl PartialEq for GearKind {
    fn eq(&self, other: &GearKind) -> (equal: bool) {
        match (self, other) {
            (GearKind::Present(a), GearKind::Present(b)) => *a == *b,
            (GearKind::Empty(_), GearKind::Empty(_)) => true,
            _ => false,
        }
    }
}

impl Eq for GearKind {}

/// Two values are equal when both hold no gear, or both hold gears that are equal.
impl PartialEqSpecImpl for GearKind {
    open spec fn obeys_eq_spec() -> bool {
        true
    }

    open spec fn eq_spec(&self, other: &GearKind) -> bool {
        self@ == other@
    }
}

} // verus!
