//! [`Student`], the record that the filters read.

use vstd::prelude::*;
use vstd::laws_eq::obeys_deep_eq;
use vstd::std_specs::cmp::PartialEqSpecImpl;
use vstd::string::StringExecFns;
use crate::enums::{Armor, BulletType, Club, Position, School, Squad, TacticalRole, WeaponType};
use crate::text::{
    clone_optional_text, decode_html, html_decoded, optional_text, same_optional_text, same_text,
};
use crate::types::gear::{EmptyGear, Gear, GearKind, GearView, Weapon, WeaponView};
use crate::types::images::{StudentImageData, StudentImageDataView};
use crate::types::rows::{
    clone_records, clone_texts, same_list, same_optional_rows, same_rows, same_texts,
};
use crate::types::{Age, Height, HeightView, Released, ID};

verus! {

/// What a student can call to her side in battle.
#[derive(Debug)]
pub struct StudentSummon {
    /// The number by which the data names what is called.
    pub id: ID,
    /// The skill that calls it.
    pub source_skill: String,
    /// Which abilities it takes over from the student.
    pub inherit_caster_stat: Vec<String>,
    /// How much of each it takes over, where the data says.
    pub inherit_caster_amount: Option<Vec<Vec<u32>>>,
}

/// What a [`StudentSummon`] holds.
pub struct StudentSummonView {
    pub id: ID,
    pub source_skill: Seq<char>,
    pub inherit_caster_stat: Seq<Seq<char>>,
    pub inherit_caster_amount: Option<Seq<Seq<u32>>>,
}

impl View for StudentSummon {
    type V = StudentSummonView;

    open spec fn view(&self) -> StudentSummonView {
        StudentSummonView {
            id: self.id,
            source_skill: self.source_skill@,
            inherit_caster_stat: self.inherit_caster_stat.deep_view(),
            inherit_caster_amount: self.inherit_caster_amount.deep_view(),
        }
    }
}

impl DeepView for StudentSummon {
    type V = StudentSummonView;

    open spec fn deep_view(&self) -> StudentSummonView {
        self@
    }
}

impl Clone for StudentSummon {
    fn clone(&self) -> (copy: StudentSummon)
        ensures
            copy@ == self@,
    {
        StudentSummon {
            id: self.id,
            source_skill: self.source_skill.clone(),
            inherit_caster_stat: clone_texts(&self.inherit_caster_stat),
            inherit_caster_amount: self.inherit_caster_amount.clone(),
        }
    }
}

impl PartialEq for StudentSummon {
    fn eq(&self, other: &StudentSummon) -> (equal: bool) {
        broadcast use vstd::laws_eq::group_laws_eq;

        self.id.0 == other.id.0
            && self.source_skill == other.source_skill
            && same_texts(&self.inherit_caster_stat, &other.inherit_caster_stat)
            && same_optional_rows(&self.inherit_caster_amount, &other.inherit_caster_amount)
    }
}

impl Eq for StudentSummon {}

/// Two values are equal when they show the same: every field of one holds what the
/// same field of the other holds.
impl PartialEqSpecImpl for StudentSummon {
    open spec fn obeys_eq_spec() -> bool {
        true
    }

    open spec fn eq_spec(&self, other: &StudentSummon) -> bool {
        self@ == other@
    }
}

impl StudentSummon {
    /// `==` on this type says whether two values hold the same, which is what
    /// comparing lists of them rests on.
    pub proof fn lemma_equal_when_views_are()
        ensures
            obeys_deep_eq::<StudentSummon>(),
    {
        reveal(obeys_deep_eq);
    }
}

/// A student, as the filters and the searches of the library read her.
///
/// The categories are held as the data names them; the methods of the same name
/// read them. Two students are the same student when every field agrees.
#[derive(Debug)]
pub struct Student {
    /// The number by which the data names the student.
    pub id: ID,
    /// Whether the student is out in Japan, in the global version and in China, in that order.
    pub is_released: (bool, bool, bool),
    /// Where the student stands in the game's own list.
    pub default_order: u32,
    /// The name of the student in addresses.
    pub path_name: String,
    /// The name of the student in the game's files.
    pub dev_name: String,
    /// The name of the student as the data shows it, which may carry a tag: `Toki (Bunny)`.
    pub name: String,
    /// The school, as the data names it; [`Student::school`] reads it.
    pub school: String,
    /// The club, as the data names it; [`Student::club`] reads it.
    pub club: String,
    /// The number of stars the student starts with.
    pub stars: u8,
    /// The squad, as the data names it; [`Student::squad`] reads it.
    pub squad_type: String,
    /// The tactical role, as the data names it; [`Student::tactical_role`] reads it.
    pub tactic_role: String,
    /// What the student can call to her side.
    pub summons: Vec<StudentSummon>,
    /// The position, as the data names it; [`Student::position`] reads it.
    pub position: String,
    /// The bullet type, as the data names it; [`Student::bullet_type`] reads it.
    pub bullet_type: String,
    /// The armor, as the data names it; [`Student::armor`] reads it.
    pub armor_type: String,
    /// How well the student fights in the street.
    pub street_battle_adaptation: u8,
    /// How well the student fights outdoors.
    pub outdoor_battle_adaptation: u8,
    /// How well the student fights indoors.
    pub indoor_battle_adaptation: u8,
    /// The weapon type, as the data names it; [`Student::weapon_type`] reads it.
    pub weapon_type: String,
    /// The name of the picture of the student's weapon.
    pub weapon_img: String,
    /// Whether the student takes cover.
    pub cover: bool,
    /// The kinds of equipment the student wears.
    pub equipment: Vec<String>,
    /// The name of the picture behind the student.
    pub collection_bg: String,
    /// The name of the student's icon.
    pub collection_texture: String,
    /// The family name.
    pub family_name: String,
    /// How the family name is read, where the data says.
    pub family_name_ruby: Option<String>,
    /// The personal name.
    pub personal_name: String,
    /// The year the student is in, where the data gives one.
    pub school_year: Option<String>,
    /// The age as the data words it, such as `16 years old`; [`Student::age`] reads it.
    pub character_age: String,
    /// The birthday, written as month and day.
    pub birthday: String,
    /// What the student says when first met, as the data holds it; [`Student::quote_ssr`] reads it.
    pub character_ssr_new: Option<String>,
    /// The student's profile, as the data holds it; [`Student::description`] reads it.
    pub profile_introduction: String,
    /// The hobby as the data words it; [`Student::hobby`] reads it.
    pub hobby: String,
    /// Who speaks the student.
    pub voice_actor: String,
    /// The birthday, written `MM/DD`.
    pub birthday_short: String,
    /// Who drew the student.
    pub illustrator: String,
    /// Who designed the student.
    pub designer: String,
    /// The height in centimetres, as the data words it.
    pub char_height_metric: String,
    /// The height in feet and inches, where the data gives it.
    pub char_height_imperial: Option<String>,
    pub stability_point: u32,
    pub attack_power_1: u32,
    pub attack_power_100: u32,
    pub max_hp_1: u32,
    pub max_hp_100: u32,
    pub defense_power_1: u32,
    pub defense_power_100: u32,
    pub heal_power_1: u32,
    pub heal_power_100: u32,
    pub dodge_point: u32,
    pub accuracy_point: u32,
    pub critical_point: u32,
    pub critical_damage_rate: u32,
    pub ammo_count: u16,
    pub ammo_cost: u16,
    pub range: u16,
    pub regen_cost: u16,
    /// Which abilities grow with the student's affection.
    pub favor_stat_type: Vec<String>,
    /// By how much they grow.
    pub favor_stat_value: Vec<Vec<u8>>,
    /// The other forms of the student that share her affection.
    pub favor_alts: Vec<u32>,
    /// At which ranks of affection the recollection lobby opens.
    pub memory_lobby: Vec<u8>,
    /// The music of the student's recollection lobby.
    pub memory_lobby_bgm: String,
    /// The furniture that the student uses.
    pub furniture_interaction: Vec<Vec<u32>>,
    /// The kinds of gifts the student likes.
    pub favor_item_tags: Vec<String>,
    /// The kinds of gifts only this student likes.
    pub favor_item_unique_tags: Vec<String>,
    /// How the student can be recruited, as the data numbers it.
    pub is_limited: u8,
    /// The weapon that only this student carries.
    pub weapon: Weapon,
    /// The gear of the student, for a student who has one; [`Student::gear`] reads it.
    pub gear: GearKind,
    /// What it takes to raise the EX skill, level by level.
    pub skill_ex_material: Vec<Vec<u16>>,
    /// How much of each it takes.
    pub skill_ex_material_amount: Vec<Vec<u8>>,
    /// What it takes to raise the other skills, level by level.
    pub skill_material: Vec<Vec<u16>>,
    /// How much of each it takes.
    pub skill_material_amount: Vec<Vec<u8>>,
    /// Where the pictures of the student are.
    pub image: StudentImageData,
}

/// What a [`Student`] holds: the mathematical value that contracts speak of.
pub struct StudentView {
    pub id: ID,
    pub is_released: (bool, bool, bool),
    pub default_order: u32,
    pub path_name: Seq<char>,
    pub dev_name: Seq<char>,
    pub name: Seq<char>,
    pub school: Seq<char>,
    pub club: Seq<char>,
    pub stars: u8,
    pub squad_type: Seq<char>,
    pub tactic_role: Seq<char>,
    pub summons: Seq<StudentSummonView>,
    pub position: Seq<char>,
    pub bullet_type: Seq<char>,
    pub armor_type: Seq<char>,
    pub street_battle_adaptation: u8,
    pub outdoor_battle_adaptation: u8,
    pub indoor_battle_adaptation: u8,
    pub weapon_type: Seq<char>,
    pub weapon_img: Seq<char>,
    pub cover: bool,
    pub equipment: Seq<Seq<char>>,
    pub collection_bg: Seq<char>,
    pub collection_texture: Seq<char>,
    pub family_name: Seq<char>,
    pub family_name_ruby: Option<Seq<char>>,
    pub personal_name: Seq<char>,
    pub school_year: Option<Seq<char>>,
    pub character_age: Seq<char>,
    pub birthday: Seq<char>,
    pub character_ssr_new: Option<Seq<char>>,
    pub profile_introduction: Seq<char>,
    pub hobby: Seq<char>,
    pub voice_actor: Seq<char>,
    pub birthday_short: Seq<char>,
    pub illustrator: Seq<char>,
    pub designer: Seq<char>,
    pub char_height_metric: Seq<char>,
    pub char_height_imperial: Option<Seq<char>>,
    pub stability_point: u32,
    pub attack_power_1: u32,
    pub attack_power_100: u32,
    pub max_hp_1: u32,
    pub max_hp_100: u32,
    pub defense_power_1: u32,
    pub defense_power_100: u32,
    pub heal_power_1: u32,
    pub heal_power_100: u32,
    pub dodge_point: u32,
    pub accuracy_point: u32,
    pub critical_point: u32,
    pub critical_damage_rate: u32,
    pub ammo_count: u16,
    pub ammo_cost: u16,
    pub range: u16,
    pub regen_cost: u16,
    pub favor_stat_type: Seq<Seq<char>>,
    pub favor_stat_value: Seq<Seq<u8>>,
    pub favor_alts: Seq<u32>,
    pub memory_lobby: Seq<u8>,
    pub memory_lobby_bgm: Seq<char>,
    pub furniture_interaction: Seq<Seq<u32>>,
    pub favor_item_tags: Seq<Seq<char>>,
    pub favor_item_unique_tags: Seq<Seq<char>>,
    pub is_limited: u8,
    pub weapon: WeaponView,
    pub gear: Option<GearView>,
    pub skill_ex_material: Seq<Seq<u16>>,
    pub skill_ex_material_amount: Seq<Seq<u8>>,
    pub skill_material: Seq<Seq<u16>>,
    pub skill_material_amount: Seq<Seq<u8>>,
    pub image: StudentImageDataView,
}

impl View for Student {
    type V = StudentView;

    open spec fn view(&self) -> StudentView {
        StudentView {
            id: self.id,
            is_released: self.is_released,
            default_order: self.default_order,
            path_name: self.path_name@,
            dev_name: self.dev_name@,
            name: self.name@,
            school: self.school@,
            club: self.club@,
            stars: self.stars,
            squad_type: self.squad_type@,
            tactic_role: self.tactic_role@,
            summons: self.summons.deep_view(),
            position: self.position@,
            bullet_type: self.bullet_type@,
            armor_type: self.armor_type@,
            street_battle_adaptation: self.street_battle_adaptation,
            outdoor_battle_adaptation: self.outdoor_battle_adaptation,
            indoor_battle_adaptation: self.indoor_battle_adaptation,
            weapon_type: self.weapon_type@,
            weapon_img: self.weapon_img@,
            cover: self.cover,
            equipment: self.equipment.deep_view(),
            collection_bg: self.collection_bg@,
            collection_texture: self.collection_texture@,
            family_name: self.family_name@,
            family_name_ruby: optional_text(self.family_name_ruby),
            personal_name: self.personal_name@,
            school_year: optional_text(self.school_year),
            character_age: self.character_age@,
            birthday: self.birthday@,
            character_ssr_new: optional_text(self.character_ssr_new),
            profile_introduction: self.profile_introduction@,
            hobby: self.hobby@,
            voice_actor: self.voice_actor@,
            birthday_short: self.birthday_short@,
            illustrator: self.illustrator@,
            designer: self.designer@,
            char_height_metric: self.char_height_metric@,
            char_height_imperial: optional_text(self.char_height_imperial),
            stability_point: self.stability_point,
            attack_power_1: self.attack_power_1,
            attack_power_100: self.attack_power_100,
            max_hp_1: self.max_hp_1,
            max_hp_100: self.max_hp_100,
            defense_power_1: self.defense_power_1,
            defense_power_100: self.defense_power_100,
            heal_power_1: self.heal_power_1,
            heal_power_100: self.heal_power_100,
            dodge_point: self.dodge_point,
            accuracy_point: self.accuracy_point,
            critical_point: self.critical_point,
            critical_damage_rate: self.critical_damage_rate,
            ammo_count: self.ammo_count,
            ammo_cost: self.ammo_cost,
            range: self.range,
            regen_cost: self.regen_cost,
            favor_stat_type: self.favor_stat_type.deep_view(),
            favor_stat_value: self.favor_stat_value.deep_view(),
            favor_alts: self.favor_alts.deep_view(),
            memory_lobby: self.memory_lobby.deep_view(),
            memory_lobby_bgm: self.memory_lobby_bgm@,
            furniture_interaction: self.furniture_interaction.deep_view(),
            favor_item_tags: self.favor_item_tags.deep_view(),
            favor_item_unique_tags: self.favor_item_unique_tags.deep_view(),
            is_limited: self.is_limited,
            weapon: self.weapon@,
            gear: self.gear@,
            skill_ex_material: self.skill_ex_material.deep_view(),
            skill_ex_material_amount: self.skill_ex_material_amount.deep_view(),
            skill_material: self.skill_material.deep_view(),
            skill_material_amount: self.skill_material_amount.deep_view(),
            image: self.image@,
        }
    }
}

impl DeepView for Student {
    type V = StudentView;

    open spec fn deep_view(&self) -> StudentView {
        self@
    }
}

impl Clone for Student {
    fn clone(&self) -> (copy: Student)
        ensures
            copy@ == self@,
    {
        Student {
            id: self.id,
            is_released: self.is_released,
            default_order: self.default_order,
            path_name: self.path_name.clone(),
            dev_name: self.dev_name.clone(),
            name: self.name.clone(),
            school: self.school.clone(),
            club: self.club.clone(),
            stars: self.stars,
            squad_type: self.squad_type.clone(),
            tactic_role: self.tactic_role.clone(),
            summons: clone_records(&self.summons),
            position: self.position.clone(),
            bullet_type: self.bullet_type.clone(),
            armor_type: self.armor_type.clone(),
            street_battle_adaptation: self.street_battle_adaptation,
            outdoor_battle_adaptation: self.outdoor_battle_adaptation,
            indoor_battle_adaptation: self.indoor_battle_adaptation,
            weapon_type: self.weapon_type.clone(),
            weapon_img: self.weapon_img.clone(),
            cover: self.cover,
            equipment: clone_texts(&self.equipment),
            collection_bg: self.collection_bg.clone(),
            collection_texture: self.collection_texture.clone(),
            family_name: self.family_name.clone(),
            family_name_ruby: clone_optional_text(&self.family_name_ruby),
            personal_name: self.personal_name.clone(),
            school_year: clone_optional_text(&self.school_year),
            character_age: self.character_age.clone(),
            birthday: self.birthday.clone(),
            character_ssr_new: clone_optional_text(&self.character_ssr_new),
            profile_introduction: self.profile_introduction.clone(),
            hobby: self.hobby.clone(),
            voice_actor: self.voice_actor.clone(),
            birthday_short: self.birthday_short.clone(),
            illustrator: self.illustrator.clone(),
            designer: self.designer.clone(),
            char_height_metric: self.char_height_metric.clone(),
            char_height_imperial: clone_optional_text(&self.char_height_imperial),
            stability_point: self.stability_point,
            attack_power_1: self.attack_power_1,
            attack_power_100: self.attack_power_100,
            max_hp_1: self.max_hp_1,
            max_hp_100: self.max_hp_100,
            defense_power_1: self.defense_power_1,
            defense_power_100: self.defense_power_100,
            heal_power_1: self.heal_power_1,
            heal_power_100: self.heal_power_100,
            dodge_point: self.dodge_point,
            accuracy_point: self.accuracy_point,
            critical_point: self.critical_point,
            critical_damage_rate: self.critical_damage_rate,
            ammo_count: self.ammo_count,
            ammo_cost: self.ammo_cost,
            range: self.range,
            regen_cost: self.regen_cost,
            favor_stat_type: clone_texts(&self.favor_stat_type),
            favor_stat_value: self.favor_stat_value.clone(),
            favor_alts: self.favor_alts.clone(),
            memory_lobby: self.memory_lobby.clone(),
            memory_lobby_bgm: self.memory_lobby_bgm.clone(),
            furniture_interaction: self.furniture_interaction.clone(),
            favor_item_tags: clone_texts(&self.favor_item_tags),
            favor_item_unique_tags: clone_texts(&self.favor_item_unique_tags),
            is_limited: self.is_limited,
            weapon: self.weapon.clone(),
            gear: self.gear.clone(),
            skill_ex_material: self.skill_ex_material.clone(),
            skill_ex_material_amount: self.skill_ex_material_amount.clone(),
            skill_material: self.skill_material.clone(),
            skill_material_amount: self.skill_material_amount.clone(),
            image: self.image.clone(),
        }
    }
}

impl PartialEq for Student {
    fn eq(&self, other: &Student) -> (equal: bool) {
        broadcast use vstd::laws_eq::group_laws_eq;

        proof {
            StudentSummon::lemma_equal_when_views_are();
        }
        self.id.0 == other.id.0
            && self.is_released.0 == other.is_released.0 && self.is_released.1 == other.is_released.1 && self.is_released.2 == other.is_released.2
            && self.default_order == other.default_order
            && self.path_name == other.path_name
            && self.dev_name == other.dev_name
            && self.name == other.name
            && self.school == other.school
            && self.club == other.club
            && self.stars == other.stars
            && self.squad_type == other.squad_type
            && self.tactic_role == other.tactic_role
            && same_list(&self.summons, &other.summons)
            && self.position == other.position
            && self.bullet_type == other.bullet_type
            && self.armor_type == other.armor_type
            && self.street_battle_adaptation == other.street_battle_adaptation
            && self.outdoor_battle_adaptation == other.outdoor_battle_adaptation
            && self.indoor_battle_adaptation == other.indoor_battle_adaptation
            && self.weapon_type == other.weapon_type
            && self.weapon_img == other.weapon_img
            && self.cover == other.cover
            && same_texts(&self.equipment, &other.equipment)
            && self.collection_bg == other.collection_bg
            && self.collection_texture == other.collection_texture
            && self.family_name == other.family_name
            && same_optional_text(&self.family_name_ruby, &other.family_name_ruby)
            && self.personal_name == other.personal_name
            && same_optional_text(&self.school_year, &other.school_year)
            && self.character_age == other.character_age
            && self.birthday == other.birthday
            && same_optional_text(&self.character_ssr_new, &other.character_ssr_new)
            && self.profile_introduction == other.profile_introduction
            && self.hobby == other.hobby
            && self.voice_actor == other.voice_actor
            && self.birthday_short == other.birthday_short
            && self.illustrator == other.illustrator
            && self.designer == other.designer
            && self.char_height_metric == other.char_height_metric
            && same_optional_text(&self.char_height_imperial, &other.char_height_imperial)
            && self.stability_point == other.stability_point
            && self.attack_power_1 == other.attack_power_1
            && self.attack_power_100 == other.attack_power_100
            && self.max_hp_1 == other.max_hp_1
            && self.max_hp_100 == other.max_hp_100
            && self.defense_power_1 == other.defense_power_1
            && self.defense_power_100 == other.defense_power_100
            && self.heal_power_1 == other.heal_power_1
            && self.heal_power_100 == other.heal_power_100
            && self.dodge_point == other.dodge_point
            && self.accuracy_point == other.accuracy_point
            && self.critical_point == other.critical_point
            && self.critical_damage_rate == other.critical_damage_rate
            && self.ammo_count == other.ammo_count
            && self.ammo_cost == other.ammo_cost
            && self.range == other.range
            && self.regen_cost == other.regen_cost
            && same_texts(&self.favor_stat_type, &other.favor_stat_type)
            && same_rows(&self.favor_stat_value, &other.favor_stat_value)
            && same_list(&self.favor_alts, &other.favor_alts)
            && same_list(&self.memory_lobby, &other.memory_lobby)
            && self.memory_lobby_bgm == other.memory_lobby_bgm
            && same_rows(&self.furniture_interaction, &other.furniture_interaction)
            && same_texts(&self.favor_item_tags, &other.favor_item_tags)
            && same_texts(&self.favor_item_unique_tags, &other.favor_item_unique_tags)
            && self.is_limited == other.is_limited
            && self.weapon == other.weapon
            && self.gear == other.gear
            && same_rows(&self.skill_ex_material, &other.skill_ex_material)
            && same_rows(&self.skill_ex_material_amount, &other.skill_ex_material_amount)
            && same_rows(&self.skill_material, &other.skill_material)
            && same_rows(&self.skill_material_amount, &other.skill_material_amount)
            && self.image == other.image
    }
}

impl Eq for Student {}

/// Two values are equal when they show the same: every field of one holds what the
/// same field of the other holds.
impl PartialEqSpecImpl for Student {
    open spec fn obeys_eq_spec() -> bool {
        true
    }

    open spec fn eq_spec(&self, other: &Student) -> bool {
        self@ == other@
    }
}

impl StudentView {
    /// The record with every text empty, every number zero and every flag unset.
    pub open spec fn blank() -> StudentView {
        StudentView {
            id: ID(0),
            is_released: (false, false, false),
            default_order: 0,
            path_name: Seq::<char>::empty(),
            dev_name: Seq::<char>::empty(),
            name: Seq::<char>::empty(),
            school: Seq::<char>::empty(),
            club: Seq::<char>::empty(),
            stars: 0,
            squad_type: Seq::<char>::empty(),
            tactic_role: Seq::<char>::empty(),
            summons: Seq::<StudentSummonView>::empty(),
            position: Seq::<char>::empty(),
            bullet_type: Seq::<char>::empty(),
            armor_type: Seq::<char>::empty(),
            street_battle_adaptation: 0,
            outdoor_battle_adaptation: 0,
            indoor_battle_adaptation: 0,
            weapon_type: Seq::<char>::empty(),
            weapon_img: Seq::<char>::empty(),
            cover: false,
            equipment: Seq::<Seq<char>>::empty(),
            collection_bg: Seq::<char>::empty(),
            collection_texture: Seq::<char>::empty(),
            family_name: Seq::<char>::empty(),
            family_name_ruby: None::<Seq<char>>,
            personal_name: Seq::<char>::empty(),
            school_year: None::<Seq<char>>,
            character_age: Seq::<char>::empty(),
            birthday: Seq::<char>::empty(),
            character_ssr_new: None::<Seq<char>>,
            profile_introduction: Seq::<char>::empty(),
            hobby: Seq::<char>::empty(),
            voice_actor: Seq::<char>::empty(),
            birthday_short: Seq::<char>::empty(),
            illustrator: Seq::<char>::empty(),
            designer: Seq::<char>::empty(),
            char_height_metric: Seq::<char>::empty(),
            char_height_imperial: None::<Seq<char>>,
            stability_point: 0,
            attack_power_1: 0,
            attack_power_100: 0,
            max_hp_1: 0,
            max_hp_100: 0,
            defense_power_1: 0,
            defense_power_100: 0,
            heal_power_1: 0,
            heal_power_100: 0,
            dodge_point: 0,
            accuracy_point: 0,
            critical_point: 0,
            critical_damage_rate: 0,
            ammo_count: 0,
            ammo_cost: 0,
            range: 0,
            regen_cost: 0,
            favor_stat_type: Seq::<Seq<char>>::empty(),
            favor_stat_value: Seq::<Seq<u8>>::empty(),
            favor_alts: Seq::<u32>::empty(),
            memory_lobby: Seq::<u8>::empty(),
            memory_lobby_bgm: Seq::<char>::empty(),
            furniture_interaction: Seq::<Seq<u32>>::empty(),
            favor_item_tags: Seq::<Seq<char>>::empty(),
            favor_item_unique_tags: Seq::<Seq<char>>::empty(),
            is_limited: 0,
            weapon: WeaponView::blank(),
            gear: None::<GearView>,
            skill_ex_material: Seq::<Seq<u16>>::empty(),
            skill_ex_material_amount: Seq::<Seq<u8>>::empty(),
            skill_material: Seq::<Seq<u16>>::empty(),
            skill_material_amount: Seq::<Seq<u8>>::empty(),
            image: StudentImageDataView::blank(),
        }
    }
}

impl Default for Student {
    fn default() -> (blank: Student)
        ensures
            blank@ == StudentView::blank(),
    {
        let blank = Student {
            id: ID(0),
            is_released: (false, false, false),
            default_order: 0,
            path_name: String::new(),
            dev_name: String::new(),
            name: String::new(),
            school: String::new(),
            club: String::new(),
            stars: 0,
            squad_type: String::new(),
            tactic_role: String::new(),
            summons: Vec::new(),
            position: String::new(),
            bullet_type: String::new(),
            armor_type: String::new(),
            street_battle_adaptation: 0,
            outdoor_battle_adaptation: 0,
            indoor_battle_adaptation: 0,
            weapon_type: String::new(),
            weapon_img: String::new(),
            cover: false,
            equipment: Vec::new(),
            collection_bg: String::new(),
            collection_texture: String::new(),
            family_name: String::new(),
            family_name_ruby: None,
            personal_name: String::new(),
            school_year: None,
            character_age: String::new(),
            birthday: String::new(),
            character_ssr_new: None,
            profile_introduction: String::new(),
            hobby: String::new(),
            voice_actor: String::new(),
            birthday_short: String::new(),
            illustrator: String::new(),
            designer: String::new(),
            char_height_metric: String::new(),
            char_height_imperial: None,
            stability_point: 0,
            attack_power_1: 0,
            attack_power_100: 0,
            max_hp_1: 0,
            max_hp_100: 0,
            defense_power_1: 0,
            defense_power_100: 0,
            heal_power_1: 0,
            heal_power_100: 0,
            dodge_point: 0,
            accuracy_point: 0,
            critical_point: 0,
            critical_damage_rate: 0,
            ammo_count: 0,
            ammo_cost: 0,
            range: 0,
            regen_cost: 0,
            favor_stat_type: Vec::new(),
            favor_stat_value: Vec::new(),
            favor_alts: Vec::new(),
            memory_lobby: Vec::new(),
            memory_lobby_bgm: String::new(),
            furniture_interaction: Vec::new(),
            favor_item_tags: Vec::new(),
            favor_item_unique_tags: Vec::new(),
            is_limited: 0,
            weapon: Weapon::default(),
            gear: GearKind::Empty(EmptyGear {}),
            skill_ex_material: Vec::new(),
            skill_ex_material_amount: Vec::new(),
            skill_material: Vec::new(),
            skill_material_amount: Vec::new(),
            image: StudentImageData::default(),
        };
        proof {
            assert(blank.summons.deep_view() =~= Seq::<StudentSummonView>::empty());
            assert(blank.equipment.deep_view() =~= Seq::<Seq<char>>::empty());
            assert(blank.favor_stat_type.deep_view() =~= Seq::<Seq<char>>::empty());
            assert(blank.favor_stat_value.deep_view() =~= Seq::<Seq<u8>>::empty());
            assert(blank.favor_alts.deep_view() =~= Seq::<u32>::empty());
            assert(blank.memory_lobby.deep_view() =~= Seq::<u8>::empty());
            assert(blank.furniture_interaction.deep_view() =~= Seq::<Seq<u32>>::empty());
            assert(blank.favor_item_tags.deep_view() =~= Seq::<Seq<char>>::empty());
            assert(blank.favor_item_unique_tags.deep_view() =~= Seq::<Seq<char>>::empty());
            assert(blank.skill_ex_material.deep_view() =~= Seq::<Seq<u16>>::empty());
            assert(blank.skill_ex_material_amount.deep_view() =~= Seq::<Seq<u8>>::empty());
            assert(blank.skill_material.deep_view() =~= Seq::<Seq<u16>>::empty());
            assert(blank.skill_material_amount.deep_view() =~= Seq::<Seq<u8>>::empty());
        }
        blank
    }
}

impl StudentView {
    /// The family name, a space, and the personal name.
    pub open spec fn full_name_last(self) -> Seq<char> {
        self.family_name + " "@ + self.personal_name
    }

    /// The personal name, a space, and the family name.
    pub open spec fn full_name_first(self) -> Seq<char> {
        self.personal_name + " "@ + self.family_name
    }

    /// The age that the record's wording of it starts with.
    pub open spec fn age(self) -> Option<u8> {
        Age::read(self.character_age)
    }

    /// Where the student is out.
    pub open spec fn released(self) -> Released {
        Released {
            japan: self.is_released.0,
            global: self.is_released.1,
            china: self.is_released.2,
        }
    }

    /// What the student says when first met, decoded; none where the record holds
    /// none or an empty one.
    pub open spec fn quote_ssr(self) -> Option<Seq<char>> {
        match self.character_ssr_new {
            Some(quote) => if quote.len() == 0 {
                None
            } else {
                Some(html_decoded(quote))
            },
            None => None,
        }
    }

    /// The height of the student, with the imperial wording decoded.
    pub open spec fn height(self) -> HeightView {
        HeightView {
            metric: self.char_height_metric,
            imperial: match self.char_height_imperial {
                Some(imperial) => Some(html_decoded(imperial)),
                None => None,
            },
        }
    }

    /// The hobby, unless the record words it as `None`.
    pub open spec fn hobby(self) -> Option<Seq<char>> {
        if self.hobby == "None"@ {
            None
        } else {
            Some(self.hobby)
        }
    }

    /// How a student is written.
    pub open spec fn label(self) -> Seq<char> {
        "Student : "@ + self.full_name_last() + " :-: "@ + self.id.label() + " | Age:"@ + Age(
            self.age(),
        ).label() + " | School: "@ + match School::known(self.school) {
            Some(school) => school.label(),
            None => "Unknown"@,
        }
    }
}

impl Student {
    /// The personal name of the student.
    pub fn first_name(&self) -> (text: String)
        ensures
            text@ == self@.personal_name,
    {
        self.personal_name.clone()
    }

    /// The family name of the student.
    pub fn last_name(&self) -> (text: String)
        ensures
            text@ == self@.family_name,
    {
        self.family_name.clone()
    }

    /// The full name of the student, family name first.
    pub fn full_name_last(&self) -> (text: String)
        ensures
            text@ == self@.full_name_last(),
    {
        let mut text = self.family_name.clone();
        text.append(" ");
        text.append(self.personal_name.as_str());
        text
    }

    /// The full name of the student, personal name first.
    pub fn full_name_first(&self) -> (text: String)
        ensures
            text@ == self@.full_name_first(),
    {
        let mut text = self.personal_name.clone();
        text.append(" ");
        text.append(self.family_name.as_str());
        text
    }

    /// The full name of the student, family name first: [`Student::full_name_last`]
    /// under its longer name.
    pub fn full_name_with_last(&self) -> (text: String)
        ensures
            text@ == self@.full_name_last(),
    {
        self.full_name_last()
    }

    /// The full name of the student, personal name first: [`Student::full_name_first`]
    /// under its longer name.
    pub fn full_name_with_first(&self) -> (text: String)
        ensures
            text@ == self@.full_name_first(),
    {
        self.full_name_first()
    }

    /// The profile of the student: a few lines on who she is.
    pub fn description(&self) -> (text: String)
        ensures
            text@ == html_decoded(self@.profile_introduction),
    {
        decode_html(self.profile_introduction.as_str())
    }

    /// What the student says when first met, for a student who says anything.
    pub fn quote_ssr(&self) -> (quote: Option<String>)
        ensures
            optional_text(quote) == self@.quote_ssr(),
    {
        match &self.character_ssr_new {
            Some(quote) => {
                if quote.as_str().is_empty() {
                    None
                } else {
                    Some(decode_html(quote.as_str()))
                }
            },
            None => None,
        }
    }

    /// The age of the student: the number that the record's wording of the age starts
    /// with, where it starts with one that is at most 255.
    pub fn age(&self) -> (age: Age)
        ensures
            age.0 == self@.age(),
    {
        Age::from_raw(self.character_age.as_str())
    }

    /// Where the student is out.
    pub fn released(&self) -> (released: Released)
        ensures
            released == self@.released(),
    {
        Released {
            japan: self.is_released.0,
            global: self.is_released.1,
            china: self.is_released.2,
        }
    }

    /// The height of the student.
    pub fn height(&self) -> (height: Height)
        ensures
            height@ == self@.height(),
    {
        Height {
            metric: self.char_height_metric.clone(),
            imperial: match &self.char_height_imperial {
                Some(imperial) => Some(decode_html(imperial.as_str())),
                None => None,
            },
        }
    }

    /// The hobby of the student, for a student who has one.
    pub fn hobby(&self) -> (hobby: Option<String>)
        ensures
            optional_text(hobby) == self@.hobby(),
    {
        if same_text(self.hobby.as_str(), "None") {
            None
        } else {
            Some(self.hobby.clone())
        }
    }

    /// The gear of the student, for a student who has one.
    pub fn gear(&self) -> (gear: Option<Gear>)
        ensures
            gear.deep_view() == self@.gear,
    {
        match self.gear.get() {
            Some(gear) => Some(gear.clone()),
            None => None,
        }
    }

    /// The school of the student.
    pub fn school(&self) -> (school: School)
        ensures
            school.is_named(self@.school),
    {
        School::from_raw(self.school.as_str())
    }

    /// The tactical role of the student.
    pub fn tactical_role(&self) -> (role: TacticalRole)
        ensures
            role.is_named(self@.tactic_role),
    {
        TacticalRole::from_raw(self.tactic_role.as_str())
    }

    /// The squad of the student.
    pub fn squad(&self) -> (squad: Squad)
        ensures
            squad.is_named(self@.squad_type),
    {
        Squad::from_raw(self.squad_type.as_str())
    }

    /// The armor of the student.
    pub fn armor(&self) -> (armor: Armor)
        ensures
            armor.is_named(self@.armor_type),
    {
        Armor::from_raw(self.armor_type.as_str())
    }

    /// The position of the student.
    pub fn position(&self) -> (position: Position)
        ensures
            position.is_named(self@.position),
    {
        Position::from_raw(self.position.as_str())
    }

    /// The bullet type of the student.
    pub fn bullet_type(&self) -> (bullet_type: BulletType)
        ensures
            bullet_type.is_named(self@.bullet_type),
    {
        BulletType::from_raw(self.bullet_type.as_str())
    }

    /// The club of the student.
    pub fn club(&self) -> (club: Club)
        ensures
            club.is_named(self@.club),
    {
        Club::from_raw(self.club.as_str())
    }

    /// The weapon type of the student.
    pub fn weapon_type(&self) -> (weapon_type: WeaponType)
        ensures
            weapon_type.is_named(self@.weapon_type),
    {
        WeaponType::from_raw(self.weapon_type.as_str())
    }

    /// The student in one line: full name, identifier, age and school.
    pub fn to_string(&self) -> (text: String)
        ensures
            text@ == self@.label(),
    {
        let mut text = "Student : ".to_owned();
        text.append(self.full_name_last().as_str());
        text.append(" :-: ");
        text.append(self.id.to_string().as_str());
        text.append(" | Age:");
        text.append(self.age().to_string().as_str());
        text.append(" | School: ");
        text.append(self.school().to_string().as_str());
        text
    }
}

} // verus!
