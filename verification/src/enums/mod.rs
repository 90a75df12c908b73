//! The categories under which the data sorts students, and the languages it is
//! published in.
//!
//! The data names a category by a short text. Each category type reads that text
//! with `from_raw`, which never fails: a name that the library does not know is
//! kept, unchanged, in the type's `Unknown` variant.

pub mod armor;
pub mod bullet_type;
pub mod club;
pub mod language;
pub mod position;
pub mod school;
pub mod squad;
pub mod tactical_role;
pub mod weapon_type;

pub use armor::Armor;
pub use bullet_type::BulletType;
pub use club::Club;
pub use language::Language;
pub use position::Position;
pub use school::School;
pub use squad::Squad;
pub use tactical_role::TacticalRole;
pub use weapon_type::WeaponType;
