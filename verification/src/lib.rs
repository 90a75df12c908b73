//! Typed game data of Blue Archive, and filters over it.
//!
//! The heart of the library is the chain of filters over students:
//!
//! - a [`Student`] is a record of the data;
//! - a [`StudentFilter`] is a test on students: a [`School`], a [`Club`], an [`Age`]
//!   and the other categories each are one;
//! - [`filter`] starts a chain ([`StudentFilterOptions`]) over a list of students,
//!   `apply` adds a filter to it, and `finish` or `finish_ref` gives the students
//!   that every filter lets through.
//!
//! The library reads no file and opens no connection: whoever fetches the data
//! hands it over as plain values.

use vstd::prelude::*;

pub mod api;
pub mod enums;
pub mod fetcher;
pub mod filter;
pub mod text;
pub mod types;

pub use enums::{
    Armor, BulletType, Club, Language, Position, School, Squad, TacticalRole, WeaponType,
};
pub use fetcher::StudentFetcher;
pub use filter::{Narrowing, StudentFilter, StudentFilterOptions};
pub use types::{Age, Released, Student, ID};

verus! {

/// Where the game data is published.
pub const DATA_URI: &'static str = "https://raw.githubusercontent.com/lonqie/SchaleDB/main/data";

/// Where the game images are published.
pub const IMAGE_DATA_URI: &'static str =
    "https://raw.githubusercontent.com/lonqie/SchaleDB/main/images";

/// Starts a chain of filters over `students`. See [`StudentFilterOptions`].
pub fn filter(students: &Vec<Student>) -> (chain: StudentFilterOptions<'_>)
    ensures
        chain@ == Narrowing::over(students.deep_view()),
        chain@.wf(),
{
    StudentFilterOptions::new(students)
}

} // verus!
