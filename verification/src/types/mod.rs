//! The records of the data and the small values they are made of.

pub mod banners;
pub mod equipment;
pub mod gear;
pub mod images;
pub mod raids;
pub mod rows;
pub mod student;

use vstd::prelude::*;
use vstd::std_specs::cmp::PartialEqSpecImpl;
use vstd::std_specs::iter::IteratorSpec;
use vstd::string::StringExecFns;
use crate::text::{
    clone_optional_text, decimal, decimal_text, optional_text, same_optional_text, truth,
    truth_text,
};

pub use gear::{EmptyGear, Gear, GearKind, LevelUpType, Weapon};
pub use images::{Portrait, StudentImageData};
pub use student::{Student, StudentSummon, StudentView};

verus! {

broadcast use vstd::string::group_string_axioms;

/// The number by which the data names a record.
#[derive(Debug, Clone, Copy, PartialEq, Eq, Structural)]
pub struct ID(pub u32);

impl ID {
    /// How an identifier is written: `ID#:(10004)`.
    pub open spec fn label(&self) -> Seq<char> {
        "ID#:("@ + decimal(self.0 as nat) + ")"@
    }

    /// The identifier as text.
    pub fn to_string(&self) -> (text: String)
        ensures
            text@ == self.label(),
    {
        let mut text = "ID#:(".to_owned();
        let number = decimal_text(self.0);
        text.append(number.as_str());
        text.append(")");
        text
    }
}

/// Whether a character is one of the ten decimal digits.
pub open spec fn is_digit(c: char) -> bool {
    '0' <= c && c <= '9'
}

/// Where the run of digits that starts at `from` ends: the first place at or after
/// `from` that holds no digit, or the end of the text.
pub open spec fn digits_end(text: Seq<char>, from: int) -> int
    decreases text.len() - from,
{
    if 0 <= from < text.len() && is_digit(text[from]) {
        digits_end(text, from + 1)
    } else {
        from
    }
}

/// The number that a run of digits writes; the empty run writes zero.
pub open spec fn number(digits: Seq<char>) -> nat
    decreases digits.len(),
{
    if digits.len() == 0 {
        0
    } else {
        number(digits.drop_last()) * 10 + (digits.last() as u32 - '0' as u32) as nat
    }
}

/// The age of a student in years, where the data gives one that the library can read.
#[derive(Debug, Clone, Copy, PartialEq, Eq, Structural)]
pub struct Age(pub Option<u8>);

impl Age {
    /// The age that the text starts with: the number written by its leading digits,
    /// where there is at least one digit and the number is at most 255.
    pub open spec fn read(text: Seq<char>) -> Option<u8> {
        let digits = text.take(digits_end(text, 0));
        if digits.len() == 0 || number(digits) > u8::MAX {
            None
        } else {
            Some(number(digits) as u8)
        }
    }

    /// Reads an age from the text by which the data gives it, such as `16 years old`:
    /// the number that the text starts with. A text that starts with no digit (`Top
    /// Secret`), or with a number above 255, gives no age.
    pub fn from_raw(text: &str) -> (age: Age)
        ensures
            age.0 == Age::read(text@),
    {
        let ghost whole = text@;
        let mut chars = text.chars();
        let mut value: u16 = 0;
        let mut too_large = false;
        let mut seen: usize = 0;
        let ghost mut at: int = 0;
        loop
            invariant_except_break
                chars.remaining() == whole.skip(at),
            invariant
                0 <= at <= whole.len(),
                digits_end(whole, 0) == digits_end(whole, at),
                !too_large ==> value == number(whole.take(at)) && value <= u8::MAX,
                too_large ==> number(whole.take(at)) > u8::MAX,
                (seen == 0) == (at == 0),
            ensures
                digits_end(whole, at) == at,
            decreases whole.len() - at,
        {
            let next = chars.next();
            match next {
                Some(c) => {
                    if '0' <= c && c <= '9' {
                        let digit: u16 = (c as u32 - '0' as u32) as u16;
                        proof {
                            assert(whole.take(at + 1).drop_last() =~= whole.take(at));
                        }
                        if !too_large {
                            value = value * 10 + digit;
                            if value > 255 {
                                too_large = true;
                            }
                        }
                        if seen == 0 {
                            seen = 1;
                        }
                        proof {
                            at = at + 1;
                        }
                    } else {
                        break ;
                    }
                },
                None => {
                    break ;
                },
            }
        }
        if seen == 0 || too_large {
            Age(None)
        } else {
            Age(Some(value as u8))
        }
    }

    /// The age in years, or 0 where the age is not known.
    pub fn as_u8(&self) -> (years: u8)
        ensures
            years == match self.0 {
                Some(age) => age,
                None => 0u8,
            },
    {
        match self.0 {
            Some(age) => age,
            None => 0,
        }
    }

    /// How an age is written: the number of years, or `None` where it is not known.
    pub open spec fn label(&self) -> Seq<char> {
        match self.0 {
            Some(age) => decimal(age as nat),
            None => "None"@,
        }
    }

    /// The age as text.
    pub fn to_string(&self) -> (text: String)
        ensures
            text@ == self.label(),
    {
        match self.0 {
            Some(age) => decimal_text(age as u32),
            None => "None".to_owned(),
        }
    }
}

impl From<u8> for Age {
    fn from(years: u8) -> (age: Age) {
        Age(Some(years))
    }
}

/// An age made from a number is the age of so many years.
impl vstd::std_specs::convert::FromSpecImpl<u8> for Age {
    open spec fn obeys_from_spec() -> bool {
        true
    }

    open spec fn from_spec(years: u8) -> Age {
        Age(Some(years))
    }
}

/// Where something is out: in Japan, in the global version, in China.
#[derive(Debug, Clone, Copy, PartialEq, Eq, Structural)]
pub struct Released {
    pub japan: bool,
    pub global: bool,
    pub china: bool,
}

impl Released {
    /// The release status that a list of flags gives: its first three flags say
    /// whether the thing is out in Japan, in the global version and in China. The
    /// list must hold three flags at least.
    pub fn from_flags(flags: &[bool]) -> (released: Released)
        requires
            flags@.len() >= 3,
        ensures
            released == (Released { japan: flags@[0], global: flags@[1], china: flags@[2] }),
    {
        Released { japan: flags[0], global: flags[1], china: flags[2] }
    }

    /// How a release status is written: `(JP: true, GL: true, CN, false)`.
    pub open spec fn label(&self) -> Seq<char> {
        "(JP: "@ + truth(self.japan) + ", GL: "@ + truth(self.global) + ", CN, "@ + truth(
            self.china,
        ) + ")"@
    }

    /// The release status as text.
    pub fn to_string(&self) -> (text: String)
        ensures
            text@ == self.label(),
    {
        let mut text = "(JP: ".to_owned();
        text.append(truth_text(self.japan));
        text.append(", GL: ");
        text.append(truth_text(self.global));
        text.append(", CN, ");
        text.append(truth_text(self.china));
        text.append(")");
        text
    }
}

/// The height of a student, in the metric and in the imperial wording.
#[derive(Debug)]
pub struct Height {
    /// The height in the metric wording.
    pub metric: String,
    /// The height in the imperial wording, which the data does not always give.
    pub imperial: Option<String>,
}

/// What a [`Height`] holds.
pub struct HeightView {
    pub metric: Seq<char>,
    pub imperial: Option<Seq<char>>,
}

impl View for Height {
    type V = HeightView;

    open spec fn view(&self) -> HeightView {
        HeightView {
            metric: self.metric@,
            imperial: optional_text(self.imperial),
        }
    }
}

impl DeepView for Height {
    type V = HeightView;

    open spec fn deep_view(&self) -> HeightView {
        self@
    }
}

impl Clone for Height {
    fn clone(&self) -> (copy: Height)
        ensures
            copy@ == self@,
    {
        Height {
            metric: self.metric.clone(),
            imperial: clone_optional_text(&self.imperial),
        }
    }
}

impl PartialEq for Height {
    fn eq(&self, other: &Height) -> (equal: bool) {
        self.metric == other.metric
            && same_optional_text(&self.imperial, &other.imperial)
    }
}

impl Eq for Height {}

/// Two values are equal when they show the same: every field of one holds what the
/// same field of the other holds.
impl PartialEqSpecImpl for Height {
    open spec fn obeys_eq_spec() -> bool {
        true
    }

    open spec fn eq_spec(&self, other: &Height) -> bool {
        self@ == other@
    }
}

} // verus!
