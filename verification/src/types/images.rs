//! Where the pictures of a student are.

use vstd::prelude::*;
use vstd::std_specs::cmp::PartialEqSpecImpl;
use vstd::string::StringExecFns;
use crate::IMAGE_DATA_URI;
use crate::text::{clone_optional_text, optional_text, same_optional_text};
use crate::types::student::{Student, StudentView};

verus! {

/// Where the pictures of a student are.
#[derive(Debug)]
pub struct Portrait {
    /// Where the full picture is.
    pub full_body_url: String,
    /// Where the icon is.
    pub icon_url: String,
    /// Where the second full picture is, for a student who has one.
    pub alternative_full_body_url: Option<String>,
    /// Where the picture behind the student is.
    pub bg_url: String,
}

/// What a [`Portrait`] holds.
pub struct PortraitView {
    pub full_body_url: Seq<char>,
    pub icon_url: Seq<char>,
    pub alternative_full_body_url: Option<Seq<char>>,
    pub bg_url: Seq<char>,
}

impl View for Portrait {
    type V = PortraitView;

    open spec fn view(&self) -> PortraitView {
        PortraitView {
            full_body_url: self.full_body_url@,
            icon_url: self.icon_url@,
            alternative_full_body_url: optional_text(self.alternative_full_body_url),
            bg_url: self.bg_url@,
        }
    }
}

impl DeepView for Portrait {
    type V = PortraitView;

    open spec fn deep_view(&self) -> PortraitView {
        self@
    }
}

impl Clone for Portrait {
    fn clone(&self) -> (copy: Portrait)
        ensures
            copy@ == self@,
    {
        Portrait {
            full_body_url: self.full_body_url.clone(),
            icon_url: self.icon_url.clone(),
            alternative_full_body_url: clone_optional_text(&self.alternative_full_body_url),
            bg_url: self.bg_url.clone(),
        }
    }
}

impl PartialEq for Portrait {
    fn eq(&self, other: &Portrait) -> (equal: bool) {
        self.full_body_url == other.full_body_url
            && self.icon_url == other.icon_url
            && same_optional_text(&self.alternative_full_body_url, &other.alternative_full_body_url)
            && self.bg_url == other.bg_url
    }
}

impl Eq for Portrait {}

/// Two values are equal when they show the same: every field of one holds what the
/// same field of the other holds.
impl PartialEqSpecImpl for Portrait {
    open spec fn obeys_eq_spec() -> bool {
        true
    }

    open spec fn eq_spec(&self, other: &Portrait) -> bool {
        self@ == other@
    }
}

impl PortraitView {
    /// The record with every text empty, every number zero and every flag unset.
    pub open spec fn blank() -> PortraitView {
        PortraitView {
            full_body_url: Seq::<char>::empty(),
            icon_url: Seq::<char>::empty(),
            alternative_full_body_url: None::<Seq<char>>,
            bg_url: Seq::<char>::empty(),
        }
    }
}

impl Default for Portrait {
    fn default() -> (blank: Portrait)
        ensures
            blank@ == PortraitView::blank(),
    {
        Portrait {
            full_body_url: String::new(),
            icon_url: String::new(),
            alternative_full_body_url: None,
            bg_url: String::new(),
        }
    }
}

/// Where the pictures that belong to a student are.
#[derive(Debug)]
pub struct StudentImageData {
    /// The pictures of the student.
    pub portrait: Portrait,
    /// Where the picture of the student's weapon is.
    pub weapon_icon_url: String,
}

/// What a [`StudentImageData`] holds.
pub struct StudentImageDataView {
    pub portrait: PortraitView,
    pub weapon_icon_url: Seq<char>,
}

impl View for StudentImageData {
    type V = StudentImageDataView;

    open spec fn view(&self) -> StudentImageDataView {
        StudentImageDataView {
            portrait: self.portrait@,
            weapon_icon_url: self.weapon_icon_url@,
        }
    }
}

impl DeepView for StudentImageData {
    type V = StudentImageDataView;

    open spec fn deep_view(&self) -> StudentImageDataView {
        self@
    }
}

impl Clone for StudentImageData {
    fn clone(&self) -> (copy: StudentImageData)
        ensures
            copy@ == self@,
    {
        StudentImageData {
            portrait: self.portrait.clone(),
            weapon_icon_url: self.weapon_icon_url.clone(),
        }
    }
}

impl PartialEq for StudentImageData {
    fn eq(&self, other: &StudentImageData) -> (equal: bool) {
        self.portrait == other.portrait
            && self.weapon_icon_url == other.weapon_icon_url
    }
}

impl Eq for StudentImageData {}

/// Two values are equal when they show the same: every field of one holds what the
/// same field of the other holds.
impl PartialEqSpecImpl for StudentImageData {
    open spec fn obeys_eq_spec() -> bool {
        true
    }

    open spec fn eq_spec(&self, other: &StudentImageData) -> bool {
        self@ == other@
    }
}

impl StudentImageDataView {
    /// The record with every text empty, every number zero and every flag unset.
    pub open spec fn blank() -> StudentImageDataView {
        StudentImageDataView {
            portrait: PortraitView::blank(),
            weapon_icon_url: Seq::<char>::empty(),
        }
    }
}

impl Default for StudentImageData {
    fn default() -> (blank: StudentImageData)
        ensures
            blank@ == StudentImageDataView::blank(),
    {
        StudentImageData {
            portrait: Portrait::default(),
            weapon_icon_url: String::new(),
        }
    }
}

impl StudentImageDataView {
    /// Where the full picture of the student with this file name is.
    pub open spec fn full_body_url(dev_name: Seq<char>) -> Seq<char> {
        IMAGE_DATA_URI@ + "/student/portrait/Portrait_"@ + dev_name + ".webp"@
    }

    /// Where the second full picture of the student with this file name is, if she
    /// has one.
    pub open spec fn alternative_full_body_url(dev_name: Seq<char>) -> Seq<char> {
        IMAGE_DATA_URI@ + "/student/portrait/Portrait_"@ + dev_name + "_2.webp"@
    }

    /// Where the pictures of a student are; `alternative_found` says whether she has
    /// a second full picture.
    pub open spec fn of(student: StudentView, alternative_found: bool) -> StudentImageDataView {
        StudentImageDataView {
            portrait: PortraitView {
                full_body_url: Self::full_body_url(student.dev_name),
                icon_url: IMAGE_DATA_URI@ + "/student/icon/"@ + student.collection_texture
                    + ".png"@,
                alternative_full_body_url: if alternative_found {
                    Some(Self::alternative_full_body_url(student.dev_name))
                } else {
                    None
                },
                bg_url: IMAGE_DATA_URI@ + "/background/"@ + student.collection_bg + ".jpg"@,
            },
            weapon_icon_url: IMAGE_DATA_URI@ + "/weapon/"@ + student.weapon_img + ".png"@,
        }
    }
}

/// Four texts in a row.
fn glue(first: &str, second: &str, third: &str, fourth: &str) -> (text: String)
    ensures
        text@ == first@ + second@ + third@ + fourth@,
{
    let mut text = first.to_owned();
    text.append(second);
    text.append(third);
    text.append(fourth);
    text
}

impl StudentImageData {
    /// Where the second full picture of a student would be. Not every student has
    /// one: the caller looks, and tells [`StudentImageData::new`] what it found.
    pub fn alternative_full_body_url(student: &Student) -> (url: String)
        ensures
            url@ == StudentImageDataView::alternative_full_body_url(student@.dev_name),
    {
        glue(IMAGE_DATA_URI, "/student/portrait/Portrait_", student.dev_name.as_str(), "_2.webp")
    }

    /// Where the pictures of a student are. `alternative_found` says whether a picture
    /// was found at [`StudentImageData::alternative_full_body_url`].
    pub fn new(student: &Student, alternative_found: bool) -> (image: StudentImageData)
        ensures
            image@ == StudentImageDataView::of(student@, alternative_found),
    {
        StudentImageData {
            portrait: Portrait {
                full_body_url: glue(
                    IMAGE_DATA_URI,
                    "/student/portrait/Portrait_",
                    student.dev_name.as_str(),
                    ".webp",
                ),
                icon_url: glue(
                    IMAGE_DATA_URI,
                    "/student/icon/",
                    student.collection_texture.as_str(),
                    ".png",
                ),
                alternative_full_body_url: if alternative_found {
                    Some(StudentImageData::alternative_full_body_url(student))
                } else {
                    None
                },
                bg_url: glue(
                    IMAGE_DATA_URI,
                    "/background/",
                    student.collection_bg.as_str(),
                    ".jpg",
                ),
            },
            weapon_icon_url: glue(
                IMAGE_DATA_URI,
                "/weapon/",
                student.weapon_img.as_str(),
                ".png",
            ),
        }
    }
}

} // verus!
