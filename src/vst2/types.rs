//! The descriptor a probe of a C-struct plugin yields.
use vstd::prelude::*;

verus! {

/// The category a plugin reports of itself.
#[derive(Debug, Clone, Copy, PartialEq, Eq, Structural)]
pub enum Vst2Category {
    Unknown,
    Effect,
    Synth,
    Analysis,
    Mastering,
    Spacializer,
    RoomFx,
    SurroundFx,
    Restoration,
    OfflineProcess,
    Shell,
    Generator,
    MaxCount,
}

/// The category that a raw code names; any code outside the known ones is `Unknown`.
pub open spec fn category_of(num: i32) -> Vst2Category {
    if num == 1 {
        Vst2Category::Effect
    } else if num == 2 {
        Vst2Category::Synth
    } else if num == 3 {
        Vst2Category::Analysis
    } else if num == 4 {
        Vst2Category::Mastering
    } else if num == 5 {
        Vst2Category::Spacializer
    } else if num == 6 {
        Vst2Category::RoomFx
    } else if num == 7 {
        Vst2Category::SurroundFx
    } else if num == 8 {
        Vst2Category::Restoration
    } else if num == 9 {
        Vst2Category::OfflineProcess
    } else if num == 10 {
        Vst2Category::Shell
    } else if num == 11 {
        Vst2Category::Generator
    } else if num == 12 {
        Vst2Category::MaxCount
    } else {
        Vst2Category::Unknown
    }
}

/// The code of a category.
pub open spec fn category_code(c: Vst2Category) -> i32 {
    match c {
        Vst2Category::Unknown => 0,
        Vst2Category::Effect => 1,
        Vst2Category::Synth => 2,
        Vst2Category::Analysis => 3,
        Vst2Category::Mastering => 4,
        Vst2Category::Spacializer => 5,
        Vst2Category::RoomFx => 6,
        Vst2Category::SurroundFx => 7,
        Vst2Category::Restoration => 8,
        Vst2Category::OfflineProcess => 9,
        Vst2Category::Shell => 10,
        Vst2Category::Generator => 11,
        Vst2Category::MaxCount => 12,
    }
}

impl Vst2Category {
    /// The category that a raw code names, `Unknown` for any other code.
    pub fn from_num(num: i32) -> (r: Vst2Category)
        ensures
            r == category_of(num),
    {
        match num {
            1 => Vst2Category::Effect,
            2 => Vst2Category::Synth,
            3 => Vst2Category::Analysis,
            4 => Vst2Category::Mastering,
            5 => Vst2Category::Spacializer,
            6 => Vst2Category::RoomFx,
            7 => Vst2Category::SurroundFx,
            8 => Vst2Category::Restoration,
            9 => Vst2Category::OfflineProcess,
            10 => Vst2Category::Shell,
            11 => Vst2Category::Generator,
            12 => Vst2Category::MaxCount,
            _ => Vst2Category::Unknown,
        }
    }

    /// The code of this category.
    pub fn to_num(&self) -> (r: i32)
        ensures
            r == category_code(*self),
    {
        match self {
            Vst2Category::Unknown => 0,
            Vst2Category::Effect => 1,
            Vst2Category::Synth => 2,
            Vst2Category::Analysis => 3,
            Vst2Category::Mastering => 4,
            Vst2Category::Spacializer => 5,
            Vst2Category::RoomFx => 6,
            Vst2Category::SurroundFx => 7,
            Vst2Category::Restoration => 8,
            Vst2Category::OfflineProcess => 9,
            Vst2Category::Shell => 10,
            Vst2Category::Generator => 11,
            Vst2Category::MaxCount => 12,
        }
    }
}

/// A category survives the trip through its code.
pub proof fn lemma_category_code_round_trip(c: Vst2Category)
    ensures
        category_of(category_code(c)) == c,
{
}

/// What a plugin says about itself.
#[derive(Debug)]
pub struct Vst2Info {
    pub name: Option<String>,
    pub vendor: Option<String>,
    pub version: u32,
    pub unique_id: u32,
    pub category: Vst2Category,
    pub category_raw: i32,
}

} // verus!
