//! The descriptors a probe of a COM-style factory yields.
use vstd::prelude::*;

verus! {

/// A 16-byte class identifier, copied out of foreign memory.
#[derive(Debug, Clone, Copy)]
pub struct IID {
    /// bytes of the GUID
    pub data: [u8; 16],
}

/// A flag that a factory reports about itself.
#[derive(Debug, Clone, Copy, PartialEq, Eq, Structural)]
pub enum FactoryFlags {
    ClassesDiscardable,
    LicenseCheck,
    ComponentNonDiscardable,
    Unicode,
}

/// A flag that a class reports about itself, one per bit of an 8-bit field.
#[derive(Debug, Clone, Copy, PartialEq, Eq, Structural)]
pub enum ClassFlags {
    IsSynth,
    IsEffect,
    Undef,
    PluginDoesMidi,
    PluginDoesAudio,
    NoAudioIO,
    NeedMidiInput,
    NeedMidiOutput,
}

/// The declared limit on concurrent instances of a class.
#[derive(Debug, Clone, Copy, PartialEq, Eq, Structural)]
pub enum ClassCardinality {
    ManyInstances,
}

impl ClassCardinality {
    /// The number by which the factory reports this cardinality.
    pub fn value(&self) -> (r: i32)
        ensures
            r == 0x7FFF_FFFF,
    {
        match self {
            ClassCardinality::ManyInstances => 0x7FFF_FFFF,
        }
    }
}

/// What a factory says about itself.
#[derive(Debug)]
pub struct FactoryInfo {
    pub vendor: String,
    pub url: String,
    pub email: String,
    pub flags: Vec<FactoryFlags>,
}

/// A class as the base factory interface describes it.
#[derive(Debug)]
pub struct ClassInfo1 {
    pub cid: IID,
    pub cardinality: i32,
    pub category: String,
    pub name: String,
}

/// A class as the second factory interface describes it.
#[derive(Debug)]
pub struct ClassInfo2 {
    pub cid: IID,
    pub cardinality: i32,
    pub category: String,
    pub name: String,
    pub class_flags: Vec<ClassFlags>,
    pub subcategories: Vec<String>,
    pub vendor: String,
    pub version: String,
    pub sdk_version: String,
}

/// A class as the third factory interface describes it, its names read from
/// wide-character buffers.
#[derive(Debug)]
pub struct ClassInfo3 {
    pub cid: IID,
    pub cardinality: i32,
    pub category: String,
    pub name: String,
    pub class_flags: Vec<ClassFlags>,
    pub subcategories: Vec<String>,
    pub vendor: String,
    pub version: String,
    pub sdk_version: String,
}

/// The classes of a factory, all read through one interface version.
#[derive(Debug)]
pub enum ClassesInfo {
    Classes1(Vec<ClassInfo1>),
    Classes2(Vec<ClassInfo2>),
    Classes3(Vec<ClassInfo3>),
}

/// Everything a probe of a factory yields.
#[derive(Debug)]
pub struct Vst3Info {
    pub factory_info: FactoryInfo,
    pub classes: ClassesInfo,
}

} // verus!
