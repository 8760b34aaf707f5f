//! The COM-style factory protocol: descriptors, flag decoding, the decoding of
//! the factory's fixed records, and the steps of a probe.
use vstd::prelude::*;

pub mod types;

pub use types::{
    ClassCardinality, ClassFlags, ClassInfo1, ClassInfo2, ClassInfo3, ClassesInfo, FactoryFlags,
    FactoryInfo, Vst3Info, IID,
};

use crate::utils::{
    i16_to_string, i8_to_string, narrow_string, split_subcategories, subcategories_of, wide_string,
};

verus! {

/// One threshold step of the factory-flag decoding: when `f` reaches `t`, the
/// flag is reported and `t` taken off.
pub open spec fn flag_step(acc: Seq<FactoryFlags>, f: int, t: int, flag: FactoryFlags) -> (
    Seq<FactoryFlags>,
    int,
) {
    if f >= t {
        (acc.push(flag), f - t)
    } else {
        (acc, f)
    }
}

/// The factory flags that a raw value decodes to: thresholds 16, 8, 2 and 1 are
/// tested from high to low, each taken off when reached; a value of 32 or more
/// is malformed and decodes to no flag.
pub open spec fn factory_flags_of(raw: i32) -> Seq<FactoryFlags> {
    let f0: int = if raw >= 32 { 0 } else { raw as int };
    let s1 = flag_step(seq![], f0, 16, FactoryFlags::Unicode);
    let s2 = flag_step(s1.0, s1.1, 8, FactoryFlags::ComponentNonDiscardable);
    let s3 = flag_step(s2.0, s2.1, 2, FactoryFlags::LicenseCheck);
    flag_step(s3.0, s3.1, 1, FactoryFlags::ClassesDiscardable).0
}

/// Decodes the flags of a factory.
pub fn read_flags(flags: i32) -> (r: Vec<FactoryFlags>)
    ensures
        r@ == factory_flags_of(flags),
        flags >= 32 ==> r@.len() == 0,
{
    let mut flags = flags;
    let mut res: Vec<FactoryFlags> = Vec::new();
    if flags >= 32 {
        flags = 0;
    }
    if flags >= 16 {
        res.push(FactoryFlags::Unicode);
        flags -= 16;
    }
    if flags >= 8 {
        res.push(FactoryFlags::ComponentNonDiscardable);
        flags -= 8;
    }
    if flags >= 2 {
        res.push(FactoryFlags::LicenseCheck);
        flags -= 2;
    }
    if flags >= 1 {
        res.push(FactoryFlags::ClassesDiscardable);
    }
    res
}

/// The class flag that bit `i` stands for.
pub open spec fn class_flag_at(i: int) -> ClassFlags {
    if i == 0 {
        ClassFlags::IsSynth
    } else if i == 1 {
        ClassFlags::IsEffect
    } else if i == 2 {
        ClassFlags::Undef
    } else if i == 3 {
        ClassFlags::PluginDoesMidi
    } else if i == 4 {
        ClassFlags::PluginDoesAudio
    } else if i == 5 {
        ClassFlags::NoAudioIO
    } else if i == 6 {
        ClassFlags::NeedMidiInput
    } else {
        ClassFlags::NeedMidiOutput
    }
}

/// Bit `i` of `raw` is set.
pub open spec fn bit_set(raw: u32, i: nat) -> bool {
    (raw >> (i as u32)) & 1u32 == 1u32
}

/// The class flags of the bits `0..n` of `raw` that are set, from bit 0 upward.
pub open spec fn class_flags_upto(raw: u32, n: nat) -> Seq<ClassFlags>
    decreases n,
{
    if n == 0 {
        seq![]
    } else {
        let before = class_flags_upto(raw, (n - 1) as nat);
        if bit_set(raw, (n - 1) as nat) {
            before.push(class_flag_at(n - 1))
        } else {
            before
        }
    }
}

/// The class flags that a raw value decodes to: bits 0 to 7, in that order.
pub open spec fn class_flags_of(raw: u32) -> Seq<ClassFlags> {
    class_flags_upto(raw, 8)
}

fn class_flag(i: usize) -> (r: ClassFlags)
    requires
        i < 8,
    ensures
        r == class_flag_at(i as int),
{
    match i {
        0 => ClassFlags::IsSynth,
        1 => ClassFlags::IsEffect,
        2 => ClassFlags::Undef,
        3 => ClassFlags::PluginDoesMidi,
        4 => ClassFlags::PluginDoesAudio,
        5 => ClassFlags::NoAudioIO,
        6 => ClassFlags::NeedMidiInput,
        _ => ClassFlags::NeedMidiOutput,
    }
}

/// Takes the lowest bit off `flags` and tells whether it was set.
pub fn get_bit_and_shift(flags: &mut u32) -> (r: bool)
    ensures
        r == (*old(flags) & 1u32 == 1u32),
        *final(flags) == *old(flags) >> 1u32,
{
    let bit = (*flags) & 1 == 1;
    *flags = *flags >> 1;
    bit
}

/// Decodes the flags of a class; bits above 7 are ignored.
pub fn read_class_flags(flags: u32) -> (r: Vec<ClassFlags>)
    ensures
        r@ == class_flags_of(flags),
{
    let ghost raw = flags;
    let mut rest = flags;
    let mut classes: Vec<ClassFlags> = Vec::new();
    let mut i: usize = 0;
    assert(raw == raw >> 0u32) by (bit_vector);
    while i < 8
        invariant
            i <= 8,
            rest == raw >> (i as u32),
            classes@ == class_flags_upto(raw, i as nat),
        decreases 8 - i,
    {
        let ghost before = rest;
        let set = get_bit_and_shift(&mut rest);
        assert(rest == raw >> ((i + 1) as u32)) by (bit_vector)
            requires
                before == raw >> (i as u32),
                rest == before >> 1u32,
                i < 8,
        ;
        if set {
            classes.push(class_flag(i));
        }
        i = i + 1;
    }
    classes
}

/// Only the low eight bits of a class-flags value count.
pub proof fn lemma_class_flags_ignore_high_bits(raw: u32)
    ensures
        class_flags_of(raw) == class_flags_of(raw & 0xFFu32),
{
    assert forall|i: u32| i < 8 implies ((raw >> i) & 1u32 == 1u32) == (((raw & 0xFFu32) >> i) & 1u32
        == 1u32) by {
        assert(i < 8 ==> (((raw >> i) & 1u32 == 1u32) == (((raw & 0xFFu32) >> i) & 1u32 == 1u32)))
            by (bit_vector);
    }
    lemma_class_flags_upto_same(raw, raw & 0xFFu32, 8);
}

proof fn lemma_class_flags_upto_same(a: u32, b: u32, n: nat)
    requires
        n <= 8,
        forall|i: u32| i < 8 ==> ((a >> i) & 1u32 == 1u32) == ((b >> i) & 1u32 == 1u32),
    ensures
        class_flags_upto(a, n) == class_flags_upto(b, n),
    decreases n,
{
    if n > 0 {
        lemma_class_flags_upto_same(a, b, (n - 1) as nat);
        let k = (n - 1) as u32;
        assert(bit_set(a, (n - 1) as nat) == bit_set(b, (n - 1) as nat)) by {
            assert(((a >> k) & 1u32 == 1u32) == ((b >> k) & 1u32 == 1u32));
        }
    }
}

/// Result code of a successful factory call.
pub const K_RESULT_OK: i32 = 0;

/// Result code of a successful first initialisation of the COM subsystem
/// (`S_OK` of windows-sys).
pub const S_OK: i32 = 0;

/// Result code of an initialisation of the COM subsystem that had been done
/// before (`S_FALSE` of windows-sys).
pub const S_FALSE: i32 = 1;

/// Why a probe of a factory failed.
#[derive(Debug, Clone, Copy, PartialEq, Eq, Structural)]
pub enum Vst3ProbeError {
    /// The COM subsystem could not be initialised; the code it returned.
    ComInitFailed(i32),
    /// The factory entry point is absent or returned nothing.
    FactoryMissing,
    /// The factory did not report success when asked about itself.
    FactoryInfoFailed,
    /// The class at this index could not be read.
    ClassInfoFailed(i32),
}

/// The version of the factory interface through which classes are read.
#[derive(Debug, Clone, Copy, PartialEq, Eq, Structural)]
pub enum FactoryTier {
    Factory1,
    Factory2,
    Factory3,
}

/// The factory's self-description, in the fixed layout the factory fills.
#[derive(Debug, Clone, Copy)]
pub struct PFactoryInfo {
    pub vendor: [i8; 64],
    pub url: [i8; 256],
    pub email: [i8; 128],
    pub flags: i32,
}

/// A class record of the base interface, in the fixed layout the factory fills.
#[derive(Debug, Clone, Copy)]
pub struct PClassInfo {
    pub cid: [u8; 16],
    pub cardinality: i32,
    pub category: [i8; 32],
    pub name: [i8; 64],
}

/// A class record of the second interface, in the fixed layout the factory fills.
#[derive(Debug, Clone, Copy)]
pub struct PClassInfo2 {
    pub cid: [u8; 16],
    pub cardinality: i32,
    pub category: [i8; 32],
    pub name: [i8; 64],
    pub class_flags: u32,
    pub subcategories: [i8; 128],
    pub vendor: [i8; 64],
    pub version: [i8; 64],
    pub sdk_version: [i8; 64],
}

/// A class record of the third interface, with wide-character names, in the
/// fixed layout the factory fills.
#[derive(Debug, Clone, Copy)]
pub struct PClassInfoW {
    pub cid: [u8; 16],
    pub cardinality: i32,
    pub category: [i8; 32],
    pub name: [i16; 64],
    pub class_flags: u32,
    pub subcategories: [i8; 128],
    pub vendor: [i16; 64],
    pub version: [i16; 64],
    pub sdk_version: [i16; 64],
}

/// `info` is what the record `raw` says of the factory.
pub open spec fn factory_info_from(info: FactoryInfo, raw: PFactoryInfo) -> bool {
    &&& info.vendor@ == narrow_string(raw.vendor@)
    &&& info.url@ == narrow_string(raw.url@)
    &&& info.email@ == narrow_string(raw.email@)
    &&& info.flags@ == factory_flags_of(raw.flags)
}

/// `c` is what the base record `raw` says of a class.
pub open spec fn class1_from(c: ClassInfo1, raw: PClassInfo) -> bool {
    &&& c.cid.data == raw.cid
    &&& c.cardinality == raw.cardinality
    &&& c.category@ == narrow_string(raw.category@)
    &&& c.name@ == narrow_string(raw.name@)
}

/// `c` is what the second-interface record `raw` says of a class.
pub open spec fn class2_from(c: ClassInfo2, raw: PClassInfo2) -> bool {
    &&& c.cid.data == raw.cid
    &&& c.cardinality == raw.cardinality
    &&& c.category@ == narrow_string(raw.category@)
    &&& c.name@ == narrow_string(raw.name@)
    &&& c.class_flags@ == class_flags_of(raw.class_flags)
    &&& c.subcategories@.map_values(|s: String| s@) == subcategories_of(raw.subcategories@)
    &&& c.vendor@ == narrow_string(raw.vendor@)
    &&& c.version@ == narrow_string(raw.version@)
    &&& c.sdk_version@ == narrow_string(raw.sdk_version@)
}

/// `c` is what the third-interface record `raw` says of a class.
pub open spec fn class3_from(c: ClassInfo3, raw: PClassInfoW) -> bool {
    &&& c.cid.data == raw.cid
    &&& c.cardinality == raw.cardinality
    &&& c.category@ == narrow_string(raw.category@)
    &&& c.name@ == wide_string(raw.name@)
    &&& c.class_flags@ == class_flags_of(raw.class_flags)
    &&& c.subcategories@.map_values(|s: String| s@) == subcategories_of(raw.subcategories@)
    &&& c.vendor@ == wide_string(raw.vendor@)
    &&& c.version@ == wide_string(raw.version@)
    &&& c.sdk_version@ == wide_string(raw.sdk_version@)
}

/// Accepts the code returned by the COM initialisation: a first initialisation
/// and a repeated one both succeed.
pub fn check_com_init(hr: i32) -> (r: Result<(), Vst3ProbeError>)
    ensures
        (hr == S_OK || hr == S_FALSE) ==> r is Ok,
        !(hr == S_OK || hr == S_FALSE) ==> r == Err::<(), Vst3ProbeError>(
            Vst3ProbeError::ComInitFailed(hr)),
{
    if hr != S_OK && hr != S_FALSE {
        Err(Vst3ProbeError::ComInitFailed(hr))
    } else {
        Ok(())
    }
}

/// Reads the factory's answer about itself: the call's result code and the
/// record it filled. Only a success code lets the probe go on.
pub fn read_factory_info(result: i32, raw: &PFactoryInfo) -> (r: Result<FactoryInfo, Vst3ProbeError>)
    ensures
        result != K_RESULT_OK ==> r == Err::<FactoryInfo, Vst3ProbeError>(
            Vst3ProbeError::FactoryInfoFailed),
        result == K_RESULT_OK ==> r is Ok && factory_info_from(r->Ok_0, *raw),
{
    if result != K_RESULT_OK {
        return Err(Vst3ProbeError::FactoryInfoFailed);
    }
    let vendor = i8_to_string(raw.vendor.as_slice());
    let url = i8_to_string(raw.url.as_slice());
    let email = i8_to_string(raw.email.as_slice());
    Ok(FactoryInfo { vendor, url, email, flags: read_flags(raw.flags) })
}

/// The richest interface the factory offers, tried from the third down.
pub fn choose_tier(has_factory3: bool, has_factory2: bool) -> (r: FactoryTier)
    ensures
        r == (if has_factory3 {
            FactoryTier::Factory3
        } else if has_factory2 {
            FactoryTier::Factory2
        } else {
            FactoryTier::Factory1
        }),
{
    if has_factory3 {
        FactoryTier::Factory3
    } else if has_factory2 {
        FactoryTier::Factory2
    } else {
        FactoryTier::Factory1
    }
}

/// Decodes a class record of the base interface.
pub fn decode_class_info1(raw: &PClassInfo) -> (r: ClassInfo1)
    ensures
        class1_from(r, *raw),
{
    ClassInfo1 {
        cid: IID { data: raw.cid },
        cardinality: raw.cardinality,
        category: i8_to_string(raw.category.as_slice()),
        name: i8_to_string(raw.name.as_slice()),
    }
}

/// Decodes a class record of the second interface.
pub fn decode_class_info2(raw: &PClassInfo2) -> (r: ClassInfo2)
    ensures
        class2_from(r, *raw),
{
    ClassInfo2 {
        cid: IID { data: raw.cid },
        cardinality: raw.cardinality,
        category: i8_to_string(raw.category.as_slice()),
        name: i8_to_string(raw.name.as_slice()),
        class_flags: read_class_flags(raw.class_flags),
        subcategories: split_subcategories(raw.subcategories.as_slice()),
        vendor: i8_to_string(raw.vendor.as_slice()),
        version: i8_to_string(raw.version.as_slice()),
        sdk_version: i8_to_string(raw.sdk_version.as_slice()),
    }
}

/// Decodes a class record of the third interface.
pub fn decode_class_info3(raw: &PClassInfoW) -> (r: ClassInfo3)
    ensures
        class3_from(r, *raw),
{
    ClassInfo3 {
        cid: IID { data: raw.cid },
        cardinality: raw.cardinality,
        category: i8_to_string(raw.category.as_slice()),
        name: i16_to_string(raw.name.as_slice()),
        class_flags: read_class_flags(raw.class_flags),
        subcategories: split_subcategories(raw.subcategories.as_slice()),
        vendor: i16_to_string(raw.vendor.as_slice()),
        version: i16_to_string(raw.version.as_slice()),
        sdk_version: i16_to_string(raw.sdk_version.as_slice()),
    }
}

/// The number of classes in a list.
pub open spec fn classes_len(c: ClassesInfo) -> nat {
    match c {
        ClassesInfo::Classes1(v) => v@.len(),
        ClassesInfo::Classes2(v) => v@.len(),
        ClassesInfo::Classes3(v) => v@.len(),
    }
}

/// The interface version a list of classes was read through.
pub open spec fn tier_of(c: ClassesInfo) -> FactoryTier {
    match c {
        ClassesInfo::Classes1(_) => FactoryTier::Factory1,
        ClassesInfo::Classes2(_) => FactoryTier::Factory2,
        ClassesInfo::Classes3(_) => FactoryTier::Factory3,
    }
}

/// The class count a factory reported, as a number of classes to read.
pub open spec fn classes_to_read(count: i32) -> nat {
    if count < 0 {
        0
    } else {
        count as nat
    }
}

/// The reading of a factory's classes, one index after another, through a
/// single interface version. A failure at any index ends it with no list.
pub struct ClassEnumeration {
    classes: ClassesInfo,
    count: i32,
}

impl ClassEnumeration {
    /// The classes read so far.
    pub closed spec fn read_so_far(&self) -> ClassesInfo {
        self.classes
    }

    /// How many classes the factory reported.
    pub closed spec fn total(&self) -> nat {
        classes_to_read(self.count)
    }

    /// The interface version the classes are read through.
    pub open spec fn tier(&self) -> FactoryTier {
        tier_of(self.read_so_far())
    }

    /// How many classes were read so far.
    pub open spec fn collected(&self) -> nat {
        classes_len(self.read_so_far())
    }

    /// No more classes were read than reported.
    pub open spec fn wf(&self) -> bool {
        self.collected() <= self.total()
    }

    /// Starts reading `count` classes through the interface version `tier`.
    pub fn new(tier: FactoryTier, count: i32) -> (r: Self)
        ensures
            r.wf(),
            r.tier() == tier,
            r.collected() == 0,
            r.total() == classes_to_read(count),
    {
        let classes = match tier {
            FactoryTier::Factory1 => ClassesInfo::Classes1(Vec::new()),
            FactoryTier::Factory2 => ClassesInfo::Classes2(Vec::new()),
            FactoryTier::Factory3 => ClassesInfo::Classes3(Vec::new()),
        };
        ClassEnumeration { classes, count }
    }

    /// The interface version the classes are read through.
    pub fn tier_used(&self) -> (r: FactoryTier)
        ensures
            r == self.tier(),
    {
        match &self.classes {
            ClassesInfo::Classes1(_) => FactoryTier::Factory1,
            ClassesInfo::Classes2(_) => FactoryTier::Factory2,
            ClassesInfo::Classes3(_) => FactoryTier::Factory3,
        }
    }

    fn collected_now(&self) -> (r: usize)
        ensures
            r == self.collected(),
    {
        match &self.classes {
            ClassesInfo::Classes1(v) => v.len(),
            ClassesInfo::Classes2(v) => v.len(),
            ClassesInfo::Classes3(v) => v.len(),
        }
    }

    /// The index of the class to ask for next, none once all were read.
    pub fn next_index(&self) -> (r: Option<i32>)
        requires
            self.wf(),
        ensures
            self.collected() < self.total() ==> r == Some(self.collected() as i32),
            self.collected() == self.total() ==> r is None,
    {
        let n = self.collected_now();
        if self.count > 0 && n < self.count as usize {
            Some(n as i32)
        } else {
            None
        }
    }

    /// Takes the answer for the next class through the base interface: the
    /// call's result code and the record it filled.
    pub fn record_class1(&mut self, result: i32, raw: &PClassInfo) -> (r: Result<(), Vst3ProbeError>)
        requires
            old(self).wf(),
            old(self).tier() == FactoryTier::Factory1,
            old(self).collected() < old(self).total(),
        ensures
            result != K_RESULT_OK ==> r == Err::<(), Vst3ProbeError>(
                Vst3ProbeError::ClassInfoFailed(old(self).collected() as i32)) && *final(self)
                == *old(self),
            result == K_RESULT_OK ==> r is Ok && final(self).wf() && final(self).total() == old(
                self).total() && final(self).read_so_far() is Classes1 && ({
                let before = old(self).read_so_far()->Classes1_0@;
                let after = final(self).read_so_far()->Classes1_0@;
                &&& after.len() == before.len() + 1
                &&& after.take(before.len() as int) == before
                &&& class1_from(after.last(), *raw)
            }),
    {
        let index = self.collected_now();
        if result != K_RESULT_OK {
            return Err(Vst3ProbeError::ClassInfoFailed(index as i32));
        }
        let info = decode_class_info1(raw);
        match &mut self.classes {
            ClassesInfo::Classes1(v) => {
                let ghost before = v@;
                v.push(info);
                assert(v@.take(before.len() as int) =~= before);
            },
            _ => {},
        }
        Ok(())
    }

    /// Takes the answer for the next class through the second interface.
    pub fn record_class2(&mut self, result: i32, raw: &PClassInfo2) -> (r: Result<(), Vst3ProbeError>)
        requires
            old(self).wf(),
            old(self).tier() == FactoryTier::Factory2,
            old(self).collected() < old(self).total(),
        ensures
            result != K_RESULT_OK ==> r == Err::<(), Vst3ProbeError>(
                Vst3ProbeError::ClassInfoFailed(old(self).collected() as i32)) && *final(self)
                == *old(self),
            result == K_RESULT_OK ==> r is Ok && final(self).wf() && final(self).total() == old(
                self).total() && final(self).read_so_far() is Classes2 && ({
                let before = old(self).read_so_far()->Classes2_0@;
                let after = final(self).read_so_far()->Classes2_0@;
                &&& after.len() == before.len() + 1
                &&& after.take(before.len() as int) == before
                &&& class2_from(after.last(), *raw)
            }),
    {
        let index = self.collected_now();
        if result != K_RESULT_OK {
            return Err(Vst3ProbeError::ClassInfoFailed(index as i32));
        }
        let info = decode_class_info2(raw);
        match &mut self.classes {
            ClassesInfo::Classes2(v) => {
                let ghost before = v@;
                v.push(info);
                assert(v@.take(before.len() as int) =~= before);
            },
            _ => {},
        }
        Ok(())
    }

    /// Takes the answer for the next class through the third interface.
    pub fn record_class3(&mut self, result: i32, raw: &PClassInfoW) -> (r: Result<(), Vst3ProbeError>)
        requires
            old(self).wf(),
            old(self).tier() == FactoryTier::Factory3,
            old(self).collected() < old(self).total(),
        ensures
            result != K_RESULT_OK ==> r == Err::<(), Vst3ProbeError>(
                Vst3ProbeError::ClassInfoFailed(old(self).collected() as i32)) && *final(self)
                == *old(self),
            result == K_RESULT_OK ==> r is Ok && final(self).wf() && final(self).total() == old(
                self).total() && final(self).read_so_far() is Classes3 && ({
                let before = old(self).read_so_far()->Classes3_0@;
                let after = final(self).read_so_far()->Classes3_0@;
                &&& after.len() == before.len() + 1
                &&& after.take(before.len() as int) == before
                &&& class3_from(after.last(), *raw)
            }),
    {
        let index = self.collected_now();
        if result != K_RESULT_OK {
            return Err(Vst3ProbeError::ClassInfoFailed(index as i32));
        }
        let info = decode_class_info3(raw);
        match &mut self.classes {
            ClassesInfo::Classes3(v) => {
                let ghost before = v@;
                v.push(info);
                assert(v@.take(before.len() as int) =~= before);
            },
            _ => {},
        }
        Ok(())
    }

    /// The complete list of classes, available once every reported class was read.
    pub fn into_classes(self) -> (r: ClassesInfo)
        requires
            self.wf(),
            self.collected() == self.total(),
        ensures
            r == self.read_so_far(),
            classes_len(r) == self.total(),
            tier_of(r) == self.tier(),
    {
        self.classes
    }
}

/// Puts together what a probe of a factory read.
pub fn assemble_vst3_info(factory_info: FactoryInfo, classes: ClassesInfo) -> (r: Vst3Info)
    ensures
        r.factory_info == factory_info,
        r.classes == classes,
{
    Vst3Info { factory_info, classes }
}

/// Two descriptors read from the same class record of the third interface agree
/// in every field: reading a record again gives the same descriptor.
pub proof fn lemma_class3_repeatable(a: ClassInfo3, b: ClassInfo3, raw: PClassInfoW)
    requires
        class3_from(a, raw),
        class3_from(b, raw),
    ensures
        a.cid.data == b.cid.data,
        a.cardinality == b.cardinality,
        a.category@ == b.category@,
        a.name@ == b.name@,
        a.class_flags@ == b.class_flags@,
        a.subcategories@.map_values(|s: String| s@) == b.subcategories@.map_values(|s: String| s@),
        a.vendor@ == b.vendor@,
        a.version@ == b.version@,
        a.sdk_version@ == b.sdk_version@,
{
}

/// Two descriptors read from the same class record of the second interface
/// agree in every field.
pub proof fn lemma_class2_repeatable(a: ClassInfo2, b: ClassInfo2, raw: PClassInfo2)
    requires
        class2_from(a, raw),
        class2_from(b, raw),
    ensures
        a.cid.data == b.cid.data,
        a.cardinality == b.cardinality,
        a.category@ == b.category@,
        a.name@ == b.name@,
        a.class_flags@ == b.class_flags@,
        a.subcategories@.map_values(|s: String| s@) == b.subcategories@.map_values(|s: String| s@),
        a.vendor@ == b.vendor@,
        a.version@ == b.version@,
        a.sdk_version@ == b.sdk_version@,
{
}

/// Two descriptors read from the same base class record agree in every field.
pub proof fn lemma_class1_repeatable(a: ClassInfo1, b: ClassInfo1, raw: PClassInfo)
    requires
        class1_from(a, raw),
        class1_from(b, raw),
    ensures
        a.cid.data == b.cid.data,
        a.cardinality == b.cardinality,
        a.category@ == b.category@,
        a.name@ == b.name@,
{
}

/// Two readings of the same factory record agree in every field.
pub proof fn lemma_factory_info_repeatable(a: FactoryInfo, b: FactoryInfo, raw: PFactoryInfo)
    requires
        factory_info_from(a, raw),
        factory_info_from(b, raw),
    ensures
        a.vendor@ == b.vendor@,
        a.url@ == b.url@,
        a.email@ == b.email@,
        a.flags@ == b.flags@,
{
}

/// A factory that offers only the base interface has its classes read through
/// it; one that offers the third has them read through the third, whatever
/// else it offers.
pub proof fn lemma_tier_follows_offer(has_factory3: bool, has_factory2: bool, e: ClassEnumeration)
    requires
        e.tier() == (if has_factory3 {
            FactoryTier::Factory3
        } else if has_factory2 {
            FactoryTier::Factory2
        } else {
            FactoryTier::Factory1
        }),
    ensures
        !has_factory3 && !has_factory2 ==> e.read_so_far() is Classes1,
        has_factory3 ==> e.read_so_far() is Classes3,
{
}

} // verus!
