//! The C-struct plugin protocol: the host callback's answers, the decoding of
//! the plugin's answers, and the steps of a probe.
use vstd::prelude::*;

pub mod types;

pub use types::{category_of, Vst2Category, Vst2Info};

use crate::utils::{i8_to_string, narrow_string};

verus! {

// The opcode and category numbers below are those of the protocol's own
// tables, as vst2-sys publishes them in `host_opcodes`, `effect_opcodes` and
// `plug_category`: vendor string 32, product string 33, vendor version 34.

/// Host opcode: the protocol version the host speaks.
pub const HOST_VERSION: i32 = 1;

/// Host opcode: the host's vendor name.
pub const HOST_GET_VENDOR_STRING: i32 = 32;

/// Host opcode: the host's product name.
pub const HOST_GET_PRODUCT_STRING: i32 = 33;

/// Host opcode: the host's vendor version.
pub const HOST_GET_VENDOR_VERSION: i32 = 34;

/// Host opcode: whether the host can do a named thing.
pub const HOST_CAN_DO: i32 = 37;

/// Effect opcode: open the effect.
pub const EFF_OPEN: i32 = 0;

/// Effect opcode: close the effect.
pub const EFF_CLOSE: i32 = 1;

/// Effect opcode: the effect's category.
pub const EFF_GET_PLUG_CATEGORY: i32 = 35;

/// Effect opcode: the effect's name.
pub const EFF_GET_EFFECT_NAME: i32 = 45;

/// Effect opcode: the effect's vendor.
pub const EFF_GET_VENDOR_STRING: i32 = 47;

/// Effect opcode: the effect's product name.
pub const EFF_GET_PRODUCT_STRING: i32 = 48;

/// The protocol version the host reports.
pub const HOST_PROTOCOL_VERSION: isize = 2100;

/// The vendor version the host reports.
pub const HOST_VENDOR_VERSION: isize = 1000;

/// Size of the text buffers handed to the plugin.
pub const STRING_BUFFER_LEN: usize = 64;

/// Why a probe of a C-struct plugin failed before any query.
#[derive(Debug, Clone, Copy, PartialEq, Eq, Structural)]
pub enum Vst2ProbeError {
    /// Neither the primary nor the legacy entry symbol is exported.
    EntryPointMissing,
    /// The entry point returned no effect structure.
    EffectNull,
}

/// The host's answer to a call from the plugin.
#[derive(Debug, PartialEq, Eq)]
pub enum HostReply {
    /// Answer with this number.
    Value(isize),
    /// Copy these bytes to the start of the plugin's buffer, then answer 1.
    Text(Vec<u8>),
}

impl HostReply {
    /// The number handed back to the plugin.
    pub fn answer(&self) -> (r: isize)
        ensures
            (*self is Value) ==> r == self->Value_0,
            (*self is Text) ==> r == 1,
    {
        match self {
            HostReply::Value(v) => *v,
            HostReply::Text(_) => 1,
        }
    }
}

/// The vendor name the host gives, with its terminator: "MyHost".
pub open spec fn host_vendor_text() -> Seq<u8> {
    seq![0x4Du8, 0x79u8, 0x48u8, 0x6Fu8, 0x73u8, 0x74u8, 0u8]
}

/// The product name the host gives, with its terminator: "MyHostProduct".
pub open spec fn host_product_text() -> Seq<u8> {
    seq![
        0x4Du8, 0x79u8, 0x48u8, 0x6Fu8, 0x73u8, 0x74u8, 0x50u8, 0x72u8, 0x6Fu8, 0x64u8, 0x75u8,
        0x63u8, 0x74u8, 0u8,
    ]
}

/// The host's answer to `opcode`, given whether the plugin passed a buffer.
pub open spec fn host_reply_spec(opcode: i32, has_buffer: bool) -> (Option<Seq<u8>>, int) {
    if opcode == HOST_VERSION {
        (None, HOST_PROTOCOL_VERSION as int)
    } else if opcode == HOST_GET_VENDOR_STRING && has_buffer {
        (Some(host_vendor_text()), 1)
    } else if opcode == HOST_GET_PRODUCT_STRING && has_buffer {
        (Some(host_product_text()), 1)
    } else if opcode == HOST_GET_VENDOR_VERSION {
        (None, HOST_VENDOR_VERSION as int)
    } else {
        (None, 0)
    }
}

/// Decides how the host answers a call from the plugin. The answer never
/// depends on anything but the opcode and whether a buffer came with it; the
/// capability query and every unknown opcode are answered with 0.
pub fn host_reply(opcode: i32, has_buffer: bool) -> (r: HostReply)
    ensures
        host_reply_spec(opcode, has_buffer).0 is Some <==> r is Text,
        r is Text ==> r->Text_0@ == host_reply_spec(opcode, has_buffer).0->Some_0 && r->Text_0@.len()
            <= STRING_BUFFER_LEN,
        r is Value ==> r->Value_0 == host_reply_spec(opcode, has_buffer).1,
{
    if opcode == HOST_VERSION {
        HostReply::Value(HOST_PROTOCOL_VERSION)
    } else if opcode == HOST_GET_VENDOR_STRING {
        if has_buffer {
            let t: Vec<u8> = vec![0x4Du8, 0x79u8, 0x48u8, 0x6Fu8, 0x73u8, 0x74u8, 0u8];
            assert(t@ =~= host_vendor_text());
            HostReply::Text(t)
        } else {
            HostReply::Value(0)
        }
    } else if opcode == HOST_GET_PRODUCT_STRING {
        if has_buffer {
            let t: Vec<u8> = vec![
                0x4Du8, 0x79u8, 0x48u8, 0x6Fu8, 0x73u8, 0x74u8, 0x50u8, 0x72u8, 0x6Fu8, 0x64u8,
                0x75u8, 0x63u8, 0x74u8, 0u8,
            ];
            assert(t@ =~= host_product_text());
            HostReply::Text(t)
        } else {
            HostReply::Value(0)
        }
    } else if opcode == HOST_GET_VENDOR_VERSION {
        HostReply::Value(HOST_VENDOR_VERSION)
    } else {
        HostReply::Value(0)
    }
}

/// The text a plugin gave in answer to a string query: none when the call
/// answered 0 or the decoded text is empty.
pub open spec fn string_answer(result: isize, buffer: Seq<i8>) -> Option<Seq<char>> {
    if result == 0 || narrow_string(buffer).len() == 0 {
        None
    } else {
        Some(narrow_string(buffer))
    }
}

/// The view of an optional text.
pub open spec fn opt_text(o: Option<String>) -> Option<Seq<char>> {
    match o {
        Some(s) => Some(s@),
        None => None,
    }
}

/// Reads the plugin's answer to a string query: the call's result and the
/// buffer it filled.
pub fn get_string(result: isize, buffer: &[i8]) -> (r: Option<String>)
    ensures
        opt_text(r) == string_answer(result, buffer@),
        r is Some ==> r->Some_0@.len() > 0,
{
    if result == 0 {
        return None;
    }
    let text = i8_to_string(buffer);
    proof {
        crate::utils::lemma_narrow_empty(buffer@);
    }
    if buffer.len() == 0 || buffer[0] == 0 {
        return None;
    }
    Some(text)
}

/// A query the probe puts to the plugin's dispatcher.
#[derive(Debug, Clone, Copy, PartialEq, Eq, Structural)]
pub enum Vst2Query {
    Open,
    EffectName,
    ProductName,
    VendorString,
    PlugCategory,
    Close,
}

/// The opcode of a query.
pub open spec fn query_opcode(q: Vst2Query) -> i32 {
    match q {
        Vst2Query::Open => EFF_OPEN,
        Vst2Query::EffectName => EFF_GET_EFFECT_NAME,
        Vst2Query::ProductName => EFF_GET_PRODUCT_STRING,
        Vst2Query::VendorString => EFF_GET_VENDOR_STRING,
        Vst2Query::PlugCategory => EFF_GET_PLUG_CATEGORY,
        Vst2Query::Close => EFF_CLOSE,
    }
}

/// The queries that hand the plugin a zeroed text buffer.
pub open spec fn query_wants_buffer(q: Vst2Query) -> bool {
    q is EffectName || q is ProductName || q is VendorString
}

impl Vst2Query {
    /// The opcode under which the query goes to the dispatcher.
    pub fn opcode(&self) -> (r: i32)
        ensures
            r == query_opcode(*self),
    {
        match self {
            Vst2Query::Open => EFF_OPEN,
            Vst2Query::EffectName => EFF_GET_EFFECT_NAME,
            Vst2Query::ProductName => EFF_GET_PRODUCT_STRING,
            Vst2Query::VendorString => EFF_GET_VENDOR_STRING,
            Vst2Query::PlugCategory => EFF_GET_PLUG_CATEGORY,
            Vst2Query::Close => EFF_CLOSE,
        }
    }

    /// Whether the query goes with a zeroed buffer of `STRING_BUFFER_LEN` bytes.
    pub fn wants_buffer(&self) -> (r: bool)
        ensures
            r == query_wants_buffer(*self),
    {
        match self {
            Vst2Query::EffectName | Vst2Query::ProductName | Vst2Query::VendorString => true,
            _ => false,
        }
    }
}

/// What a probe of a plugin knows at some point.
pub struct Vst2Model {
    /// The query to put next; none once the plugin was closed.
    pub pending: Option<Vst2Query>,
    pub name: Option<Seq<char>>,
    pub vendor: Option<Seq<char>>,
    pub category_raw: i32,
    pub version: u32,
    pub unique_id: u32,
}

/// How the plugin's answer to the pending query moves a probe on.
pub open spec fn vst2_step(m: Vst2Model, result: isize, buffer: Seq<i8>) -> Vst2Model {
    match m.pending {
        Some(Vst2Query::Open) => Vst2Model { pending: Some(Vst2Query::EffectName), ..m },
        Some(Vst2Query::EffectName) => {
            let name = string_answer(result, buffer);
            Vst2Model {
                pending: Some(
                    if name is None {
                        Vst2Query::ProductName
                    } else {
                        Vst2Query::VendorString
                    },
                ),
                name,
                ..m
            }
        },
        Some(Vst2Query::ProductName) => Vst2Model {
            pending: Some(Vst2Query::VendorString),
            name: string_answer(result, buffer),
            ..m
        },
        Some(Vst2Query::VendorString) => Vst2Model {
            pending: Some(Vst2Query::PlugCategory),
            vendor: string_answer(result, buffer),
            ..m
        },
        Some(Vst2Query::PlugCategory) => Vst2Model {
            pending: Some(Vst2Query::Close),
            category_raw: result as i32,
            ..m
        },
        Some(Vst2Query::Close) => Vst2Model { pending: None, ..m },
        None => m,
    }
}

/// `info` is the descriptor that a probe knowing `m` hands out.
pub open spec fn vst2_info_from(info: Vst2Info, m: Vst2Model) -> bool {
    &&& opt_text(info.name) == m.name
    &&& opt_text(info.vendor) == m.vendor
    &&& info.version == m.version
    &&& info.unique_id == m.unique_id
    &&& info.category_raw == m.category_raw
    &&& info.category == category_of(m.category_raw)
}

/// Two descriptors handed out by probes that came to know the same things agree
/// in every field: probing an unchanged plugin twice gives equal descriptors.
pub proof fn lemma_vst2_repeatable(a: Vst2Info, b: Vst2Info, done: Vst2Model)
    requires
        vst2_info_from(a, done),
        vst2_info_from(b, done),
    ensures
        opt_text(a.name) == opt_text(b.name),
        opt_text(a.vendor) == opt_text(b.vendor),
        a.version == b.version,
        a.unique_id == b.unique_id,
        a.category_raw == b.category_raw,
        a.category == b.category,
{
}

/// A probe of a plugin through its dispatcher: which query comes next, and
/// what the answers so far said. The descriptor is handed out only once the
/// plugin was closed.
pub struct Vst2Probe {
    pending: Option<Vst2Query>,
    name: Option<String>,
    vendor: Option<String>,
    category_raw: i32,
    version: u32,
    unique_id: u32,
}

impl Vst2Probe {
    /// What the probe knows.
    pub closed spec fn model(&self) -> Vst2Model {
        Vst2Model {
            pending: self.pending,
            name: opt_text(self.name),
            vendor: opt_text(self.vendor),
            category_raw: self.category_raw,
            version: self.version,
            unique_id: self.unique_id,
        }
    }

    /// Starts a probe of a plugin whose structure reports `version` and `unique_id`.
    pub fn new(version: i32, unique_id: i32) -> (r: Self)
        ensures
            r.model() == (Vst2Model {
                pending: Some(Vst2Query::Open),
                name: None,
                vendor: None,
                category_raw: 0,
                version: version as u32,
                unique_id: unique_id as u32,
            }),
    {
        Vst2Probe {
            pending: Some(Vst2Query::Open),
            name: None,
            vendor: None,
            category_raw: 0,
            version: version as u32,
            unique_id: unique_id as u32,
        }
    }

    /// The query to put to the dispatcher next; none once the plugin was closed.
    pub fn next_query(&self) -> (r: Option<Vst2Query>)
        ensures
            r == self.model().pending,
    {
        self.pending
    }

    /// Takes the dispatcher's answer to the pending query: its result, and the
    /// buffer handed with it (empty for a query without one).
    pub fn answer(&mut self, result: isize, buffer: &[i8])
        requires
            old(self).model().pending is Some,
        ensures
            final(self).model() == vst2_step(old(self).model(), result, buffer@),
    {
        match self.pending {
            Some(Vst2Query::Open) => {
                self.pending = Some(Vst2Query::EffectName);
            },
            Some(Vst2Query::EffectName) => {
                let name = get_string(result, buffer);
                self.pending = Some(
                    if name.is_none() {
                        Vst2Query::ProductName
                    } else {
                        Vst2Query::VendorString
                    },
                );
                self.name = name;
            },
            Some(Vst2Query::ProductName) => {
                self.name = get_string(result, buffer);
                self.pending = Some(Vst2Query::VendorString);
            },
            Some(Vst2Query::VendorString) => {
                self.vendor = get_string(result, buffer);
                self.pending = Some(Vst2Query::PlugCategory);
            },
            Some(Vst2Query::PlugCategory) => {
                self.category_raw = result as i32;
                self.pending = Some(Vst2Query::Close);
            },
            Some(Vst2Query::Close) => {
                self.pending = None;
            },
            None => {},
        }
    }

    /// The descriptor, once the plugin was closed.
    pub fn finish(self) -> (r: Vst2Info)
        requires
            self.model().pending is None,
        ensures
            vst2_info_from(r, self.model()),
    {
        Vst2Info {
            name: self.name,
            vendor: self.vendor,
            version: self.version,
            unique_id: self.unique_id,
            category: Vst2Category::from_num(self.category_raw),
            category_raw: self.category_raw,
        }
    }
}

/// When the plugin gives no name, the probe asks for its product name next and
/// takes that answer as the name.
pub proof fn lemma_name_falls_back_to_product(
    m: Vst2Model,
    name_result: isize,
    name_buffer: Seq<i8>,
    product_result: isize,
    product_buffer: Seq<i8>,
)
    requires
        m.pending == Some(Vst2Query::EffectName),
        string_answer(name_result, name_buffer) is None,
    ensures
        vst2_step(m, name_result, name_buffer).pending == Some(Vst2Query::ProductName),
        vst2_step(vst2_step(m, name_result, name_buffer), product_result, product_buffer).name
            == string_answer(product_result, product_buffer),
{
}

/// When the plugin gives a name, the product name is never asked for and the
/// name is kept.
pub proof fn lemma_name_kept(m: Vst2Model, result: isize, buffer: Seq<i8>)
    requires
        m.pending == Some(Vst2Query::EffectName),
        string_answer(result, buffer) is Some,
    ensures
        vst2_step(m, result, buffer).pending == Some(Vst2Query::VendorString),
        vst2_step(m, result, buffer).name == string_answer(result, buffer),
{
}

} // verus!
