//! Choosing the files to probe and the protocol for each.
use vstd::prelude::*;
use vstd::string::StringSliceAdditionalSpecFns;

verus! {

/// The protocol a plugin file is probed with.
#[derive(Debug, Clone, Copy, PartialEq, Eq, Structural)]
pub enum PluginKind {
    /// The C-struct protocol, for files ending in "dll".
    Vst2,
    /// The COM-style protocol, for files ending in "vst3".
    Vst3,
}

/// The bytes of "dll".
pub open spec fn dll_ext() -> Seq<u8> {
    seq![0x64u8, 0x6Cu8, 0x6Cu8]
}

/// The bytes of "vst3".
pub open spec fn vst3_ext() -> Seq<u8> {
    seq![0x76u8, 0x73u8, 0x74u8, 0x33u8]
}

/// The protocol for a file extension, compared exactly; none for any other.
pub open spec fn kind_of_ext(ext: Seq<u8>) -> Option<PluginKind> {
    if ext == vst3_ext() {
        Some(PluginKind::Vst3)
    } else if ext == dll_ext() {
        Some(PluginKind::Vst2)
    } else {
        None
    }
}

/// A byte with ASCII upper-case letters taken to lower case.
pub open spec fn ascii_lower(b: u8) -> u8 {
    if 0x41 <= b <= 0x5A {
        (b + 32) as u8
    } else {
        b
    }
}

/// Two byte strings are equal up to the case of ASCII letters.
pub open spec fn eq_ignore_ascii_case(a: Seq<u8>, b: Seq<u8>) -> bool {
    a.len() == b.len() && forall|i: int| 0 <= i < a.len() ==> ascii_lower(a[i]) == ascii_lower(b[i])
}

fn lower(b: u8) -> (r: u8)
    ensures
        r == ascii_lower(b),
{
    if 0x41 <= b && b <= 0x5A {
        b + 32
    } else {
        b
    }
}

fn bytes_equal(a: &[u8], b: &[u8]) -> (r: bool)
    ensures
        r == (a@ == b@),
{
    if a.len() != b.len() {
        return false;
    }
    let mut i: usize = 0;
    while i < a.len()
        invariant
            a@.len() == b@.len(),
            i <= a@.len(),
            forall|j: int| 0 <= j < i ==> a@[j] == b@[j],
        decreases a@.len() - i,
    {
        if a[i] != b[i] {
            return false;
        }
        i = i + 1;
    }
    assert(a@ =~= b@);
    true
}

fn bytes_equal_ignore_case(a: &[u8], b: &[u8]) -> (r: bool)
    ensures
        r == eq_ignore_ascii_case(a@, b@),
{
    if a.len() != b.len() {
        return false;
    }
    let mut i: usize = 0;
    while i < a.len()
        invariant
            a@.len() == b@.len(),
            i <= a@.len(),
            forall|j: int| 0 <= j < i ==> ascii_lower(a@[j]) == ascii_lower(b@[j]),
        decreases a@.len() - i,
    {
        if lower(a[i]) != lower(b[i]) {
            return false;
        }
        i = i + 1;
    }
    true
}

/// The protocol to probe a file with, by its extension; none when the
/// extension is neither "vst3" nor "dll".
pub fn plugin_kind(ext: &str) -> (r: Option<PluginKind>)
    ensures
        r == kind_of_ext(ext.spec_bytes()),
{
    let bytes = ext.as_bytes();
    let vst3: [u8; 4] = [0x76u8, 0x73u8, 0x74u8, 0x33u8];
    let dll: [u8; 3] = [0x64u8, 0x6Cu8, 0x6Cu8];
    assert(vst3@ =~= vst3_ext());
    assert(dll@ =~= dll_ext());
    if bytes_equal(bytes, vst3.as_slice()) {
        Some(PluginKind::Vst3)
    } else if bytes_equal(bytes, dll.as_slice()) {
        Some(PluginKind::Vst2)
    } else {
        None
    }
}

/// Whether a file extension is one of the wanted ones, ignoring the case of
/// ASCII letters.
pub fn is_wanted_extension(ext: &str, wanted: &[&str]) -> (r: bool)
    ensures
        r == exists|i: int| 0 <= i < wanted@.len() && eq_ignore_ascii_case(
            wanted@[i].spec_bytes(),
            ext.spec_bytes(),
        ),
{
    let e = ext.as_bytes();
    let mut i: usize = 0;
    while i < wanted.len()
        invariant
            i <= wanted@.len(),
            e@ == ext.spec_bytes(),
            forall|j: int| 0 <= j < i ==> !eq_ignore_ascii_case(wanted@[j].spec_bytes(), ext.spec_bytes()),
        decreases wanted@.len() - i,
    {
        let w: &str = wanted[i];
        if bytes_equal_ignore_case(w.as_bytes(), e) {
            return true;
        }
        i = i + 1;
    }
    false
}

} // verus!
