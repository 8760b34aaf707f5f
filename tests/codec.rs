use plugin_probe::lib_loader::{os_error_message, utf16_path};
use plugin_probe::scan::{is_wanted_extension, plugin_kind, PluginKind};
use plugin_probe::utils::{i16_to_string, i8_to_string, split_subcategories};
use plugin_probe::vst3::{
    get_bit_and_shift, read_class_flags, read_flags, ClassCardinality, ClassFlags, FactoryFlags,
};

fn narrow(s: &str, len: usize) -> Vec<i8> {
    let mut out = vec![0i8; len];
    for (i, b) in s.bytes().enumerate() {
        out[i] = b as i8;
    }
    out
}

#[test]
fn narrow_text_stops_at_terminator() {
    let mut buf = narrow("Vendor", 16);
    buf[8] = b'x' as i8;
    assert_eq!(i8_to_string(&buf), "Vendor");
}

#[test]
fn narrow_text_without_terminator_uses_whole_buffer() {
    let buf = narrow("abcd", 4);
    assert_eq!(i8_to_string(&buf), "abcd");
    assert_eq!(i8_to_string(&[]), "");
}

#[test]
fn narrow_text_decodes_lossily() {
    let buf = vec![b'a' as i8, 0xFFu8 as i8, b'b' as i8, 0];
    assert_eq!(i8_to_string(&buf), "a\u{FFFD}b");
    let utf8 = "caf\u{e9}";
    assert_eq!(i8_to_string(&narrow(utf8, 8)), utf8);
}

#[test]
fn wide_text_stops_at_terminator() {
    let buf: Vec<i16> = vec![b'H' as i16, b'i' as i16, 0, b'!' as i16];
    assert_eq!(i16_to_string(&buf), "Hi");
    let whole: Vec<i16> = vec![0x3042, 0x3044];
    assert_eq!(i16_to_string(&whole), "\u{3042}\u{3044}");
}

#[test]
fn wide_text_decodes_lossily() {
    let buf: Vec<i16> = vec![b'a' as i16, 0xD800u16 as i16, b'b' as i16, 0];
    assert_eq!(i16_to_string(&buf), "a\u{FFFD}b");
}

#[test]
fn wide_text_joins_surrogate_pairs() {
    let buf: Vec<i16> = vec![0xD83Du16 as i16, 0xDE00u16 as i16, 0xDE00u16 as i16, 0xD83Du16 as i16];
    assert_eq!(i16_to_string(&buf), "\u{1F600}\u{FFFD}\u{FFFD}");
}

#[test]
fn subcategories_skip_empty_pieces() {
    let buf = narrow("|Fx|Delay||Reverb|", 128);
    assert_eq!(split_subcategories(&buf), vec!["Fx", "Delay", "Reverb"]);
    assert!(split_subcategories(&narrow("", 8)).is_empty());
    assert!(split_subcategories(&narrow("||", 8)).is_empty());
    assert_eq!(split_subcategories(&narrow("Instrument", 16)), vec!["Instrument"]);
}

#[test]
fn factory_flags_decode_from_high_to_low() {
    assert!(matches!(
        read_flags(19).as_slice(),
        [FactoryFlags::Unicode, FactoryFlags::LicenseCheck, FactoryFlags::ClassesDiscardable]
    ));
    assert!(matches!(
        read_flags(31).as_slice(),
        [
            FactoryFlags::Unicode,
            FactoryFlags::ComponentNonDiscardable,
            FactoryFlags::LicenseCheck,
            FactoryFlags::ClassesDiscardable
        ]
    ));
    assert!(matches!(
        read_flags(4).as_slice(),
        [FactoryFlags::LicenseCheck, FactoryFlags::ClassesDiscardable]
    ));
    assert!(read_flags(0).is_empty());
    assert!(read_flags(-3).is_empty());
}

#[test]
fn factory_flags_of_malformed_value_are_empty() {
    assert!(read_flags(40).is_empty());
    assert!(read_flags(32).is_empty());
    assert!(read_flags(i32::MAX).is_empty());
}

#[test]
fn class_flags_decode_low_bits_in_order() {
    assert_eq!(read_class_flags(0b0000_0011), vec![ClassFlags::IsSynth, ClassFlags::IsEffect]);
    assert_eq!(read_class_flags(0x90), vec![ClassFlags::PluginDoesAudio, ClassFlags::NeedMidiOutput]);
    assert!(read_class_flags(0).is_empty());
}

#[test]
fn class_flags_ignore_high_bits() {
    assert!(read_class_flags(0x100).is_empty());
    assert_eq!(
        read_class_flags(0xFFFF_FFFF),
        vec![
            ClassFlags::IsSynth,
            ClassFlags::IsEffect,
            ClassFlags::Undef,
            ClassFlags::PluginDoesMidi,
            ClassFlags::PluginDoesAudio,
            ClassFlags::NoAudioIO,
            ClassFlags::NeedMidiInput,
            ClassFlags::NeedMidiOutput,
        ]
    );
}

#[test]
fn bit_is_taken_off_the_low_end() {
    let mut flags = 0b101u32;
    assert!(get_bit_and_shift(&mut flags));
    assert_eq!(flags, 0b10);
    assert!(!get_bit_and_shift(&mut flags));
    assert_eq!(flags, 1);
}

#[test]
fn many_instances_has_its_code() {
    assert_eq!(ClassCardinality::ManyInstances.value(), 0x7FFF_FFFF);
}

#[test]
fn path_is_encoded_wide_with_terminator() {
    assert_eq!(utf16_path("C:\\a.dll"), vec![67, 58, 92, 97, 46, 100, 108, 108, 0]);
    assert_eq!(utf16_path("\u{1F600}"), vec![0xD83D, 0xDE00, 0]);
    assert_eq!(utf16_path(""), vec![0]);
}

#[test]
fn extension_selects_protocol() {
    assert_eq!(plugin_kind("vst3"), Some(PluginKind::Vst3));
    assert_eq!(plugin_kind("dll"), Some(PluginKind::Vst2));
    assert_eq!(plugin_kind("DLL"), None);
    assert_eq!(plugin_kind("so"), None);
    assert_eq!(plugin_kind(""), None);
}

#[test]
fn wanted_extensions_ignore_ascii_case() {
    let wanted = ["dll", "vst3"];
    assert!(is_wanted_extension("DLL", &wanted));
    assert!(is_wanted_extension("Vst3", &wanted));
    assert!(!is_wanted_extension("vst", &wanted));
    assert!(!is_wanted_extension("dll", &[]));
}

#[test]
fn undescribed_os_error_names_its_code() {
    assert_eq!(os_error_message(126, &[]), "OS Error 126");
    assert_eq!(os_error_message(0, &[]), "OS Error 0");
    assert_eq!(os_error_message(u32::MAX, &[]), "OS Error 4294967295");
}

#[test]
fn os_error_text_is_trimmed() {
    let units: Vec<u16> = "  The specified module could not be found.\r\n".encode_utf16().collect();
    assert_eq!(os_error_message(126, &units), "The specified module could not be found.");
    let blank: Vec<u16> = " \r\n".encode_utf16().collect();
    assert_eq!(os_error_message(5, &blank), "");
}
