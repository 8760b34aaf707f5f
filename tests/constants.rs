use plugin_probe::vst2::{
    Vst2Category, EFF_CLOSE, EFF_GET_EFFECT_NAME, EFF_GET_PLUG_CATEGORY, EFF_GET_PRODUCT_STRING,
    EFF_GET_VENDOR_STRING, EFF_OPEN, HOST_CAN_DO, HOST_GET_PRODUCT_STRING, HOST_GET_VENDOR_STRING,
    HOST_GET_VENDOR_VERSION, HOST_VERSION, STRING_BUFFER_LEN,
};
use plugin_probe::vst3::{S_FALSE, S_OK};
use vst2_sys::plug_category as pc;
use vst2_sys::{effect_opcodes, host_opcodes};

#[test]
fn host_opcodes_match_protocol_table() {
    assert_eq!(HOST_VERSION, host_opcodes::VERSION);
    assert_eq!(HOST_GET_VENDOR_STRING, host_opcodes::GET_VENDOR_STRING);
    assert_eq!(HOST_GET_PRODUCT_STRING, host_opcodes::GET_PRODUCT_STRING);
    assert_eq!(HOST_GET_VENDOR_VERSION, host_opcodes::GET_VENDOR_VERSION);
    assert_eq!(HOST_CAN_DO, host_opcodes::CAN_DO);
}

#[test]
fn effect_opcodes_match_protocol_table() {
    assert_eq!(EFF_OPEN, effect_opcodes::OPEN);
    assert_eq!(EFF_CLOSE, effect_opcodes::CLOSE);
    assert_eq!(EFF_GET_PLUG_CATEGORY, effect_opcodes::GET_PLUG_CATEGORY);
    assert_eq!(EFF_GET_EFFECT_NAME, effect_opcodes::GET_EFFECT_NAME);
    assert_eq!(EFF_GET_VENDOR_STRING, effect_opcodes::GET_VENDOR_STRING);
    assert_eq!(EFF_GET_PRODUCT_STRING, effect_opcodes::GET_PRODUCT_STRING);
    assert_eq!(STRING_BUFFER_LEN, vst2_sys::string_constants::MAX_NAME_LEN);
}

#[test]
fn category_codes_match_protocol_table() {
    let table = [
        (pc::UNKNOWN, Vst2Category::Unknown),
        (pc::EFFECT, Vst2Category::Effect),
        (pc::SYNTH, Vst2Category::Synth),
        (pc::ANALYSIS, Vst2Category::Analysis),
        (pc::MASTERING, Vst2Category::Mastering),
        (pc::SPACIALIZER, Vst2Category::Spacializer),
        (pc::ROOM_FX, Vst2Category::RoomFx),
        (pc::SURROUND_FX, Vst2Category::SurroundFx),
        (pc::RESTORATION, Vst2Category::Restoration),
        (pc::OFFLINE_PROCESS, Vst2Category::OfflineProcess),
        (pc::SHELL, Vst2Category::Shell),
        (pc::GENERATOR, Vst2Category::Generator),
        (pc::MAX_COUNT, Vst2Category::MaxCount),
    ];
    for (code, category) in table {
        assert_eq!(Vst2Category::from_num(code), category);
        assert_eq!(category.to_num(), code);
    }
}

#[test]
fn com_result_codes_match_windows() {
    assert_eq!(S_OK, windows_sys::Win32::Foundation::S_OK);
    assert_eq!(S_FALSE, windows_sys::Win32::Foundation::S_FALSE);
}
