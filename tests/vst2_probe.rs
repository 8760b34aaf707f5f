use plugin_probe::vst2::{
    get_string, host_reply, HostReply, Vst2Category, Vst2Info, Vst2Probe, Vst2Query,
};

fn narrow(s: &str) -> Vec<i8> {
    let mut out = vec![0i8; 64];
    for (i, b) in s.bytes().enumerate() {
        out[i] = b as i8;
    }
    out
}

/// Runs a probe against a stub dispatcher that answers each opcode with a
/// result and the text it writes into the buffer.
fn run(stub: &dyn Fn(i32) -> (isize, &'static str)) -> (Vst2Info, Vec<i32>) {
    let mut probe = Vst2Probe::new(1200, 0x4142_4344);
    let mut opcodes = Vec::new();
    while let Some(query) = probe.next_query() {
        opcodes.push(query.opcode());
        let (result, text) = stub(query.opcode());
        if query.wants_buffer() {
            let buffer = narrow(text);
            probe.answer(result, &buffer);
        } else {
            probe.answer(result, &[]);
        }
    }
    (probe.finish(), opcodes)
}

#[test]
fn falsy_name_falls_back_to_product() {
    let (info, opcodes) = run(&|op| match op {
        45 => (0, "Ignored"),
        48 => (1, "Acme Synth"),
        47 => (1, "Acme"),
        35 => (2, ""),
        _ => (0, ""),
    });
    assert_eq!(info.name.as_deref(), Some("Acme Synth"));
    assert_eq!(info.vendor.as_deref(), Some("Acme"));
    assert_eq!(info.category, Vst2Category::Synth);
    assert_eq!(info.category_raw, 2);
    assert_eq!(info.version, 1200);
    assert_eq!(info.unique_id, 0x4142_4344);
    assert_eq!(opcodes, vec![0, 45, 48, 47, 35, 1]);
}

#[test]
fn given_name_skips_product_query() {
    let (info, opcodes) = run(&|op| match op {
        45 => (1, "Delay"),
        48 => (1, "Other"),
        47 => (0, "Acme"),
        35 => (1, ""),
        _ => (0, ""),
    });
    assert_eq!(info.name.as_deref(), Some("Delay"));
    assert_eq!(info.vendor, None);
    assert_eq!(info.category, Vst2Category::Effect);
    assert_eq!(opcodes, vec![0, 45, 47, 35, 1]);
}

#[test]
fn empty_text_counts_as_absent() {
    let (info, _) = run(&|op| match op {
        45 => (1, ""),
        48 => (1, ""),
        47 => (1, ""),
        35 => (77, ""),
        _ => (0, ""),
    });
    assert_eq!(info.name, None);
    assert_eq!(info.vendor, None);
    assert_eq!(info.category, Vst2Category::Unknown);
    assert_eq!(info.category_raw, 77);
}

#[test]
fn probing_same_stub_twice_is_identical() {
    let stub = |op| match op {
        45 => (1, "Reverb"),
        47 => (1, "Acme"),
        35 => (6, ""),
        _ => (0, ""),
    };
    let (a, _) = run(&stub);
    let (b, _) = run(&stub);
    assert_eq!(format!("{:?}", a), format!("{:?}", b));
}

#[test]
fn negative_version_is_reinterpreted_unsigned() {
    let probe = Vst2Probe::new(-1, -2);
    let mut probe = probe;
    while probe.next_query().is_some() {
        probe.answer(0, &[]);
    }
    let info = probe.finish();
    assert_eq!(info.version, u32::MAX);
    assert_eq!(info.unique_id, u32::MAX - 1);
}

#[test]
fn returned_text_is_never_empty() {
    let mut buffer = narrow("");
    buffer[1] = b'x' as i8;
    assert_eq!(get_string(1, &buffer), None);
    let full: Vec<i8> = vec![b'a' as i8; 64];
    assert_eq!(get_string(1, &full).as_deref(), Some("a".repeat(64).as_str()));
}

#[test]
fn string_answer_needs_success_and_text() {
    assert_eq!(get_string(0, &narrow("abc")), None);
    assert_eq!(get_string(1, &narrow("")), None);
    assert_eq!(get_string(-1, &narrow("abc")).as_deref(), Some("abc"));
    assert_eq!(get_string(1, &[]), None);
}

#[test]
fn category_codes_round_trip() {
    for code in 0..=12 {
        assert_eq!(Vst2Category::from_num(code).to_num(), code);
    }
    assert_eq!(Vst2Category::from_num(10), Vst2Category::Shell);
    assert_eq!(Vst2Category::from_num(-1), Vst2Category::Unknown);
    assert_eq!(Vst2Category::from_num(13), Vst2Category::Unknown);
}

#[test]
fn host_answers_fixed_queries() {
    assert_eq!(host_reply(1, false), HostReply::Value(2100));
    assert_eq!(host_reply(34, false), HostReply::Value(1000));
    assert_eq!(host_reply(32, true), HostReply::Text(b"MyHost\0".to_vec()));
    assert_eq!(host_reply(33, true), HostReply::Text(b"MyHostProduct\0".to_vec()));
    assert_eq!(host_reply(32, true).answer(), 1);
    assert_eq!(host_reply(32, false), HostReply::Value(0));
    assert_eq!(host_reply(33, false), HostReply::Value(0));
}

#[test]
fn host_denies_capabilities_and_unknown_opcodes() {
    assert_eq!(host_reply(37, true), HostReply::Value(0));
    assert_eq!(host_reply(37, false).answer(), 0);
    assert_eq!(host_reply(999, true), HostReply::Value(0));
    assert_eq!(host_reply(-5, false), HostReply::Value(0));
}

#[test]
fn queries_carry_their_opcodes() {
    assert_eq!(Vst2Query::Open.opcode(), 0);
    assert_eq!(Vst2Query::Close.opcode(), 1);
    assert!(Vst2Query::VendorString.wants_buffer());
    assert!(!Vst2Query::PlugCategory.wants_buffer());
}
