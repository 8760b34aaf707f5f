use plugin_probe::arch::{
    arch_from_pe_record, detect_arch_in_bytes, pe_header_offset, ArchDetectError, BinaryArch,
};

fn synthetic_image(machine: u16) -> Vec<u8> {
    let mut data = vec![0u8; 0x90];
    data[0] = b'M';
    data[1] = b'Z';
    data[0x3C..0x40].copy_from_slice(&0x80u32.to_le_bytes());
    data[0x80..0x84].copy_from_slice(b"PE\0\0");
    data[0x84..0x86].copy_from_slice(&machine.to_le_bytes());
    data
}

#[test]
fn short_input_is_too_small() {
    assert!(matches!(detect_arch_in_bytes(&[]), Err(ArchDetectError::FileTooSmall)));
    let mut data = vec![0u8; 63];
    data[0] = b'M';
    data[1] = b'Z';
    assert!(matches!(detect_arch_in_bytes(&data), Err(ArchDetectError::FileTooSmall)));
    assert!(matches!(pe_header_offset(&data), Err(ArchDetectError::FileTooSmall)));
}

#[test]
fn missing_dos_magic_is_rejected() {
    let data = vec![0u8; 64];
    assert!(matches!(detect_arch_in_bytes(&data), Err(ArchDetectError::InvalidMZHeader)));
    let mut swapped = synthetic_image(0x014c);
    swapped[0] = b'Z';
    swapped[1] = b'M';
    assert!(matches!(detect_arch_in_bytes(&swapped), Err(ArchDetectError::InvalidMZHeader)));
}

#[test]
fn machine_codes_map_to_architectures() {
    assert!(matches!(detect_arch_in_bytes(&synthetic_image(0x014c)), Ok(BinaryArch::X86)));
    assert!(matches!(detect_arch_in_bytes(&synthetic_image(0x8664)), Ok(BinaryArch::X86_64)));
    assert!(matches!(detect_arch_in_bytes(&synthetic_image(0x9999)), Ok(BinaryArch::Unknown)));
}

#[test]
fn probing_twice_gives_the_same_answer() {
    let data = synthetic_image(0x8664);
    let first = detect_arch_in_bytes(&data).unwrap();
    let second = detect_arch_in_bytes(&data).unwrap();
    assert_eq!(first, second);
}

#[test]
fn pe_offset_is_little_endian() {
    let mut data = vec![0u8; 64];
    data[0] = b'M';
    data[1] = b'Z';
    data[0x3C..0x40].copy_from_slice(&[0x78, 0x56, 0x34, 0x12]);
    assert_eq!(pe_header_offset(&data).unwrap(), 0x1234_5678);
}

#[test]
fn bad_pe_signature_is_rejected() {
    let mut data = synthetic_image(0x014c);
    data[0x81] = b'X';
    assert!(matches!(detect_arch_in_bytes(&data), Err(ArchDetectError::InvalidPESignature)));
}

#[test]
fn pe_record_past_the_end_is_an_io_error() {
    let mut data = synthetic_image(0x014c);
    data.truncate(0x86);
    assert!(matches!(detect_arch_in_bytes(&data), Err(ArchDetectError::IoError(_))));
    let mut far = synthetic_image(0x014c);
    far[0x3C..0x40].copy_from_slice(&0xFFFF_FFF0u32.to_le_bytes());
    assert!(matches!(detect_arch_in_bytes(&far), Err(ArchDetectError::IoError(_))));
}

#[test]
fn pe_record_alone_is_decoded() {
    let record: [u8; 8] = [b'P', b'E', 0, 0, 0x64, 0x86, 0, 0];
    assert!(matches!(arch_from_pe_record(&record), Ok(BinaryArch::X86_64)));
    let record: [u8; 8] = [b'P', b'E', 0, 0, 0x4c, 0x01, 0, 0];
    assert!(matches!(arch_from_pe_record(&record), Ok(BinaryArch::X86)));
    let bad: [u8; 8] = [b'P', b'E', 1, 0, 0x4c, 0x01, 0, 0];
    assert!(matches!(arch_from_pe_record(&bad), Err(ArchDetectError::InvalidPESignature)));
}
