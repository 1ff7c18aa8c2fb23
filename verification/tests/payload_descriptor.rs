//! The payload configuration descriptor, byte for byte.

use virtualizationservice::dice::{dice_derivation_inputs, format_payload_config_descriptor,
    ApkData, MicrodroidData, PayloadConfig, PayloadMetadata, Subcomponent};

#[test]
fn payload_metadata_with_path_formats_correctly() {
    let payload_metadata = PayloadMetadata::ConfigPath("/config_path".to_string());
    let config_descriptor = format_payload_config_descriptor(&payload_metadata, &[]).unwrap();
    let expected_config_descriptor: Vec<u8> = vec![
        0xa2, 0x3a, 0x00, 0x01, 0x11, 0x71, 0x72, 0x4d, 0x69, 0x63, 0x72, 0x6f, 0x64, 0x72,
        0x6f, 0x69, 0x64, 0x20, 0x70, 0x61, 0x79, 0x6c, 0x6f, 0x61, 0x64, 0x3a, 0x00, 0x01,
        0x15, 0x57, 0x6c, 0x2f, 0x63, 0x6f, 0x6e, 0x66, 0x69, 0x67, 0x5f, 0x70, 0x61, 0x74,
        0x68,
    ];
    assert_eq!(expected_config_descriptor, config_descriptor);
}

#[test]
fn payload_metadata_with_config_formats_correctly() {
    let payload_config = PayloadConfig {
        payload_binary_name: "payload_binary".to_string(),
        ..Default::default()
    };
    let payload_metadata = PayloadMetadata::Config(payload_config);
    let config_descriptor = format_payload_config_descriptor(&payload_metadata, &[]).unwrap();
    let expected_config_descriptor: Vec<u8> = vec![
        0xa2, 0x3a, 0x00, 0x01, 0x11, 0x71, 0x72, 0x4d, 0x69, 0x63, 0x72, 0x6f, 0x64, 0x72,
        0x6f, 0x69, 0x64, 0x20, 0x70, 0x61, 0x79, 0x6c, 0x6f, 0x61, 0x64, 0x3a, 0x00, 0x01,
        0x15, 0x58, 0xa1, 0x01, 0x6e, 0x70, 0x61, 0x79, 0x6c, 0x6f, 0x61, 0x64, 0x5f, 0x62,
        0x69, 0x6e, 0x61, 0x72, 0x79,
    ];
    assert_eq!(expected_config_descriptor, config_descriptor);
}

#[test]
fn payload_metadata_with_subcomponents_formats_correctly() {
    let payload_metadata = PayloadMetadata::ConfigPath("/config_path".to_string());
    let subcomponents = [
        Subcomponent {
            name: "apk1".to_string(),
            version: 1,
            code_hash: vec![42u8],
            authority_hash: vec![17u8],
        },
        Subcomponent {
            name: "apk2".to_string(),
            version: 0x1000_0000_0001,
            code_hash: vec![43u8],
            authority_hash: vec![19u8],
        },
    ];
    let config_descriptor =
        format_payload_config_descriptor(&payload_metadata, &subcomponents).unwrap();
    // Verified using cbor.me.
    let expected_config_descriptor: Vec<u8> = vec![
        0xa3, 0x3a, 0x00, 0x01, 0x11, 0x71, 0x72, 0x4d, 0x69, 0x63, 0x72, 0x6f, 0x64, 0x72,
        0x6f, 0x69, 0x64, 0x20, 0x70, 0x61, 0x79, 0x6c, 0x6f, 0x61, 0x64, 0x3a, 0x00, 0x01,
        0x15, 0x57, 0x6c, 0x2f, 0x63, 0x6f, 0x6e, 0x66, 0x69, 0x67, 0x5f, 0x70, 0x61, 0x74,
        0x68, 0x3a, 0x00, 0x01, 0x15, 0x59, 0x82, 0xa4, 0x01, 0x64, 0x61, 0x70, 0x6b, 0x31,
        0x02, 0x01, 0x03, 0x81, 0x18, 0x2a, 0x04, 0x81, 0x11, 0xa4, 0x01, 0x64, 0x61, 0x70,
        0x6b, 0x32, 0x02, 0x1b, 0x00, 0x00, 0x10, 0x00, 0x00, 0x00, 0x00, 0x01, 0x03, 0x81,
        0x18, 0x2b, 0x04, 0x81, 0x13,
    ];
    assert_eq!(expected_config_descriptor, config_descriptor);
}

fn sample_data(root_hash: &[u8], pubkey: &[u8]) -> MicrodroidData {
    MicrodroidData {
        apk_data: ApkData {
            package_name: "com.test.app".to_string(),
            version_code: 7,
            root_hash: root_hash.to_vec(),
            pubkey: pubkey.to_vec(),
        },
        extra_apks_data: vec![],
        apex_data: vec![],
        salt: vec![1, 2, 3, 4],
    }
}

#[test]
fn derivation_inputs_digest_known_vectors() {
    // SHA-512 of "abc" and of the empty input, from the published
    // test vectors. A digest that merely echoed its input would fail.
    let data = sample_data(b"abc", b"");
    let payload_metadata = PayloadMetadata::ConfigPath("/config_path".to_string());
    let inputs = dice_derivation_inputs(&data, &payload_metadata, false).unwrap();
    let sha512_abc: Vec<u8> = vec![
        0xdd, 0xaf, 0x35, 0xa1, 0x93, 0x61, 0x7a, 0xba, 0xcc, 0x41, 0x73, 0x49, 0xae, 0x20,
        0x41, 0x31, 0x12, 0xe6, 0xfa, 0x4e, 0x89, 0xa9, 0x7e, 0xa2, 0x0a, 0x9e, 0xee, 0xe6,
        0x4b, 0x55, 0xd3, 0x9a, 0x21, 0x92, 0x99, 0x2a, 0x27, 0x4f, 0xc1, 0xa8, 0x36, 0xba,
        0x3c, 0x23, 0xa3, 0xfe, 0xeb, 0xbd, 0x45, 0x4d, 0x44, 0x23, 0x64, 0x3c, 0xe8, 0x0e,
        0x2a, 0x9a, 0xc9, 0x4f, 0xa5, 0x4c, 0xa4, 0x9f,
    ];
    let sha512_empty: Vec<u8> = vec![
        0xcf, 0x83, 0xe1, 0x35, 0x7e, 0xef, 0xb8, 0xbd, 0xf1, 0x54, 0x28, 0x50, 0xd6, 0x6d,
        0x80, 0x07, 0xd6, 0x20, 0xe4, 0x05, 0x0b, 0x57, 0x15, 0xdc, 0x83, 0xf4, 0xa9, 0x21,
        0xd3, 0x6c, 0xe9, 0xce, 0x47, 0xd0, 0xd1, 0x3c, 0x5d, 0x85, 0xf2, 0xb0, 0xff, 0x83,
        0x18, 0xd2, 0x87, 0x7e, 0xec, 0x2f, 0x63, 0xb9, 0x31, 0xbd, 0x47, 0x41, 0x7a, 0x81,
        0xa5, 0x38, 0x32, 0x7a, 0xf9, 0x27, 0xda, 0x3e,
    ];
    assert_eq!(sha512_abc, inputs.code_hash);
    assert_eq!(sha512_empty, inputs.authority_hash);
    assert_eq!(vec![1, 2, 3, 4], inputs.hidden);
}

#[test]
fn subcomponent_list_follows_the_measurement_flag() {
    let data = sample_data(b"abc", b"key");
    let disabled = virtualizationservice::dice::build_subcomponent_list(&data, false);
    assert_eq!(0, disabled.len());
    let enabled = virtualizationservice::dice::build_subcomponent_list(&data, true);
    assert_eq!(1, enabled.len());
    assert_eq!("apk:com.test.app", enabled[0].name);
    assert_eq!(7, enabled[0].version);
    assert_eq!(b"abc".to_vec(), enabled[0].code_hash);
    assert_eq!(64, enabled[0].authority_hash.len());
    assert_ne!(b"key".to_vec(), enabled[0].authority_hash);
}
