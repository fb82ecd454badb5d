use divviup_android::errors::Error;
use divviup_android::messages::{
    encode_input_share_aad, encode_plaintext_input_share, HpkeCiphertext, HpkeConfig,
    HpkeConfigList, Report, ReportId, ReportMetadata, TaskId,
};

fn sample_config(id: u8) -> HpkeConfig {
    HpkeConfig::new(id, 0x0020, 0x0001, 0x0001, vec![1, 2, 3, 4])
}

#[test]
fn hpke_config_list_exact_bytes() {
    let list = HpkeConfigList::new(vec![sample_config(7)]);
    let bytes = list.get_encoded().unwrap();
    assert_eq!(
        bytes,
        vec![0x00, 0x0d, 7, 0x00, 0x20, 0x00, 0x01, 0x00, 0x01, 0x00, 0x04, 1, 2, 3, 4]
    );
}

#[test]
fn hpke_config_list_round_trip() {
    let list = HpkeConfigList::new(vec![
        sample_config(7),
        HpkeConfig::new(9, 0x0010, 0x0002, 0x0003, vec![]),
    ]);
    let bytes = list.get_encoded().unwrap();
    let back = HpkeConfigList::get_decoded(&bytes).unwrap();
    assert_eq!(back.hpke_configs().len(), 2);
    let c0 = &back.hpke_configs()[0];
    assert_eq!(c0.id, 7);
    assert_eq!(c0.kem_id, 0x0020);
    assert_eq!(c0.kdf_id, 0x0001);
    assert_eq!(c0.aead_id, 0x0001);
    assert_eq!(c0.public_key, vec![1, 2, 3, 4]);
    let c1 = &back.hpke_configs()[1];
    assert_eq!(c1.id, 9);
    assert_eq!(c1.kem_id, 0x0010);
    assert_eq!(c1.public_key, Vec::<u8>::new());
    assert_eq!(back.get_encoded().unwrap(), bytes);
}

#[test]
fn empty_hpke_config_list_round_trip() {
    let list = HpkeConfigList::new(vec![]);
    let bytes = list.get_encoded().unwrap();
    assert_eq!(bytes, vec![0x00, 0x00]);
    let back = HpkeConfigList::get_decoded(&bytes).unwrap();
    assert_eq!(back.hpke_configs().len(), 0);
}

#[test]
fn hpke_config_list_decode_failures() {
    // Too short for the length prefix.
    assert_eq!(
        HpkeConfigList::get_decoded(&vec![0x00]).unwrap_err(),
        Error::DecodeFailure
    );
    // Prefix claims one more byte than is present.
    assert_eq!(
        HpkeConfigList::get_decoded(&vec![0x00, 0x01]).unwrap_err(),
        Error::DecodeFailure
    );
    // Trailing bytes after the declared body.
    assert_eq!(
        HpkeConfigList::get_decoded(&vec![0x00, 0x00, 0x00]).unwrap_err(),
        Error::DecodeFailure
    );
    // Body too short to hold one configuration record.
    assert_eq!(
        HpkeConfigList::get_decoded(&vec![0x00, 0x01, 0x07]).unwrap_err(),
        Error::DecodeFailure
    );
    // Record's public key length overruns the body.
    assert_eq!(
        HpkeConfigList::get_decoded(&vec![
            0x00, 0x09, 7, 0x00, 0x20, 0x00, 0x01, 0x00, 0x01, 0x00, 0x02
        ])
        .unwrap_err(),
        Error::DecodeFailure
    );
}

#[test]
fn hpke_config_encode_overflow() {
    let config = HpkeConfig::new(1, 0x0020, 0x0001, 0x0001, vec![0u8; 0x1_0000]);
    let mut out = Vec::new();
    assert_eq!(out.len(), 0);
    assert_eq!(config.encode_to(&mut out).unwrap_err(), Error::EncodeOverflow);
    assert_eq!(out.len(), 0);
    let list = HpkeConfigList::new(vec![config]);
    assert_eq!(list.get_encoded().unwrap_err(), Error::EncodeOverflow);
}

#[test]
fn task_id_round_trip() {
    let bytes: Vec<u8> = (0u8..32).collect();
    let task_id = TaskId::parse(&bytes).unwrap();
    assert_eq!(task_id.get_encoded(), bytes);
}

#[test]
fn task_id_wrong_length_rejected() {
    assert_eq!(TaskId::parse(&vec![0u8; 31]).unwrap_err(), Error::DecodeFailure);
    assert_eq!(TaskId::parse(&vec![0u8; 33]).unwrap_err(), Error::DecodeFailure);
    assert_eq!(TaskId::parse(&vec![]).unwrap_err(), Error::DecodeFailure);
}

fn sample_report() -> Report {
    let report_id = ReportId::parse(&(0u8..16).collect()).unwrap();
    Report::new(
        ReportMetadata { report_id, time: 1_700_000_000 },
        vec![0xaa, 0xbb],
        HpkeCiphertext {
            config_id: 3,
            encapsulated_key: vec![1, 2],
            payload: vec![3, 4, 5],
        },
        HpkeCiphertext {
            config_id: 4,
            encapsulated_key: vec![6],
            payload: vec![7, 8],
        },
    )
}

#[test]
fn report_exact_bytes() {
    let bytes = sample_report().get_encoded().unwrap();
    let mut expected: Vec<u8> = (0u8..16).collect();
    expected.extend_from_slice(&1_700_000_000u64.to_be_bytes());
    expected.extend_from_slice(&[0, 0, 0, 2, 0xaa, 0xbb]);
    expected.extend_from_slice(&[3, 0, 2, 1, 2, 0, 0, 0, 3, 3, 4, 5]);
    expected.extend_from_slice(&[4, 0, 1, 6, 0, 0, 0, 2, 7, 8]);
    assert_eq!(bytes, expected);
}

#[test]
fn report_round_trip() {
    let report = sample_report();
    let bytes = report.get_encoded().unwrap();
    let back = Report::get_decoded(&bytes).unwrap();
    assert_eq!(back.metadata.report_id.as_bytes(), report.metadata.report_id.as_bytes());
    assert_eq!(back.metadata.time, 1_700_000_000);
    assert_eq!(back.public_share, vec![0xaa, 0xbb]);
    assert_eq!(back.leader_encrypted_input_share.config_id, 3);
    assert_eq!(back.leader_encrypted_input_share.encapsulated_key, vec![1, 2]);
    assert_eq!(back.leader_encrypted_input_share.payload, vec![3, 4, 5]);
    assert_eq!(back.helper_encrypted_input_share.config_id, 4);
    assert_eq!(back.helper_encrypted_input_share.encapsulated_key, vec![6]);
    assert_eq!(back.helper_encrypted_input_share.payload, vec![7, 8]);
    assert_eq!(back.get_encoded().unwrap(), bytes);
}

#[test]
fn report_decode_failures() {
    let bytes = sample_report().get_encoded().unwrap();
    // Truncations at every length never panic and always fail cleanly.
    for cut in 0..bytes.len() {
        let truncated: Vec<u8> = bytes[..cut].to_vec();
        assert_eq!(Report::get_decoded(&truncated).unwrap_err(), Error::DecodeFailure);
    }
    // Trailing garbage is refused.
    let mut extended = bytes.clone();
    extended.push(0);
    assert_eq!(Report::get_decoded(&extended).unwrap_err(), Error::DecodeFailure);
}

#[test]
fn plaintext_input_share_exact_bytes() {
    let bytes = encode_plaintext_input_share(&vec![9, 9]).unwrap();
    assert_eq!(bytes, vec![0, 0, 0, 0, 0, 2, 9, 9]);
}

#[test]
fn input_share_aad_exact_bytes() {
    let task_id = TaskId::parse(&vec![0u8; 32]).unwrap();
    let report_id = ReportId::parse(&vec![1u8; 16]).unwrap();
    let metadata = ReportMetadata { report_id, time: 2 };
    let aad = encode_input_share_aad(&task_id, &metadata, &vec![0xcc]).unwrap();
    let mut expected = vec![0u8; 32];
    expected.extend_from_slice(&[1u8; 16]);
    expected.extend_from_slice(&2u64.to_be_bytes());
    expected.extend_from_slice(&[0, 0, 0, 1, 0xcc]);
    assert_eq!(aad, expected);
}
