use divviup_android::messages::{encode_input_share_aad, HpkeConfig, HpkeConfigList, Report, TaskId};
use divviup_android::report::prepare_report_prio3count;

use janus_core::hpke::{open, HpkeApplicationInfo, HpkeKeypair, Label};
use janus_messages::{
    HpkeAeadId, HpkeCiphertext as JmHpkeCiphertext, HpkeConfigId, HpkeKdfId, HpkeKemId, Role,
};
use prio::codec::ParameterizedDecode;
use prio::field::Field64;
use prio::vdaf::prio3::{Prio3, Prio3InputShare, Prio3PublicShare};
use prio::vdaf::{Aggregator, Collector, PrepareTransition};

const TIMESTAMP: i64 = 1_700_000_000;

fn generate_keypair(id: u8) -> (HpkeKeypair, HpkeConfig) {
    let keypair = HpkeKeypair::generate(
        HpkeConfigId::from(id),
        HpkeKemId::X25519HkdfSha256,
        HpkeKdfId::HkdfSha256,
        HpkeAeadId::Aes128Gcm,
    )
    .unwrap();
    let cfg = keypair.config();
    let config = HpkeConfig::new(
        id,
        u16::from(*cfg.kem_id()),
        u16::from(*cfg.kdf_id()),
        u16::from(*cfg.aead_id()),
        cfg.public_key().as_ref().to_vec(),
    );
    (keypair, config)
}

fn list_bytes(config: &HpkeConfig) -> Vec<u8> {
    HpkeConfigList::new(vec![config.duplicate()]).get_encoded().unwrap()
}

fn to_jm_ciphertext(ct: &divviup_android::messages::HpkeCiphertext) -> JmHpkeCiphertext {
    JmHpkeCiphertext::new(
        HpkeConfigId::from(ct.config_id),
        ct.encapsulated_key.clone(),
        ct.payload.clone(),
    )
}

/// Strip the plaintext container: an empty extension list, then the input
/// share bytes behind a 4-byte length prefix.
fn plaintext_payload(plaintext: &[u8]) -> Vec<u8> {
    assert_eq!(&plaintext[0..2], &[0, 0]);
    let len = u32::from_be_bytes(plaintext[2..6].try_into().unwrap()) as usize;
    let payload = &plaintext[6..];
    assert_eq!(payload.len(), len);
    payload.to_vec()
}

#[test]
fn count_report_decrypts_and_reconstructs() {
    let (leader_keypair, leader_config) = generate_keypair(1);
    let (helper_keypair, helper_config) = generate_keypair(2);
    let task_id_bytes = vec![0u8; 32];
    let bytes = prepare_report_prio3count(
        &task_id_bytes,
        &list_bytes(&leader_config),
        &list_bytes(&helper_config),
        TIMESTAMP,
        true,
    )
    .unwrap();
    let report = Report::get_decoded(&bytes).unwrap();
    assert_eq!(report.metadata.time, 1_700_000_000);

    // Reconstruct the associated data exactly as the client bound it.
    let task_id = TaskId::parse(&task_id_bytes).unwrap();
    let aad = encode_input_share_aad(&task_id, &report.metadata, &report.public_share).unwrap();

    let leader_info = HpkeApplicationInfo::new(&Label::InputShare, &Role::Client, &Role::Leader);
    let helper_info = HpkeApplicationInfo::new(&Label::InputShare, &Role::Client, &Role::Helper);
    let leader_plaintext = open(
        &leader_keypair,
        &leader_info,
        &to_jm_ciphertext(&report.leader_encrypted_input_share),
        &aad,
    )
    .unwrap();
    let helper_plaintext = open(
        &helper_keypair,
        &helper_info,
        &to_jm_ciphertext(&report.helper_encrypted_input_share),
        &aad,
    )
    .unwrap();
    let leader_share_bytes = plaintext_payload(&leader_plaintext);
    let helper_share_bytes = plaintext_payload(&helper_plaintext);
    assert_ne!(leader_share_bytes, helper_share_bytes);

    // Run the Count scheme's verification to recover the measurement.
    let vdaf = Prio3::new_count(2).unwrap();
    let verify_key = [0u8; 16];
    let nonce: [u8; 16] = report.metadata.report_id.as_bytes().as_slice().try_into().unwrap();
    let public_share =
        Prio3PublicShare::get_decoded_with_param(&vdaf, &report.public_share).unwrap();
    let leader_share = Prio3InputShare::<Field64, 16>::get_decoded_with_param(
        &(&vdaf, 0usize),
        &leader_share_bytes,
    )
    .unwrap();
    let helper_share = Prio3InputShare::<Field64, 16>::get_decoded_with_param(
        &(&vdaf, 1usize),
        &helper_share_bytes,
    )
    .unwrap();
    let (leader_state, leader_prep) = vdaf
        .prepare_init(&verify_key, 0, &(), &nonce, &public_share, &leader_share)
        .unwrap();
    let (helper_state, helper_prep) = vdaf
        .prepare_init(&verify_key, 1, &(), &nonce, &public_share, &helper_share)
        .unwrap();
    let message = vdaf
        .prepare_shares_to_prepare_message(&(), [leader_prep, helper_prep])
        .unwrap();
    let leader_out = match vdaf.prepare_next(leader_state, message.clone()).unwrap() {
        PrepareTransition::Finish(out) => out,
        _ => panic!("count preparation should finish in one round"),
    };
    let helper_out = match vdaf.prepare_next(helper_state, message).unwrap() {
        PrepareTransition::Finish(out) => out,
        _ => panic!("count preparation should finish in one round"),
    };
    let leader_agg = vdaf.aggregate(&(), [leader_out]).unwrap();
    let helper_agg = vdaf.aggregate(&(), [helper_out]).unwrap();
    let result = vdaf.unshard(&(), [leader_agg, helper_agg], 1).unwrap();
    assert_eq!(result, 1);
}

#[test]
fn swapping_recipients_changes_which_key_decrypts() {
    let (leader_keypair, leader_config) = generate_keypair(1);
    let (helper_keypair, helper_config) = generate_keypair(2);
    let task_id_bytes = vec![0u8; 32];
    let bytes = prepare_report_prio3count(
        &task_id_bytes,
        &list_bytes(&leader_config),
        &list_bytes(&helper_config),
        TIMESTAMP,
        true,
    )
    .unwrap();
    let report = Report::get_decoded(&bytes).unwrap();
    let task_id = TaskId::parse(&task_id_bytes).unwrap();
    let aad = encode_input_share_aad(&task_id, &report.metadata, &report.public_share).unwrap();
    let leader_info = HpkeApplicationInfo::new(&Label::InputShare, &Role::Client, &Role::Leader);
    let helper_info = HpkeApplicationInfo::new(&Label::InputShare, &Role::Client, &Role::Helper);

    // The leader ciphertext opens under the leader's private key alone.
    assert!(open(
        &helper_keypair,
        &leader_info,
        &to_jm_ciphertext(&report.leader_encrypted_input_share),
        &aad,
    )
    .is_err());
    // Even the right private key refuses the other recipient's context.
    assert!(open(
        &leader_keypair,
        &helper_info,
        &to_jm_ciphertext(&report.leader_encrypted_input_share),
        &aad,
    )
    .is_err());
    assert!(open(
        &leader_keypair,
        &leader_info,
        &to_jm_ciphertext(&report.leader_encrypted_input_share),
        &aad,
    )
    .is_ok());

    // Swapping the two lists swaps which key each ciphertext is sealed to.
    let swapped = prepare_report_prio3count(
        &task_id_bytes,
        &list_bytes(&helper_config),
        &list_bytes(&leader_config),
        TIMESTAMP,
        true,
    )
    .unwrap();
    let swapped_report = Report::get_decoded(&swapped).unwrap();
    assert_eq!(swapped_report.leader_encrypted_input_share.config_id, 2);
    assert_eq!(swapped_report.helper_encrypted_input_share.config_id, 1);
    let swapped_aad =
        encode_input_share_aad(&task_id, &swapped_report.metadata, &swapped_report.public_share)
            .unwrap();
    assert!(open(
        &helper_keypair,
        &leader_info,
        &to_jm_ciphertext(&swapped_report.leader_encrypted_input_share),
        &swapped_aad,
    )
    .is_ok());
    assert!(open(
        &leader_keypair,
        &leader_info,
        &to_jm_ciphertext(&swapped_report.leader_encrypted_input_share),
        &swapped_aad,
    )
    .is_err());
}
