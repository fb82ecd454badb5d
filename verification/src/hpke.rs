//! Selection of a recipient's encryption configuration and authenticated
//! sealing of one input share toward that recipient.

use vstd::prelude::*;

use crate::errors::{Error, UnsupportedAlg};
use crate::messages::{
    encode_input_share_aad, encode_plaintext_input_share, HpkeCiphertext, HpkeConfig,
    HpkeConfigList, HpkeConfigV, ReportMetadata, TaskId,
};

use janus_core::hpke::{seal, HpkeApplicationInfo, Label};
use janus_messages::{
    HpkeAeadId, HpkeConfig as JmHpkeConfig, HpkeConfigId, HpkeKdfId, HpkeKemId, HpkePublicKey,
    Role as JmRole,
};

verus! {

/// The recipient of one sealed input share.
#[derive(Clone, Copy, Debug, PartialEq, Eq, Structural)]
pub enum Role {
    Leader,
    Helper,
}

/// AEAD identifiers the sealing backend accepts: AES-128-GCM, AES-256-GCM
/// and ChaCha20Poly1305.
pub open spec fn aead_supported(id: u16) -> bool {
    id == 0x0001 || id == 0x0002 || id == 0x0003
}

/// KDF identifiers the sealing backend accepts: HKDF over SHA-256/384/512
/// and the SHAKE/TurboSHAKE family.
pub open spec fn kdf_supported(id: u16) -> bool {
    id == 0x0001 || id == 0x0002 || id == 0x0003 || id == 0x0010 || id == 0x0011 || id == 0x0012
        || id == 0x0013
}

/// KEM identifiers the sealing backend accepts: the P-256/384/521 and X25519
/// Diffie-Hellman KEMs, ML-KEM-768/1024, and the ML-KEM hybrids.
pub open spec fn kem_supported(id: u16) -> bool {
    id == 0x0010 || id == 0x0011 || id == 0x0012 || id == 0x0020 || id == 0x0041 || id == 0x0042
        || id == 0x0050 || id == 0x0051 || id == 0x647a
}

/// A configuration is usable when all three of its algorithms are.
pub open spec fn config_supported(c: HpkeConfigV) -> bool {
    aead_supported(c.aead_id) && kdf_supported(c.kdf_id) && kem_supported(c.kem_id)
}

/// The slot blamed for an unusable configuration. The slots are tested in
/// the order of the capability check of the HPKE layer: AEAD, then KDF,
/// then KEM.
pub open spec fn unsupported_reason(c: HpkeConfigV) -> UnsupportedAlg {
    if !aead_supported(c.aead_id) {
        UnsupportedAlg::Aead
    } else if !kdf_supported(c.kdf_id) {
        UnsupportedAlg::Kdf
    } else {
        UnsupportedAlg::Kem
    }
}

/// The outcome selection owes on a list: the first supported entry wins; a
/// non-empty list with no supported entry is blamed on its first entry; an
/// empty list is missing its configurations altogether.
pub open spec fn spec_select_hpke_config(l: Seq<HpkeConfigV>) -> Result<HpkeConfigV, Error>
    decreases l.len(),
{
    if l.len() == 0 {
        Err(Error::MissingConfigs)
    } else if config_supported(l[0]) {
        Ok(l[0])
    } else {
        match spec_select_hpke_config(l.skip(1)) {
            Ok(c) => Ok(c),
            Err(_) => Err(Error::UnsupportedConfig(unsupported_reason(l[0]))),
        }
    }
}

/// Check one configuration against the supported algorithm triples. The
/// identifier sets and their order of checking match the capability check
/// of janus_core's `is_hpke_config_supported` with hpke-dispatch's full
/// algorithm set, against which every selected configuration is later
/// sealed.
pub fn is_hpke_config_supported(config: &HpkeConfig) -> (r: Result<(), UnsupportedAlg>)
    ensures
        match r {
            Ok(_) => config_supported(config@),
            Err(a) => !config_supported(config@) && a == unsupported_reason(config@),
        },
{
    let aead_ok: bool = config.aead_id == 0x0001 || config.aead_id == 0x0002 || config.aead_id
        == 0x0003;
    if !aead_ok {
        return Err(UnsupportedAlg::Aead);
    }
    let kdf_ok: bool = config.kdf_id == 0x0001 || config.kdf_id == 0x0002 || config.kdf_id
        == 0x0003 || config.kdf_id == 0x0010 || config.kdf_id == 0x0011 || config.kdf_id
        == 0x0012 || config.kdf_id == 0x0013;
    if !kdf_ok {
        return Err(UnsupportedAlg::Kdf);
    }
    let kem_ok: bool = config.kem_id == 0x0010 || config.kem_id == 0x0011 || config.kem_id
        == 0x0012 || config.kem_id == 0x0020 || config.kem_id == 0x0041 || config.kem_id
        == 0x0042 || config.kem_id == 0x0050 || config.kem_id == 0x0051 || config.kem_id
        == 0x647a;
    if !kem_ok {
        return Err(UnsupportedAlg::Kem);
    }
    Ok(())
}

/// Selection skips a prefix of unsupported entries: the outcome on the whole
/// list is the outcome on the remainder, except that an error is blamed on
/// the first entry of the whole list.
proof fn lemma_spec_select_skip(l: Seq<HpkeConfigV>, i: int)
    requires
        0 <= i <= l.len(),
        forall|k: int| 0 <= k < i ==> !config_supported(#[trigger] l[k]),
    ensures
        spec_select_hpke_config(l.skip(i)) is Ok ==> spec_select_hpke_config(l)
            == spec_select_hpke_config(l.skip(i)),
        spec_select_hpke_config(l.skip(i)) is Err && l.len() > 0 ==> spec_select_hpke_config(l)
            == Err::<HpkeConfigV, Error>(Error::UnsupportedConfig(unsupported_reason(l[0]))),
    decreases i,
{
    if i == 0 {
        assert(l.skip(0) =~= l);
        if l.len() > 0 && spec_select_hpke_config(l) is Err {
            assert(!config_supported(l[0]));
        }
    } else {
        assert(!config_supported(l[0]));
        assert(l.skip(1).skip(i - 1) =~= l.skip(i));
        lemma_spec_select_skip(l.skip(1), i - 1);
    }
}

/// Law: selection in list order — where entry `i` is supported and every
/// earlier entry is not, selection yields entry `i`, whatever follows it.
pub proof fn lemma_select_first_supported(l: Seq<HpkeConfigV>, i: int)
    requires
        0 <= i < l.len(),
        config_supported(l[i]),
        forall|k: int| 0 <= k < i ==> !config_supported(#[trigger] l[k]),
    ensures
        spec_select_hpke_config(l) == Ok::<HpkeConfigV, Error>(l[i]),
{
    lemma_spec_select_skip(l, i);
    assert(l.skip(i)[0] == l[i]);
}

/// Law: a non-empty list none of whose entries is supported is refused with
/// the failing slot of its *first* entry, not of any later one.
pub proof fn lemma_select_none_supported(l: Seq<HpkeConfigV>)
    requires
        l.len() > 0,
        forall|k: int| 0 <= k < l.len() ==> !config_supported(#[trigger] l[k]),
    ensures
        spec_select_hpke_config(l) == Err::<HpkeConfigV, Error>(
            Error::UnsupportedConfig(unsupported_reason(l[0])),
        ),
{
    lemma_spec_select_skip(l, l.len() as int);
    assert(l.skip(l.len() as int) =~= Seq::<HpkeConfigV>::empty());
}

/// Pick the configuration this client will seal toward, from the list one
/// recipient offered: the first entry whose algorithm triple is supported,
/// in list order. An empty list yields `MissingConfigs`; a non-empty list
/// with no supported entry yields `UnsupportedConfig` blaming the first
/// entry's failing slot.
pub fn select_hpke_config(list: &HpkeConfigList) -> (r: Result<HpkeConfig, Error>)
    ensures
        match spec_select_hpke_config(list@) {
            Ok(cv) => r matches Ok(c) && c@ == cv,
            Err(e) => r matches Err(e2) && e2 == e,
        },
{
    let n: usize = list.hpke_configs().len();
    if n == 0 {
        return Err(Error::MissingConfigs);
    }
    let mut i: usize = 0;
    while i < n
        invariant
            0 < n == list@.len(),
            i <= n,
            forall|k: int| 0 <= k < i ==> !config_supported(#[trigger] list@[k]),
        decreases n - i,
    {
        let config = &list.hpke_configs()[i];
        match is_hpke_config_supported(config) {
            Ok(_) => {
                proof {
                    lemma_spec_select_skip(list@, i as int);
                    assert(list@.skip(i as int)[0] == list@[i as int]);
                    assert(spec_select_hpke_config(list@.skip(i as int)) == Ok::<
                        HpkeConfigV,
                        Error,
                    >(list@[i as int]));
                }
                return Ok(config.duplicate());
            },
            Err(_) => {},
        }
        i = i + 1;
    }
    proof {
        lemma_spec_select_skip(list@, n as int);
        assert(list@.skip(n as int) =~= Seq::<HpkeConfigV>::empty());
    }
    match is_hpke_config_supported(&list.hpke_configs()[0]) {
        Ok(_) => {
            proof {
                assert(false);
            }
            Err(Error::MissingConfigs)
        },
        Err(a) => Err(Error::UnsupportedConfig(a)),
    }
}

/// Relies on janus_core's `hpke::seal`: single-shot HPKE base-mode sealing
/// of `plaintext` with associated data `aad` toward the public key of
/// `config`, under the protocol's input-share application info for the
/// given receiver role. On success the encapsulated key and the ciphertext
/// body come back. Sealing draws fresh randomness, so nothing is promised
/// of the outcome.
#[verifier::external_body]
fn hpke_seal(config: &HpkeConfig, receiver: Role, plaintext: &Vec<u8>, aad: &Vec<u8>) -> (r:
    Result<(Vec<u8>, Vec<u8>), ()>)
{
    let cfg = JmHpkeConfig::new(
        HpkeConfigId::from(config.id), HpkeKemId::from(config.kem_id),
        HpkeKdfId::from(config.kdf_id), HpkeAeadId::from(config.aead_id),
        HpkePublicKey::from(config.public_key.clone()));
    let receiver_role = match receiver { Role::Leader => JmRole::Leader, Role::Helper => JmRole::Helper };
    let info = HpkeApplicationInfo::new(&Label::InputShare, &JmRole::Client, &receiver_role);
    match seal(&cfg, &info, plaintext.as_slice(), aad.as_slice()) {
        Ok(ct) => Ok((ct.encapsulated_key().to_vec(), ct.payload().to_vec())),
        Err(_) => Err(()),
    }
}

/// Seal one input share toward its recipient. The plaintext is the share
/// behind the fixed container layout; the associated data binds the
/// ciphertext to the task, the report metadata, and the public share; the
/// returned ciphertext carries the identifier of the configuration it was
/// sealed under, so the two recipients' ciphertexts are never
/// interchangeable.
pub fn encrypt_input_share(
    task_id: &TaskId,
    report_metadata: &ReportMetadata,
    receiver_role: Role,
    hpke_config: &HpkeConfig,
    input_share: Vec<u8>,
    encoded_public_share: Vec<u8>,
) -> (r: Result<HpkeCiphertext, Error>)
    requires
        task_id.wf(),
        report_metadata.wf(),
    ensures
        input_share@.len() > 0xffff_ffff || encoded_public_share@.len() > 0xffff_ffff ==> (
        r matches Err(e) && e == Error::EncodeOverflow),
        input_share@.len() <= 0xffff_ffff && encoded_public_share@.len() <= 0xffff_ffff ==> (
        match r {
            Ok(ct) => ct.config_id == hpke_config.id,
            Err(e) => e == Error::EncryptionFailure,
        }),
{
    let plaintext = match encode_plaintext_input_share(&input_share) {
        Ok(p) => p,
        Err(e) => {
            return Err(e);
        },
    };
    let aad = match encode_input_share_aad(task_id, report_metadata, &encoded_public_share) {
        Ok(a) => a,
        Err(e) => {
            return Err(e);
        },
    };
    match hpke_seal(hpke_config, receiver_role, &plaintext, &aad) {
        Ok((encapsulated_key, payload)) => Ok(
            HpkeCiphertext { config_id: hpke_config.id, encapsulated_key, payload },
        ),
        Err(_) => Err(Error::EncryptionFailure),
    }
}

} // verus!
