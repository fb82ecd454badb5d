use divviup_android::errors::{Error, UnsupportedAlg};
use divviup_android::hpke::select_hpke_config;
use divviup_android::messages::{HpkeConfig, HpkeConfigList};

fn supported(id: u8) -> HpkeConfig {
    HpkeConfig::new(id, 0x0020, 0x0001, 0x0001, vec![0; 32])
}

#[test]
fn empty_list_is_missing_configs() {
    let r = select_hpke_config(&HpkeConfigList::new(vec![]));
    assert_eq!(r.unwrap_err(), Error::MissingConfigs);
}

#[test]
fn single_supported_config_selected() {
    let r = select_hpke_config(&HpkeConfigList::new(vec![supported(5)])).unwrap();
    assert_eq!(r.id, 5);
}

#[test]
fn first_supported_config_wins() {
    // An entry with an unrecognized KEM, then two supported entries.
    let list = HpkeConfigList::new(vec![
        HpkeConfig::new(1, 0x9999, 0x0001, 0x0001, vec![]),
        supported(5),
        supported(6),
    ]);
    let r = select_hpke_config(&list).unwrap();
    assert_eq!(r.id, 5);
}

#[test]
fn all_unsupported_blames_first_entry() {
    // First entry fails on its AEAD; the later entry would fail on its KEM,
    // but the error reported is the first entry's.
    let list = HpkeConfigList::new(vec![
        HpkeConfig::new(1, 0x0020, 0x0001, 0x9999, vec![]),
        HpkeConfig::new(2, 0x9999, 0x0001, 0x0001, vec![]),
    ]);
    let r = select_hpke_config(&list);
    assert_eq!(r.unwrap_err(), Error::UnsupportedConfig(UnsupportedAlg::Aead));
}

#[test]
fn aead_is_blamed_before_kdf_and_kem() {
    // All three algorithms unrecognized: the AEAD slot is reported.
    let list = HpkeConfigList::new(vec![HpkeConfig::new(1, 0x9999, 0x9999, 0x9999, vec![])]);
    assert_eq!(
        select_hpke_config(&list).unwrap_err(),
        Error::UnsupportedConfig(UnsupportedAlg::Aead)
    );
    // Supported AEAD, unrecognized KDF and KEM: the KDF slot is reported.
    let list = HpkeConfigList::new(vec![HpkeConfig::new(1, 0x9999, 0x9999, 0x0001, vec![])]);
    assert_eq!(
        select_hpke_config(&list).unwrap_err(),
        Error::UnsupportedConfig(UnsupportedAlg::Kdf)
    );
    // Supported AEAD and KDF, unrecognized KEM: the KEM slot is reported.
    let list = HpkeConfigList::new(vec![HpkeConfig::new(1, 0x9999, 0x0001, 0x0001, vec![])]);
    assert_eq!(
        select_hpke_config(&list).unwrap_err(),
        Error::UnsupportedConfig(UnsupportedAlg::Kem)
    );
}
