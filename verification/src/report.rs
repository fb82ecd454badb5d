//! The report-preparation pipeline: shard the measurement, pick one
//! configuration per recipient, seal each input share, and assemble the
//! encoded report.

use vstd::prelude::*;

use crate::codec::copy_range;
use crate::errors::Error;
use crate::hpke::{
    encrypt_input_share, select_hpke_config, spec_select_hpke_config, Role,
};
use crate::messages::{
    parse_hpke_config_list, report_wire, HpkeConfigList, HpkeConfigV, Report, ReportId,
    ReportMetadata, ReportV, TaskId, REPORT_ID_LEN, TASK_ID_LEN,
};
use crate::vdaf::{
    histogram_params_ok, shard_count, shard_histogram, shard_sum, shard_sum_vec, sum_params_ok,
    sum_vec_params_ok, EncodedShares,
};

verus! {

/// Relies on rand's `random` drawing from the process-wide cryptographically
/// secure generator: 16 fresh bytes for a report identifier. The length is
/// that of the drawn array; nothing is promised of the values.
#[verifier::external_body]
fn random_report_id_bytes() -> (r: Vec<u8>)
    ensures
        r@.len() == REPORT_ID_LEN,
{
    rand::random::<[u8; 16]>().to_vec()
}

/// Draw a fresh report identifier.
fn generate_report_id() -> (r: ReportId)
    ensures
        r.wf(),
{
    ReportId::from_bytes(random_report_id_bytes())
}

/// The configurations a recipient's list decodes to; meaningful only where
/// the list parses.
pub open spec fn decoded_configs(b: Seq<u8>) -> Seq<HpkeConfigV> {
    parse_hpke_config_list(b)->Some_0
}

/// The identifier of the configuration selection owes on a recipient's
/// list; meaningful only where decoding and selection succeed.
pub open spec fn selected_config_id(b: Seq<u8>) -> u8 {
    spec_select_hpke_config(decoded_configs(b))->Ok_0.id
}

/// The error the deterministic prefix of assembly owes: a malformed task
/// identifier or configuration list, a failed selection, or a negative
/// timestamp — in the order the pipeline checks them. `None` means assembly
/// reaches the sealing step.
pub open spec fn assemble_error(
    task_id_bytes: Seq<u8>,
    leader_bytes: Seq<u8>,
    helper_bytes: Seq<u8>,
    timestamp: i64,
) -> Option<Error> {
    if task_id_bytes.len() != TASK_ID_LEN {
        Some(Error::DecodeFailure)
    } else if parse_hpke_config_list(leader_bytes) is None {
        Some(Error::DecodeFailure)
    } else if parse_hpke_config_list(helper_bytes) is None {
        Some(Error::DecodeFailure)
    } else if spec_select_hpke_config(decoded_configs(leader_bytes)) is Err {
        Some(spec_select_hpke_config(decoded_configs(leader_bytes))->Err_0)
    } else if spec_select_hpke_config(decoded_configs(helper_bytes)) is Err {
        Some(spec_select_hpke_config(decoded_configs(helper_bytes))->Err_0)
    } else if timestamp < 0 {
        Some(Error::InvalidParameter)
    } else {
        Option::None
    }
}

/// Construct and encode a report from the encoded shares and the other
/// caller inputs: decode the task identifier and both configuration lists,
/// select one configuration per recipient, seal each input share toward its
/// recipient — the leader ciphertext always under the leader's selected
/// configuration, the helper ciphertext under the helper's — and encode
/// metadata, public share and the two ciphertexts in fixed order.
pub fn assemble_report(
    task_id_bytes: &Vec<u8>,
    leader_bytes: &Vec<u8>,
    helper_bytes: &Vec<u8>,
    timestamp: i64,
    report_id: ReportId,
    encoded_public_share: Vec<u8>,
    encoded_leader_input_share: Vec<u8>,
    encoded_helper_input_share: Vec<u8>,
) -> (r: Result<Vec<u8>, Error>)
    requires
        report_id.wf(),
    ensures
        assemble_error(task_id_bytes@, leader_bytes@, helper_bytes@, timestamp) matches Some(e)
            ==> (r matches Err(e2) && e2 == e),
        assemble_error(task_id_bytes@, leader_bytes@, helper_bytes@, timestamp) is None ==> (
        r is Ok || (r matches Err(e) && (e == Error::EncryptionFailure || e
            == Error::EncodeOverflow))),
        r matches Ok(bytes) ==> {
            &&& assemble_error(task_id_bytes@, leader_bytes@, helper_bytes@, timestamp) is None
            &&& exists|rep: ReportV|
                {
                    &&& bytes@ == #[trigger] report_wire(rep)
                    &&& rep.metadata.report_id == report_id@
                    &&& rep.metadata.time == timestamp as u64
                    &&& rep.public_share == encoded_public_share@
                    &&& rep.leader_encrypted_input_share.config_id == selected_config_id(
                        leader_bytes@,
                    )
                    &&& rep.helper_encrypted_input_share.config_id == selected_config_id(
                        helper_bytes@,
                    )
                }
        },
{
    let ghost rid = report_id@;
    let task_id = match TaskId::parse(task_id_bytes) {
        Ok(t) => t,
        Err(e) => {
            return Err(e);
        },
    };
    let leader_config_list = match HpkeConfigList::get_decoded(leader_bytes) {
        Ok(l) => l,
        Err(e) => {
            return Err(e);
        },
    };
    let helper_config_list = match HpkeConfigList::get_decoded(helper_bytes) {
        Ok(l) => l,
        Err(e) => {
            return Err(e);
        },
    };
    let leader_hpke_config = match select_hpke_config(&leader_config_list) {
        Ok(c) => c,
        Err(e) => {
            return Err(e);
        },
    };
    let helper_hpke_config = match select_hpke_config(&helper_config_list) {
        Ok(c) => c,
        Err(e) => {
            return Err(e);
        },
    };
    if timestamp < 0 {
        return Err(Error::InvalidParameter);
    }
    let time: u64 = timestamp as u64;
    let report_metadata = ReportMetadata { report_id, time };
    let leader_encrypted_input_share = match encrypt_input_share(
        &task_id,
        &report_metadata,
        Role::Leader,
        &leader_hpke_config,
        encoded_leader_input_share,
        copy_range(&encoded_public_share, 0, encoded_public_share.len()),
    ) {
        Ok(ct) => ct,
        Err(e) => {
            return Err(e);
        },
    };
    let helper_encrypted_input_share = match encrypt_input_share(
        &task_id,
        &report_metadata,
        Role::Helper,
        &helper_hpke_config,
        encoded_helper_input_share,
        copy_range(&encoded_public_share, 0, encoded_public_share.len()),
    ) {
        Ok(ct) => ct,
        Err(e) => {
            return Err(e);
        },
    };
    let report = Report::new(
        report_metadata,
        encoded_public_share,
        leader_encrypted_input_share,
        helper_encrypted_input_share,
    );
    match report.get_encoded() {
        Ok(bytes) => {
            proof {
                assert(report@.metadata.report_id == rid);
                assert(bytes@ == report_wire(report@));
            }
            Ok(bytes)
        },
        Err(e) => Err(e),
    }
}

/// Prepare a report for a boolean measurement under the Count scheme.
pub fn prepare_report_prio3count(
    task_id_bytes: &Vec<u8>,
    leader_bytes: &Vec<u8>,
    helper_bytes: &Vec<u8>,
    timestamp: i64,
    measurement: bool,
) -> (r: Result<Vec<u8>, Error>)
    ensures
        assemble_error(task_id_bytes@, leader_bytes@, helper_bytes@, timestamp) matches Some(e)
            ==> (r matches Err(e2) && (e2 == e || e2 == Error::Vdaf)),
        assemble_error(task_id_bytes@, leader_bytes@, helper_bytes@, timestamp) is None ==> (
        r is Ok || (r matches Err(e) && (e == Error::Vdaf || e == Error::EncryptionFailure || e
            == Error::EncodeOverflow))),
        r matches Ok(bytes) ==> {
            &&& assemble_error(task_id_bytes@, leader_bytes@, helper_bytes@, timestamp) is None
            &&& exists|rep: ReportV|
                {
                    &&& bytes@ == #[trigger] report_wire(rep)
                    &&& rep.metadata.time == timestamp as u64
                    &&& rep.leader_encrypted_input_share.config_id == selected_config_id(
                        leader_bytes@,
                    )
                    &&& rep.helper_encrypted_input_share.config_id == selected_config_id(
                        helper_bytes@,
                    )
                }
        },
{
    let report_id = generate_report_id();
    let shares = match shard_count(measurement, report_id.as_bytes()) {
        Ok(s) => s,
        Err(e) => {
            return Err(e);
        },
    };
    finish_report(task_id_bytes, leader_bytes, helper_bytes, timestamp, report_id, shares)
}

/// Prepare a report for an integer measurement under the Sum scheme with
/// the given bit width.
pub fn prepare_report_prio3sum(
    task_id_bytes: &Vec<u8>,
    leader_bytes: &Vec<u8>,
    helper_bytes: &Vec<u8>,
    timestamp: i64,
    bits: i64,
    measurement: i64,
) -> (r: Result<Vec<u8>, Error>)
    ensures
        !sum_params_ok(bits, measurement) ==> (r matches Err(e) && e == Error::InvalidParameter),
        sum_params_ok(bits, measurement) ==> (assemble_error(
            task_id_bytes@,
            leader_bytes@,
            helper_bytes@,
            timestamp,
        ) matches Some(e) ==> (r matches Err(e2) && (e2 == e || e2 == Error::Vdaf))),
        sum_params_ok(bits, measurement) && (assemble_error(
            task_id_bytes@,
            leader_bytes@,
            helper_bytes@,
            timestamp,
        ) is None) ==> (r is Ok || (r matches Err(e) && (e == Error::Vdaf || e
            == Error::EncryptionFailure || e == Error::EncodeOverflow))),
        r matches Ok(bytes) ==> {
            &&& sum_params_ok(bits, measurement)
            &&& assemble_error(task_id_bytes@, leader_bytes@, helper_bytes@, timestamp) is None
            &&& exists|rep: ReportV|
                {
                    &&& bytes@ == #[trigger] report_wire(rep)
                    &&& rep.metadata.time == timestamp as u64
                    &&& rep.leader_encrypted_input_share.config_id == selected_config_id(
                        leader_bytes@,
                    )
                    &&& rep.helper_encrypted_input_share.config_id == selected_config_id(
                        helper_bytes@,
                    )
                }
        },
{
    let report_id = generate_report_id();
    let shares = match shard_sum(bits, measurement, report_id.as_bytes()) {
        Ok(s) => s,
        Err(e) => {
            return Err(e);
        },
    };
    finish_report(task_id_bytes, leader_bytes, helper_bytes, timestamp, report_id, shares)
}

/// Prepare a report for a vector measurement under the SumVec scheme with
/// the given length, per-element bit width, and chunk length.
pub fn prepare_report_prio3sumvec(
    task_id_bytes: &Vec<u8>,
    leader_bytes: &Vec<u8>,
    helper_bytes: &Vec<u8>,
    timestamp: i64,
    length: i64,
    bits: i64,
    chunk_length: i64,
    measurement: &Vec<i64>,
) -> (r: Result<Vec<u8>, Error>)
    ensures
        !sum_vec_params_ok(bits, length, chunk_length, measurement@) ==> (r matches Err(e) && e
            == Error::InvalidParameter),
        sum_vec_params_ok(bits, length, chunk_length, measurement@) ==> (assemble_error(
            task_id_bytes@,
            leader_bytes@,
            helper_bytes@,
            timestamp,
        ) matches Some(e) ==> (r matches Err(e2) && (e2 == e || e2 == Error::Vdaf))),
        sum_vec_params_ok(bits, length, chunk_length, measurement@) && (assemble_error(
            task_id_bytes@,
            leader_bytes@,
            helper_bytes@,
            timestamp,
        ) is None) ==> (r is Ok || (r matches Err(e) && (e == Error::Vdaf || e
            == Error::EncryptionFailure || e == Error::EncodeOverflow))),
        r matches Ok(bytes) ==> {
            &&& sum_vec_params_ok(bits, length, chunk_length, measurement@)
            &&& assemble_error(task_id_bytes@, leader_bytes@, helper_bytes@, timestamp) is None
            &&& exists|rep: ReportV|
                {
                    &&& bytes@ == #[trigger] report_wire(rep)
                    &&& rep.metadata.time == timestamp as u64
                    &&& rep.leader_encrypted_input_share.config_id == selected_config_id(
                        leader_bytes@,
                    )
                    &&& rep.helper_encrypted_input_share.config_id == selected_config_id(
                        helper_bytes@,
                    )
                }
        },
{
    let report_id = generate_report_id();
    let shares = match shard_sum_vec(
        bits,
        length,
        chunk_length,
        measurement,
        report_id.as_bytes(),
    ) {
        Ok(s) => s,
        Err(e) => {
            return Err(e);
        },
    };
    finish_report(task_id_bytes, leader_bytes, helper_bytes, timestamp, report_id, shares)
}

/// Prepare a report for a bucket index under the Histogram scheme with the
/// given bucket count and chunk length.
pub fn prepare_report_prio3histogram(
    task_id_bytes: &Vec<u8>,
    leader_bytes: &Vec<u8>,
    helper_bytes: &Vec<u8>,
    timestamp: i64,
    length: i64,
    chunk_length: i64,
    measurement: i64,
) -> (r: Result<Vec<u8>, Error>)
    ensures
        !histogram_params_ok(length, chunk_length, measurement) ==> (r matches Err(e) && e
            == Error::InvalidParameter),
        histogram_params_ok(length, chunk_length, measurement) ==> (assemble_error(
            task_id_bytes@,
            leader_bytes@,
            helper_bytes@,
            timestamp,
        ) matches Some(e) ==> (r matches Err(e2) && (e2 == e || e2 == Error::Vdaf))),
        histogram_params_ok(length, chunk_length, measurement) && (assemble_error(
            task_id_bytes@,
            leader_bytes@,
            helper_bytes@,
            timestamp,
        ) is None) ==> (r is Ok || (r matches Err(e) && (e == Error::Vdaf || e
            == Error::EncryptionFailure || e == Error::EncodeOverflow))),
        r matches Ok(bytes) ==> {
            &&& histogram_params_ok(length, chunk_length, measurement)
            &&& assemble_error(task_id_bytes@, leader_bytes@, helper_bytes@, timestamp) is None
            &&& exists|rep: ReportV|
                {
                    &&& bytes@ == #[trigger] report_wire(rep)
                    &&& rep.metadata.time == timestamp as u64
                    &&& rep.leader_encrypted_input_share.config_id == selected_config_id(
                        leader_bytes@,
                    )
                    &&& rep.helper_encrypted_input_share.config_id == selected_config_id(
                        helper_bytes@,
                    )
                }
        },
{
    let report_id = generate_report_id();
    let shares = match shard_histogram(
        length,
        chunk_length,
        measurement,
        report_id.as_bytes(),
    ) {
        Ok(s) => s,
        Err(e) => {
            return Err(e);
        },
    };
    finish_report(task_id_bytes, leader_bytes, helper_bytes, timestamp, report_id, shares)
}

/// Shared tail of the four schemes: assemble and encode the report from the
/// freshly drawn identifier and the encoded shares.
fn finish_report(
    task_id_bytes: &Vec<u8>,
    leader_bytes: &Vec<u8>,
    helper_bytes: &Vec<u8>,
    timestamp: i64,
    report_id: ReportId,
    shares: EncodedShares,
) -> (r: Result<Vec<u8>, Error>)
    requires
        report_id.wf(),
    ensures
        assemble_error(task_id_bytes@, leader_bytes@, helper_bytes@, timestamp) matches Some(e)
            ==> (r matches Err(e2) && e2 == e),
        assemble_error(task_id_bytes@, leader_bytes@, helper_bytes@, timestamp) is None ==> (
        r is Ok || (r matches Err(e) && (e == Error::EncryptionFailure || e
            == Error::EncodeOverflow))),
        r matches Ok(bytes) ==> {
            &&& assemble_error(task_id_bytes@, leader_bytes@, helper_bytes@, timestamp) is None
            &&& exists|rep: ReportV|
                {
                    &&& bytes@ == #[trigger] report_wire(rep)
                    &&& rep.metadata.time == timestamp as u64
                    &&& rep.leader_encrypted_input_share.config_id == selected_config_id(
                        leader_bytes@,
                    )
                    &&& rep.helper_encrypted_input_share.config_id == selected_config_id(
                        helper_bytes@,
                    )
                }
        },
{
    let EncodedShares { public_share, leader_input_share, helper_input_share } = shares;
    assemble_report(
        task_id_bytes,
        leader_bytes,
        helper_bytes,
        timestamp,
        report_id,
        public_share,
        leader_input_share,
        helper_input_share,
    )
}

} // verus!
