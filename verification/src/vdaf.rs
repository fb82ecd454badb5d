//! Sharding of a measurement into one public share and two input shares,
//! one generic call per secret-sharing scheme, and the numeric conversions
//! in front of it.

use vstd::prelude::*;

use crate::errors::Error;
use crate::messages::REPORT_ID_LEN;

use prio::codec::Encode;
use prio::vdaf::prio3::Prio3;
use prio::vdaf::Client;

verus! {

/// The encoded shares one sharding call produces: the public share and the
/// two recipient input shares, leader's first.
pub struct EncodedShares {
    pub public_share: Vec<u8>,
    pub leader_input_share: Vec<u8>,
    pub helper_input_share: Vec<u8>,
}

/// Relies on prio's `Prio3::new_count` and `Client::shard` (two
/// aggregators): shards a boolean measurement under the given report
/// identifier as nonce, and encodes the public share and the two input
/// shares with prio's codec. Sharding draws fresh randomness, so nothing is
/// promised of the outcome.
#[verifier::external_body]
fn prio3_count_shard(measurement: bool, report_id: &Vec<u8>) -> (r: Result<EncodedShares, ()>)
    requires
        report_id@.len() == REPORT_ID_LEN,
{
    let nonce: [u8; 16] = match report_id.as_slice().try_into() { Ok(n) => n, Err(_) => return Err(()) };
    let vdaf = match Prio3::new_count(2) { Ok(v) => v, Err(_) => return Err(()) };
    let (ps, shares) = match vdaf.shard(&measurement, &nonce) { Ok(t) => t, Err(_) => return Err(()) };
    match (ps.get_encoded(), shares[0].get_encoded(), shares[1].get_encoded()) {
        (Ok(p), Ok(a), Ok(b)) =>
            Ok(EncodedShares { public_share: p, leader_input_share: a, helper_input_share: b }),
        _ => Err(()),
    }
}

/// Relies on prio's `Prio3::new_sum` and `Client::shard` (two aggregators,
/// the given bit width): shards an unsigned integer measurement under the
/// given report identifier as nonce, and encodes the shares with prio's
/// codec. Construction fails for an unusable bit width, and sharding draws
/// fresh randomness, so nothing is promised of the outcome.
#[verifier::external_body]
fn prio3_sum_shard(bits: usize, measurement: u128, report_id: &Vec<u8>) -> (r: Result<
    EncodedShares,
    (),
>)
    requires
        report_id@.len() == REPORT_ID_LEN,
{
    let nonce: [u8; 16] = match report_id.as_slice().try_into() { Ok(n) => n, Err(_) => return Err(()) };
    let vdaf = match Prio3::new_sum(2, bits) { Ok(v) => v, Err(_) => return Err(()) };
    let (ps, shares) = match vdaf.shard(&measurement, &nonce) { Ok(t) => t, Err(_) => return Err(()) };
    match (ps.get_encoded(), shares[0].get_encoded(), shares[1].get_encoded()) {
        (Ok(p), Ok(a), Ok(b)) =>
            Ok(EncodedShares { public_share: p, leader_input_share: a, helper_input_share: b }),
        _ => Err(()),
    }
}

/// Relies on prio's `Prio3::new_sum_vec` and `Client::shard` (two
/// aggregators, the given per-element bit width, vector length and chunk
/// length): shards a vector measurement under the given report identifier
/// as nonce, and encodes the shares with prio's codec. Construction fails
/// for inconsistent parameters, and sharding draws fresh randomness, so
/// nothing is promised of the outcome.
#[verifier::external_body]
fn prio3_sum_vec_shard(
    bits: usize,
    length: usize,
    chunk_length: usize,
    measurement: &Vec<u128>,
    report_id: &Vec<u8>,
) -> (r: Result<EncodedShares, ()>)
    requires
        report_id@.len() == REPORT_ID_LEN,
{
    let nonce: [u8; 16] = match report_id.as_slice().try_into() { Ok(n) => n, Err(_) => return Err(()) };
    let vdaf = match Prio3::new_sum_vec(2, bits, length, chunk_length) { Ok(v) => v, Err(_) => return Err(()) };
    let (ps, shares) = match vdaf.shard(measurement, &nonce) { Ok(t) => t, Err(_) => return Err(()) };
    match (ps.get_encoded(), shares[0].get_encoded(), shares[1].get_encoded()) {
        (Ok(p), Ok(a), Ok(b)) =>
            Ok(EncodedShares { public_share: p, leader_input_share: a, helper_input_share: b }),
        _ => Err(()),
    }
}

/// Relies on prio's `Prio3::new_histogram` and `Client::shard` (two
/// aggregators, the given bucket count and chunk length): shards a bucket
/// index under the given report identifier as nonce, and encodes the shares
/// with prio's codec. Construction fails for inconsistent parameters, and
/// sharding draws fresh randomness, so nothing is promised of the outcome.
#[verifier::external_body]
fn prio3_histogram_shard(
    length: usize,
    chunk_length: usize,
    measurement: usize,
    report_id: &Vec<u8>,
) -> (r: Result<EncodedShares, ()>)
    requires
        report_id@.len() == REPORT_ID_LEN,
{
    let nonce: [u8; 16] = match report_id.as_slice().try_into() { Ok(n) => n, Err(_) => return Err(()) };
    let vdaf = match Prio3::new_histogram(2, length, chunk_length) { Ok(v) => v, Err(_) => return Err(()) };
    let (ps, shares) = match vdaf.shard(&measurement, &nonce) { Ok(t) => t, Err(_) => return Err(()) };
    match (ps.get_encoded(), shares[0].get_encoded(), shares[1].get_encoded()) {
        (Ok(p), Ok(a), Ok(b)) =>
            Ok(EncodedShares { public_share: p, leader_input_share: a, helper_input_share: b }),
        _ => Err(()),
    }
}

/// Shard a boolean measurement with the Count scheme.
pub fn shard_count(measurement: bool, report_id: &Vec<u8>) -> (r: Result<EncodedShares, Error>)
    requires
        report_id@.len() == REPORT_ID_LEN,
    ensures
        r matches Err(e) ==> e == Error::Vdaf,
{
    match prio3_count_shard(measurement, report_id) {
        Ok(shares) => Ok(shares),
        Err(_) => Err(Error::Vdaf),
    }
}

/// A caller-supplied signed value converts to the scheme's parameter type
/// exactly when it is non-negative and fits the machine's word.
pub open spec fn fits_usize(x: i64) -> bool {
    0 <= x && x as u64 <= usize::MAX as u64
}

/// A non-negative sum measurement is within range of a bit width below 64
/// exactly when it is below two to that width; wider widths admit every
/// non-negative value.
pub open spec fn sum_measurement_in_range(bits: i64, measurement: i64) -> bool {
    bits >= 64 || (measurement as u64) < (1u64 << (bits as u64))
}

/// Every sum parameter check passes: the bit width converts, and the
/// measurement is a non-negative value within range of the width.
pub open spec fn sum_params_ok(bits: i64, measurement: i64) -> bool {
    fits_usize(bits) && measurement >= 0 && sum_measurement_in_range(bits, measurement)
}

/// Shard an integer measurement with the Sum scheme, after checking that
/// the parameters convert and the measurement is within range of the bit
/// width.
pub fn shard_sum(bits: i64, measurement: i64, report_id: &Vec<u8>) -> (r: Result<
    EncodedShares,
    Error,
>)
    requires
        report_id@.len() == REPORT_ID_LEN,
    ensures
        !sum_params_ok(bits, measurement) ==> (r matches Err(e) && e == Error::InvalidParameter),
        sum_params_ok(bits, measurement) ==> (r matches Err(e) ==> e == Error::Vdaf),
{
    if bits < 0 {
        return Err(Error::InvalidParameter);
    }
    if (bits as u64) > (usize::MAX as u64) {
        return Err(Error::InvalidParameter);
    }
    if measurement < 0 {
        return Err(Error::InvalidParameter);
    }
    if bits < 64 {
        let limit: u64 = 1u64 << (bits as u64);
        if (measurement as u64) >= limit {
            return Err(Error::InvalidParameter);
        }
    }
    match prio3_sum_shard(bits as usize, measurement as u128, report_id) {
        Ok(shares) => Ok(shares),
        Err(_) => Err(Error::Vdaf),
    }
}

/// Every vector-sum parameter check passes: the three parameters convert,
/// the measurement has exactly the declared length, and every element is a
/// non-negative value within range of the bit width.
pub open spec fn sum_vec_params_ok(
    bits: i64,
    length: i64,
    chunk_length: i64,
    measurement: Seq<i64>,
) -> bool {
    &&& fits_usize(bits)
    &&& fits_usize(length)
    &&& fits_usize(chunk_length)
    &&& measurement.len() == length
    &&& forall|i: int| 0 <= i < measurement.len() ==> #[trigger] measurement[i] >= 0
    &&& forall|i: int|
        0 <= i < measurement.len() ==> sum_measurement_in_range(bits, #[trigger] measurement[i])
}

/// Shard a vector measurement with the SumVec scheme, after checking that
/// the parameters convert, the vector has the declared length, and every
/// element is within range of the bit width.
pub fn shard_sum_vec(
    bits: i64,
    length: i64,
    chunk_length: i64,
    measurement: &Vec<i64>,
    report_id: &Vec<u8>,
) -> (r: Result<EncodedShares, Error>)
    requires
        report_id@.len() == REPORT_ID_LEN,
    ensures
        !sum_vec_params_ok(bits, length, chunk_length, measurement@) ==> (r matches Err(e) && e
            == Error::InvalidParameter),
        sum_vec_params_ok(bits, length, chunk_length, measurement@) ==> (r matches Err(e) ==> e
            == Error::Vdaf),
{
    if bits < 0 || (bits as u64) > (usize::MAX as u64) {
        return Err(Error::InvalidParameter);
    }
    if length < 0 || (length as u64) > (usize::MAX as u64) {
        return Err(Error::InvalidParameter);
    }
    if chunk_length < 0 || (chunk_length as u64) > (usize::MAX as u64) {
        return Err(Error::InvalidParameter);
    }
    let n: usize = measurement.len();
    if (n as u64) != (length as u64) {
        return Err(Error::InvalidParameter);
    }
    let mut converted: Vec<u128> = Vec::new();
    let mut i: usize = 0;
    while i < n
        invariant
            0 <= bits,
            i <= n == measurement@.len(),
            converted@.len() == i,
            forall|k: int| 0 <= k < i ==> #[trigger] measurement@[k] >= 0,
            forall|k: int|
                0 <= k < i ==> sum_measurement_in_range(bits, #[trigger] measurement@[k]),
            forall|k: int| 0 <= k < i ==> converted@[k] == measurement@[k] as u128,
        decreases n - i,
    {
        let element: i64 = measurement[i];
        if element < 0 {
            return Err(Error::InvalidParameter);
        }
        if bits < 64 {
            let limit: u64 = 1u64 << (bits as u64);
            if (element as u64) >= limit {
                return Err(Error::InvalidParameter);
            }
        }
        converted.push(element as u128);
        i = i + 1;
    }
    match prio3_sum_vec_shard(
        bits as usize,
        length as usize,
        chunk_length as usize,
        &converted,
        report_id,
    ) {
        Ok(shares) => Ok(shares),
        Err(_) => Err(Error::Vdaf),
    }
}

/// Every histogram parameter check passes: the two parameters convert, and
/// the bucket index is a non-negative value below the bucket count.
pub open spec fn histogram_params_ok(length: i64, chunk_length: i64, measurement: i64) -> bool {
    fits_usize(length) && fits_usize(chunk_length) && 0 <= measurement < length
}

/// Shard a bucket index with the Histogram scheme, after checking that the
/// parameters convert and the index is below the bucket count.
pub fn shard_histogram(length: i64, chunk_length: i64, measurement: i64, report_id: &Vec<u8>)
    -> (r: Result<EncodedShares, Error>)
    requires
        report_id@.len() == REPORT_ID_LEN,
    ensures
        !histogram_params_ok(length, chunk_length, measurement) ==> (r matches Err(e) && e
            == Error::InvalidParameter),
        histogram_params_ok(length, chunk_length, measurement) ==> (r matches Err(e) ==> e
            == Error::Vdaf),
{
    if length < 0 || (length as u64) > (usize::MAX as u64) {
        return Err(Error::InvalidParameter);
    }
    if chunk_length < 0 || (chunk_length as u64) > (usize::MAX as u64) {
        return Err(Error::InvalidParameter);
    }
    if measurement < 0 || measurement >= length {
        return Err(Error::InvalidParameter);
    }
    match prio3_histogram_shard(
        length as usize,
        chunk_length as usize,
        measurement as usize,
        report_id,
    ) {
        Ok(shares) => Ok(shares),
        Err(_) => Err(Error::Vdaf),
    }
}

} // verus!
