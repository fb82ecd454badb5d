//! The wire entities of the protocol: task identifier, HPKE configuration
//! list, report metadata, ciphertext, and report, each with its byte-exact
//! encoding, its decoder, and round-trip proofs.
//!
//! All multi-byte integers are big-endian; variable-length fields carry a
//! byte-length prefix and nothing is padded.

use vstd::prelude::*;

use crate::codec::{
    append_range, be16, be32, be64, copy_range, encode_u16, encode_u32, encode_u64,
    lemma_be16_round, lemma_be32_round, lemma_be64_round, read_u16, read_u32, read_u64,
    u16_from_be, u32_from_be, u64_from_be,
};
use crate::errors::Error;

verus! {

/// Byte length of a task identifier.
pub const TASK_ID_LEN: usize = 32;

/// Byte length of a report identifier.
pub const REPORT_ID_LEN: usize = 16;

/// A fixed 32-byte identifier of the aggregation task.
#[derive(Debug)]
pub struct TaskId {
    bytes: Vec<u8>,
}

impl View for TaskId {
    type V = Seq<u8>;

    closed spec fn view(&self) -> Seq<u8> {
        self.bytes@
    }
}

/// Parse a task identifier: the wire image is the raw bytes, and anything
/// but exactly 32 of them is refused.
pub open spec fn parse_task_id(b: Seq<u8>) -> Option<Seq<u8>> {
    if b.len() == TASK_ID_LEN {
        Some(b)
    } else {
        Option::None
    }
}

/// Round trip: a task identifier's wire image parses back to itself.
pub proof fn lemma_task_id_round_trip(b: Seq<u8>)
    requires
        b.len() == TASK_ID_LEN,
    ensures
        parse_task_id(b) == Some(b),
{
}

impl TaskId {
    /// A task identifier is exactly 32 bytes.
    pub open spec fn wf(&self) -> bool {
        self@.len() == TASK_ID_LEN
    }

    /// Interpret caller-supplied bytes as a task identifier; anything but
    /// exactly 32 bytes is rejected.
    pub fn parse(bytes: &Vec<u8>) -> (r: Result<TaskId, Error>)
        ensures
            match parse_task_id(bytes@) {
                Some(b) => r matches Ok(t) && t@ == b && t.wf(),
                Option::None => r matches Err(e) && e == Error::DecodeFailure,
            },
    {
        if bytes.len() != TASK_ID_LEN {
            return Err(Error::DecodeFailure);
        }
        Ok(TaskId { bytes: copy_range(bytes, 0, TASK_ID_LEN) })
    }

    /// The wire image of a task identifier is its raw bytes.
    pub fn get_encoded(&self) -> (r: Vec<u8>)
        ensures
            r@ == self@,
    {
        copy_range(&self.bytes, 0, self.bytes.len())
    }
}

/// A 16-byte report identifier, generated fresh for every report.
#[derive(Debug)]
pub struct ReportId {
    bytes: Vec<u8>,
}

impl View for ReportId {
    type V = Seq<u8>;

    closed spec fn view(&self) -> Seq<u8> {
        self.bytes@
    }
}

impl ReportId {
    /// A report identifier is exactly 16 bytes.
    pub open spec fn wf(&self) -> bool {
        self@.len() == REPORT_ID_LEN
    }

    /// Interpret bytes as a report identifier; anything but exactly 16 bytes
    /// is rejected.
    pub fn parse(bytes: &Vec<u8>) -> (r: Result<ReportId, Error>)
        ensures
            bytes@.len() == REPORT_ID_LEN ==> (r matches Ok(t) && t@ == bytes@ && t.wf()),
            bytes@.len() != REPORT_ID_LEN ==> (r matches Err(e) && e == Error::DecodeFailure),
    {
        if bytes.len() != REPORT_ID_LEN {
            return Err(Error::DecodeFailure);
        }
        Ok(ReportId { bytes: copy_range(bytes, 0, REPORT_ID_LEN) })
    }

    /// Wrap already-validated bytes; used where the identifier was freshly
    /// drawn from the random source.
    pub fn from_bytes(bytes: Vec<u8>) -> (r: ReportId)
        requires
            bytes@.len() == REPORT_ID_LEN,
        ensures
            r@ == bytes@ && r.wf(),
    {
        ReportId { bytes }
    }

    /// The identifier bytes.
    pub fn as_bytes(&self) -> (r: &Vec<u8>)
        ensures
            r@ == self@,
    {
        &self.bytes
    }
}

/// Mathematical image of [`ReportMetadata`].
pub ghost struct ReportMetadataV {
    pub report_id: Seq<u8>,
    pub time: u64,
}

/// Metadata of one report: its fresh identifier and its timestamp, in
/// seconds since the epoch, already rounded by the caller.
#[derive(Debug)]
pub struct ReportMetadata {
    pub report_id: ReportId,
    pub time: u64,
}

impl View for ReportMetadata {
    type V = ReportMetadataV;

    open spec fn view(&self) -> ReportMetadataV {
        ReportMetadataV { report_id: self.report_id@, time: self.time }
    }
}

/// Wire image of report metadata: the 16 identifier bytes followed by the
/// 8-byte big-endian time.
pub open spec fn report_metadata_wire(m: ReportMetadataV) -> Seq<u8> {
    m.report_id + be64(m.time)
}

/// Metadata is well-formed when its report identifier has its fixed length.
pub open spec fn report_metadata_wf(m: ReportMetadataV) -> bool {
    m.report_id.len() == REPORT_ID_LEN
}

impl ReportMetadata {
    pub open spec fn wf(&self) -> bool {
        report_metadata_wf(self@)
    }

    /// Append the wire image of this metadata.
    pub fn encode_to(&self, out: &mut Vec<u8>)
        requires
            self.wf(),
        ensures
            final(out)@ == old(out)@ + report_metadata_wire(self@),
    {
        append_range(out, &self.report_id.bytes, 0, self.report_id.bytes.len());
        encode_u64(out, self.time);
        assert(out@ =~= old(out)@ + report_metadata_wire(self@));
    }
}

/// Mathematical image of [`HpkeConfig`].
pub ghost struct HpkeConfigV {
    pub id: u8,
    pub kem_id: u16,
    pub kdf_id: u16,
    pub aead_id: u16,
    pub public_key: Seq<u8>,
}

/// One encryption configuration offered by a recipient: a one-byte config
/// identifier, the three algorithm identifiers, and the public key.
#[derive(Debug)]
pub struct HpkeConfig {
    pub id: u8,
    pub kem_id: u16,
    pub kdf_id: u16,
    pub aead_id: u16,
    pub public_key: Vec<u8>,
}

impl View for HpkeConfig {
    type V = HpkeConfigV;

    open spec fn view(&self) -> HpkeConfigV {
        HpkeConfigV {
            id: self.id,
            kem_id: self.kem_id,
            kdf_id: self.kdf_id,
            aead_id: self.aead_id,
            public_key: self.public_key@,
        }
    }
}

/// Wire image of one configuration: id, KEM, KDF, AEAD, then the public key
/// behind a 2-byte length prefix.
pub open spec fn hpke_config_wire(c: HpkeConfigV) -> Seq<u8> {
    seq![c.id] + be16(c.kem_id) + be16(c.kdf_id) + be16(c.aead_id)
        + be16(c.public_key.len() as u16) + c.public_key
}

/// A configuration is encodable when its public key fits the 2-byte length
/// prefix.
pub open spec fn hpke_config_wf(c: HpkeConfigV) -> bool {
    c.public_key.len() <= 0xffff
}

impl HpkeConfig {
    pub open spec fn wf(&self) -> bool {
        hpke_config_wf(self@)
    }

    /// Construct a configuration from its parts.
    pub fn new(id: u8, kem_id: u16, kdf_id: u16, aead_id: u16, public_key: Vec<u8>) -> (r:
        HpkeConfig)
        ensures
            r@ == (HpkeConfigV {
                id,
                kem_id,
                kdf_id,
                aead_id,
                public_key: public_key@,
            }),
    {
        HpkeConfig { id, kem_id, kdf_id, aead_id, public_key }
    }

    /// A copy of this configuration, field for field.
    pub fn duplicate(&self) -> (r: HpkeConfig)
        ensures
            r@ == self@,
    {
        let r = HpkeConfig {
            id: self.id,
            kem_id: self.kem_id,
            kdf_id: self.kdf_id,
            aead_id: self.aead_id,
            public_key: copy_range(&self.public_key, 0, self.public_key.len()),
        };
        assert(r@.public_key =~= self@.public_key);
        r
    }

    /// Append the wire image of this configuration, or report that the
    /// public key overflows its length prefix (nothing is appended then).
    pub fn encode_to(&self, out: &mut Vec<u8>) -> (r: Result<(), Error>)
        ensures
            self.wf() ==> (r matches Ok(u) && final(out)@ == old(out)@ + hpke_config_wire(
                self@,
            )),
            !self.wf() ==> (r matches Err(e) && e == Error::EncodeOverflow && final(out)@ == old(
                out,
            )@),
    {
        if self.public_key.len() > 0xffff {
            return Err(Error::EncodeOverflow);
        }
        out.push(self.id);
        encode_u16(out, self.kem_id);
        encode_u16(out, self.kdf_id);
        encode_u16(out, self.aead_id);
        encode_u16(out, self.public_key.len() as u16);
        append_range(out, &self.public_key, 0, self.public_key.len());
        assert(out@ =~= old(out)@ + hpke_config_wire(self@));
        Ok(())
    }
}

/// Parse one configuration from the front of `b`; on success also give the
/// number of bytes consumed.
pub open spec fn parse_one_hpke_config(b: Seq<u8>) -> Option<(HpkeConfigV, int)> {
    if b.len() < 9 {
        None
    } else {
        let pk_len = u16_from_be(b[7], b[8]) as int;
        if b.len() < 9 + pk_len {
            None
        } else {
            Some(
                (
                    HpkeConfigV {
                        id: b[0],
                        kem_id: u16_from_be(b[1], b[2]),
                        kdf_id: u16_from_be(b[3], b[4]),
                        aead_id: u16_from_be(b[5], b[6]),
                        public_key: b.subrange(9, 9 + pk_len),
                    },
                    9 + pk_len,
                ),
            )
        }
    }
}

/// Read one configuration at offset `pos`, returning it and the offset just
/// past it.
pub fn read_hpke_config(bytes: &Vec<u8>, pos: usize) -> (r: Option<(HpkeConfig, usize)>)
    requires
        pos <= bytes@.len(),
    ensures
        match r {
            Some((c, end)) => {
                &&& parse_one_hpke_config(bytes@.skip(pos as int)) == Some((c@, end - pos))
                &&& pos < end <= bytes@.len()
                &&& c.wf()
            },
            None => parse_one_hpke_config(bytes@.skip(pos as int)) is None,
        },
{
    let n: usize = bytes.len();
    if n - pos < 9 {
        return None;
    }
    let pk_len: usize = read_u16(bytes, pos + 7) as usize;
    if n - pos - 9 < pk_len {
        return None;
    }
    let config = HpkeConfig {
        id: bytes[pos],
        kem_id: read_u16(bytes, pos + 1),
        kdf_id: read_u16(bytes, pos + 3),
        aead_id: read_u16(bytes, pos + 5),
        public_key: copy_range(bytes, pos + 9, pk_len),
    };
    proof {
        let tail = bytes@.skip(pos as int);
        assert(config@.public_key =~= tail.subrange(9, 9 + pk_len as int));
    }
    Some((config, pos + 9 + pk_len))
}

/// The views of a sequence of configurations, in order.
pub open spec fn configs_view(cs: Seq<HpkeConfig>) -> Seq<HpkeConfigV> {
    Seq::new(cs.len(), |i: int| cs[i]@)
}

/// Concatenated wire images of a sequence of configurations.
pub open spec fn hpke_configs_bytes(l: Seq<HpkeConfigV>) -> Seq<u8>
    decreases l.len(),
{
    if l.len() == 0 {
        Seq::empty()
    } else {
        hpke_config_wire(l[0]) + hpke_configs_bytes(l.skip(1))
    }
}

/// A configuration list is encodable when each entry is and the concatenated
/// entries fit the 2-byte length prefix.
pub open spec fn hpke_config_list_wf(l: Seq<HpkeConfigV>) -> bool {
    &&& forall|i: int| 0 <= i < l.len() ==> hpke_config_wf(#[trigger] l[i])
    &&& hpke_configs_bytes(l).len() <= 0xffff
}

/// Wire image of a configuration list: a 2-byte prefix holding the byte
/// length of the concatenated entries, then the entries.
pub open spec fn hpke_config_list_wire(l: Seq<HpkeConfigV>) -> Seq<u8> {
    be16(hpke_configs_bytes(l).len() as u16) + hpke_configs_bytes(l)
}

/// Parse a concatenation of configurations that must fill `b` exactly.
pub open spec fn parse_hpke_configs(b: Seq<u8>) -> Option<Seq<HpkeConfigV>>
    decreases b.len(),
{
    if b.len() == 0 {
        Some(Seq::empty())
    } else {
        match parse_one_hpke_config(b) {
            Option::None => Option::None,
            Some((c, used)) => match parse_hpke_configs(b.skip(used)) {
                Option::None => Option::None,
                Some(rest) => Some(seq![c] + rest),
            },
        }
    }
}

/// Parse a configuration list from `b`, which must be consumed exactly.
pub open spec fn parse_hpke_config_list(b: Seq<u8>) -> Option<Seq<HpkeConfigV>> {
    if b.len() < 2 {
        Option::None
    } else if b.len() != 2 + u16_from_be(b[0], b[1]) as int {
        Option::None
    } else {
        parse_hpke_configs(b.skip(2))
    }
}

/// Concatenation distributes over the entry bytes.
pub proof fn lemma_configs_bytes_append(a: Seq<HpkeConfigV>, b: Seq<HpkeConfigV>)
    ensures
        hpke_configs_bytes(a + b) == hpke_configs_bytes(a) + hpke_configs_bytes(b),
    decreases a.len(),
{
    if a.len() == 0 {
        assert(a + b =~= b);
        assert(hpke_configs_bytes(a) + hpke_configs_bytes(b) =~= hpke_configs_bytes(b));
    } else {
        lemma_configs_bytes_append(a.skip(1), b);
        assert((a + b).skip(1) =~= a.skip(1) + b);
        assert(hpke_config_wire(a[0]) + (hpke_configs_bytes(a.skip(1)) + hpke_configs_bytes(b))
            =~= (hpke_config_wire(a[0]) + hpke_configs_bytes(a.skip(1)))
            + hpke_configs_bytes(b));
    }
}

/// Parsing one configuration off its own wire image, whatever follows,
/// yields the configuration back and consumes exactly its image.
pub proof fn lemma_parse_one_hpke_config_round(c: HpkeConfigV, rest: Seq<u8>)
    requires
        hpke_config_wf(c),
    ensures
        parse_one_hpke_config(hpke_config_wire(c) + rest) == Some(
            (c, hpke_config_wire(c).len() as int),
        ),
{
    let w = hpke_config_wire(c) + rest;
    let pk_len = c.public_key.len() as int;
    lemma_be16_round(c.kem_id);
    lemma_be16_round(c.kdf_id);
    lemma_be16_round(c.aead_id);
    lemma_be16_round(c.public_key.len() as u16);
    assert(w[0] == c.id);
    assert(w[1] == be16(c.kem_id)[0] && w[2] == be16(c.kem_id)[1]);
    assert(w[3] == be16(c.kdf_id)[0] && w[4] == be16(c.kdf_id)[1]);
    assert(w[5] == be16(c.aead_id)[0] && w[6] == be16(c.aead_id)[1]);
    assert(w[7] == be16(c.public_key.len() as u16)[0] && w[8] == be16(
        c.public_key.len() as u16,
    )[1]);
    assert(u16_from_be(w[7], w[8]) == c.public_key.len());
    assert(w.subrange(9, 9 + pk_len) =~= c.public_key);
}

/// Parsing the concatenated images of well-formed configurations yields the
/// configurations back.
#[verifier::rlimit(30)]
pub proof fn lemma_parse_hpke_configs_round(l: Seq<HpkeConfigV>)
    requires
        forall|i: int| 0 <= i < l.len() ==> hpke_config_wf(#[trigger] l[i]),
    ensures
        parse_hpke_configs(hpke_configs_bytes(l)) == Some(l),
    decreases l.len(),
{
    if l.len() == 0 {
        assert(parse_hpke_configs(hpke_configs_bytes(l)) == Some(Seq::<HpkeConfigV>::empty()));
        assert(Seq::<HpkeConfigV>::empty() =~= l);
    } else {
        let w0 = hpke_config_wire(l[0]);
        let restb = hpke_configs_bytes(l.skip(1));
        let b = hpke_configs_bytes(l);
        lemma_parse_one_hpke_config_round(l[0], restb);
        lemma_parse_hpke_configs_round(l.skip(1));
        assert(b == w0 + restb);
        assert(w0.len() == 9 + l[0].public_key.len());
        assert(parse_one_hpke_config(b) == Some((l[0], w0.len() as int)));
        assert(b.skip(w0.len() as int) =~= restb);
        assert(parse_hpke_configs(b.skip(w0.len() as int)) == Some(l.skip(1)));
        assert(seq![l[0]] + l.skip(1) =~= l);
        assert(parse_hpke_configs(b) == Some(l));
    }
}

/// Round trip: decoding the wire image of a well-formed configuration list
/// yields the same list.
pub proof fn lemma_hpke_config_list_round_trip(l: Seq<HpkeConfigV>)
    requires
        hpke_config_list_wf(l),
    ensures
        parse_hpke_config_list(hpke_config_list_wire(l)) == Some(l),
{
    let body = hpke_configs_bytes(l);
    let w = hpke_config_list_wire(l);
    lemma_be16_round(body.len() as u16);
    assert(w[0] == be16(body.len() as u16)[0] && w[1] == be16(body.len() as u16)[1]);
    assert(u16_from_be(w[0], w[1]) == body.len());
    assert(w.skip(2) =~= body);
    lemma_parse_hpke_configs_round(l);
}

/// An ordered list of configurations offered by one recipient.
#[derive(Debug)]
pub struct HpkeConfigList {
    pub hpke_configs: Vec<HpkeConfig>,
}

impl View for HpkeConfigList {
    type V = Seq<HpkeConfigV>;

    open spec fn view(&self) -> Seq<HpkeConfigV> {
        configs_view(self.hpke_configs@)
    }
}

impl HpkeConfigList {
    pub open spec fn wf(&self) -> bool {
        hpke_config_list_wf(self@)
    }

    /// Construct a list from its entries.
    pub fn new(hpke_configs: Vec<HpkeConfig>) -> (r: HpkeConfigList)
        ensures
            r@ == configs_view(hpke_configs@),
    {
        HpkeConfigList { hpke_configs }
    }

    /// The entries, in the order the recipient listed them.
    pub fn hpke_configs(&self) -> (r: &Vec<HpkeConfig>)
        ensures
            configs_view(r@) == self@,
    {
        &self.hpke_configs
    }

    /// Encode the list, or report that an entry or the whole body overflows
    /// its length prefix.
    pub fn get_encoded(&self) -> (r: Result<Vec<u8>, Error>)
        ensures
            self.wf() ==> (r matches Ok(bytes) && bytes@ == hpke_config_list_wire(self@)),
            !self.wf() ==> (r matches Err(e) && e == Error::EncodeOverflow),
    {
        let n: usize = self.hpke_configs.len();
        let mut body: Vec<u8> = Vec::new();
        let mut i: usize = 0;
        while i < n
            invariant
                i <= n == self.hpke_configs@.len(),
                forall|k: int| 0 <= k < i ==> hpke_config_wf(#[trigger] self@[k]),
                body@ == hpke_configs_bytes(self@.take(i as int)),
            decreases n - i,
        {
            match self.hpke_configs[i].encode_to(&mut body) {
                Ok(_) => {},
                Err(_) => {
                    proof {
                        assert(self@[i as int] == self.hpke_configs@[i as int]@);
                        assert(!hpke_config_wf(self@[i as int]));
                    }
                    return Err(Error::EncodeOverflow);
                },
            }
            proof {
                lemma_configs_bytes_append(self@.take(i as int), seq![self@[i as int]]);
                assert(self@.take(i as int) + seq![self@[i as int]] =~= self@.take(i + 1));
                assert(seq![self@[i as int]].skip(1) =~= Seq::<HpkeConfigV>::empty());
                assert(hpke_configs_bytes(Seq::<HpkeConfigV>::empty()) =~= Seq::<u8>::empty());
                assert(seq![self@[i as int]][0] == self@[i as int]);
                assert(hpke_configs_bytes(seq![self@[i as int]]) =~= hpke_config_wire(
                    self@[i as int],
                ));
                assert(body@ =~= hpke_configs_bytes(self@.take(i + 1)));
            }
            i = i + 1;
        }
        proof {
            assert(self@.take(n as int) =~= self@);
        }
        if body.len() > 0xffff {
            return Err(Error::EncodeOverflow);
        }
        let mut out: Vec<u8> = Vec::new();
        encode_u16(&mut out, body.len() as u16);
        let body_len: usize = body.len();
        append_range(&mut out, &body, 0, body_len);
        proof {
            assert(body@.subrange(0, body@.len() as int) =~= body@);
            assert(out@ =~= hpke_config_list_wire(self@));
        }
        Ok(out)
    }

    /// Decode a list from caller-supplied bytes, which must hold exactly one
    /// well-formed encoding.
    pub fn get_decoded(bytes: &Vec<u8>) -> (r: Result<HpkeConfigList, Error>)
        ensures
            match parse_hpke_config_list(bytes@) {
                Some(l) => r matches Ok(x) && x@ == l,
                Option::None => r matches Err(e) && e == Error::DecodeFailure,
            },
    {
        let n: usize = bytes.len();
        if n < 2 {
            return Err(Error::DecodeFailure);
        }
        let total: usize = read_u16(bytes, 0) as usize;
        if n - 2 != total {
            return Err(Error::DecodeFailure);
        }
        let mut configs: Vec<HpkeConfig> = Vec::new();
        let mut pos: usize = 2;
        while pos < n
            invariant
                2 <= pos <= n == bytes@.len(),
                n == 2 + u16_from_be(bytes@[0], bytes@[1]) as int,
                ({
                    let whole = parse_hpke_config_list(bytes@);
                    let tail = parse_hpke_configs(bytes@.skip(pos as int));
                    &&& (whole is Some <==> tail is Some)
                    &&& (tail is Some ==> whole == Some(configs_view(configs@) + tail->Some_0))
                }),
            decreases n - pos,
        {
            match read_hpke_config(bytes, pos) {
                Option::None => {
                    return Err(Error::DecodeFailure);
                },
                Some((c, end)) => {
                    proof {
                        assert(bytes@.skip(pos as int).skip((end - pos) as int) =~= bytes@.skip(
                            end as int,
                        ));
                    }
                    let ghost prev = configs@;
                    configs.push(c);
                    proof {
                        assert(configs_view(configs@) =~= configs_view(prev) + seq![c@]);
                        let tail_new = parse_hpke_configs(bytes@.skip(end as int));
                        if tail_new is Some {
                            assert(configs_view(prev) + (seq![c@] + tail_new->Some_0)
                                =~= configs_view(configs@) + tail_new->Some_0);
                        }
                    }
                    pos = end;
                },
            }
        }
        proof {
            assert(bytes@.skip(pos as int) =~= Seq::<u8>::empty());
            assert(configs_view(configs@) + Seq::<HpkeConfigV>::empty() =~= configs_view(
                configs@,
            ));
        }
        Ok(HpkeConfigList { hpke_configs: configs })
    }
}

/// Mathematical image of [`HpkeCiphertext`].
pub ghost struct HpkeCiphertextV {
    pub config_id: u8,
    pub encapsulated_key: Seq<u8>,
    pub payload: Seq<u8>,
}

/// One sealed input share: the identifier of the configuration it was sealed
/// under, the encapsulated key, and the ciphertext body.
#[derive(Debug)]
pub struct HpkeCiphertext {
    pub config_id: u8,
    pub encapsulated_key: Vec<u8>,
    pub payload: Vec<u8>,
}

impl View for HpkeCiphertext {
    type V = HpkeCiphertextV;

    open spec fn view(&self) -> HpkeCiphertextV {
        HpkeCiphertextV {
            config_id: self.config_id,
            encapsulated_key: self.encapsulated_key@,
            payload: self.payload@,
        }
    }
}

/// Wire image of a ciphertext: config id, encapsulated key behind a 2-byte
/// length prefix, ciphertext body behind a 4-byte length prefix.
pub open spec fn hpke_ciphertext_wire(ct: HpkeCiphertextV) -> Seq<u8> {
    seq![ct.config_id] + be16(ct.encapsulated_key.len() as u16) + ct.encapsulated_key
        + be32(ct.payload.len() as u32) + ct.payload
}

/// A ciphertext is encodable when both fields fit their length prefixes.
pub open spec fn hpke_ciphertext_wf(ct: HpkeCiphertextV) -> bool {
    ct.encapsulated_key.len() <= 0xffff && ct.payload.len() <= 0xffff_ffff
}

impl HpkeCiphertext {
    pub open spec fn wf(&self) -> bool {
        hpke_ciphertext_wf(self@)
    }

    /// Append the wire image of this ciphertext, or report a length prefix
    /// overflow (nothing is appended then).
    pub fn encode_to(&self, out: &mut Vec<u8>) -> (r: Result<(), Error>)
        ensures
            self.wf() ==> (r matches Ok(u) && final(out)@ == old(out)@ + hpke_ciphertext_wire(
                self@,
            )),
            !self.wf() ==> (r matches Err(e) && e == Error::EncodeOverflow && final(out)@ == old(
                out,
            )@),
    {
        if self.encapsulated_key.len() > 0xffff {
            return Err(Error::EncodeOverflow);
        }
        if self.payload.len() > 0xffff_ffff {
            return Err(Error::EncodeOverflow);
        }
        out.push(self.config_id);
        encode_u16(out, self.encapsulated_key.len() as u16);
        append_range(out, &self.encapsulated_key, 0, self.encapsulated_key.len());
        encode_u32(out, self.payload.len() as u32);
        append_range(out, &self.payload, 0, self.payload.len());
        assert(out@ =~= old(out)@ + hpke_ciphertext_wire(self@));
        Ok(())
    }
}

/// Parse one ciphertext from the front of `b`; on success also give the
/// number of bytes consumed.
pub open spec fn parse_one_hpke_ciphertext(b: Seq<u8>) -> Option<(HpkeCiphertextV, int)> {
    if b.len() < 3 {
        Option::None
    } else {
        let enc_len = u16_from_be(b[1], b[2]) as int;
        if b.len() < 7 + enc_len {
            Option::None
        } else {
            let pl_len = u32_from_be(
                b[3 + enc_len],
                b[4 + enc_len],
                b[5 + enc_len],
                b[6 + enc_len],
            ) as int;
            if b.len() < 7 + enc_len + pl_len {
                Option::None
            } else {
                Some(
                    (
                        HpkeCiphertextV {
                            config_id: b[0],
                            encapsulated_key: b.subrange(3, 3 + enc_len),
                            payload: b.subrange(7 + enc_len, 7 + enc_len + pl_len),
                        },
                        7 + enc_len + pl_len,
                    ),
                )
            }
        }
    }
}

/// Read one ciphertext at offset `pos`, returning it and the offset just
/// past it.
pub fn read_hpke_ciphertext(bytes: &Vec<u8>, pos: usize) -> (r: Option<(HpkeCiphertext, usize)>)
    requires
        pos <= bytes@.len(),
    ensures
        match r {
            Some((ct, end)) => {
                &&& parse_one_hpke_ciphertext(bytes@.skip(pos as int)) == Some(
                    (ct@, end - pos),
                )
                &&& pos < end <= bytes@.len()
                &&& ct.wf()
            },
            Option::None => parse_one_hpke_ciphertext(bytes@.skip(pos as int)) is None,
        },
{
    let n: usize = bytes.len();
    let avail: usize = n - pos;
    if avail < 3 {
        return Option::None;
    }
    let enc_len: usize = read_u16(bytes, pos + 1) as usize;
    if avail < 7 + enc_len {
        return Option::None;
    }
    let pl_len: usize = read_u32(bytes, pos + 3 + enc_len) as usize;
    if avail - 7 - enc_len < pl_len {
        return Option::None;
    }
    let ct = HpkeCiphertext {
        config_id: bytes[pos],
        encapsulated_key: copy_range(bytes, pos + 3, enc_len),
        payload: copy_range(bytes, pos + 7 + enc_len, pl_len),
    };
    proof {
        let tail = bytes@.skip(pos as int);
        assert(ct@.encapsulated_key =~= tail.subrange(3, 3 + enc_len as int));
        assert(ct@.payload =~= tail.subrange(
            7 + enc_len as int,
            7 + enc_len as int + pl_len as int,
        ));
    }
    Some((ct, pos + 7 + enc_len + pl_len))
}

/// Parsing one ciphertext off its own wire image, whatever follows, yields
/// the ciphertext back and consumes exactly its image.
pub proof fn lemma_parse_one_hpke_ciphertext_round(ct: HpkeCiphertextV, rest: Seq<u8>)
    requires
        hpke_ciphertext_wf(ct),
    ensures
        parse_one_hpke_ciphertext(hpke_ciphertext_wire(ct) + rest) == Some(
            (ct, hpke_ciphertext_wire(ct).len() as int),
        ),
{
    let w = hpke_ciphertext_wire(ct) + rest;
    let enc_len = ct.encapsulated_key.len() as int;
    let pl_len = ct.payload.len() as int;
    lemma_be16_round(ct.encapsulated_key.len() as u16);
    lemma_be32_round(ct.payload.len() as u32);
    assert(w[0] == ct.config_id);
    assert(w[1] == be16(ct.encapsulated_key.len() as u16)[0] && w[2] == be16(
        ct.encapsulated_key.len() as u16,
    )[1]);
    assert(u16_from_be(w[1], w[2]) == enc_len);
    assert(w[3 + enc_len] == be32(ct.payload.len() as u32)[0]);
    assert(w[4 + enc_len] == be32(ct.payload.len() as u32)[1]);
    assert(w[5 + enc_len] == be32(ct.payload.len() as u32)[2]);
    assert(w[6 + enc_len] == be32(ct.payload.len() as u32)[3]);
    assert(u32_from_be(w[3 + enc_len], w[4 + enc_len], w[5 + enc_len], w[6 + enc_len])
        == pl_len);
    assert(w.subrange(3, 3 + enc_len) =~= ct.encapsulated_key);
    assert(w.subrange(7 + enc_len, 7 + enc_len + pl_len) =~= ct.payload);
}

/// Mathematical image of [`Report`].
pub ghost struct ReportV {
    pub metadata: ReportMetadataV,
    pub public_share: Seq<u8>,
    pub leader_encrypted_input_share: HpkeCiphertextV,
    pub helper_encrypted_input_share: HpkeCiphertextV,
}

/// The finished report: metadata, the public share in the clear, and the two
/// sealed input shares, leader first.
#[derive(Debug)]
pub struct Report {
    pub metadata: ReportMetadata,
    pub public_share: Vec<u8>,
    pub leader_encrypted_input_share: HpkeCiphertext,
    pub helper_encrypted_input_share: HpkeCiphertext,
}

impl View for Report {
    type V = ReportV;

    open spec fn view(&self) -> ReportV {
        ReportV {
            metadata: self.metadata@,
            public_share: self.public_share@,
            leader_encrypted_input_share: self.leader_encrypted_input_share@,
            helper_encrypted_input_share: self.helper_encrypted_input_share@,
        }
    }
}

/// Wire image of a report: metadata, public share behind a 4-byte length
/// prefix, then the leader and helper ciphertexts in that fixed order.
pub open spec fn report_wire(r: ReportV) -> Seq<u8> {
    report_metadata_wire(r.metadata) + be32(r.public_share.len() as u32) + r.public_share
        + hpke_ciphertext_wire(r.leader_encrypted_input_share)
        + hpke_ciphertext_wire(r.helper_encrypted_input_share)
}

/// A report is encodable when every part fits its fixed-width slot or
/// length prefix.
pub open spec fn report_wf(r: ReportV) -> bool {
    &&& report_metadata_wf(r.metadata)
    &&& r.public_share.len() <= 0xffff_ffff
    &&& hpke_ciphertext_wf(r.leader_encrypted_input_share)
    &&& hpke_ciphertext_wf(r.helper_encrypted_input_share)
}

/// Parse a report from `b`, which must be consumed exactly.
pub open spec fn parse_report(b: Seq<u8>) -> Option<ReportV> {
    if b.len() < 28 {
        Option::None
    } else {
        let ps_len = u32_from_be(b[24], b[25], b[26], b[27]) as int;
        if b.len() < 28 + ps_len {
            Option::None
        } else {
            let metadata = ReportMetadataV {
                report_id: b.subrange(0, 16),
                time: u64_from_be(b[16], b[17], b[18], b[19], b[20], b[21], b[22], b[23]),
            };
            let public_share = b.subrange(28, 28 + ps_len);
            match parse_one_hpke_ciphertext(b.skip(28 + ps_len)) {
                Option::None => Option::None,
                Some((leader_ct, used1)) => match parse_one_hpke_ciphertext(
                    b.skip(28 + ps_len + used1),
                ) {
                    Option::None => Option::None,
                    Some((helper_ct, used2)) => {
                        if b.len() == 28 + ps_len + used1 + used2 {
                            Some(
                                ReportV {
                                    metadata,
                                    public_share,
                                    leader_encrypted_input_share: leader_ct,
                                    helper_encrypted_input_share: helper_ct,
                                },
                            )
                        } else {
                            Option::None
                        }
                    },
                },
            }
        }
    }
}

impl Report {
    pub open spec fn wf(&self) -> bool {
        report_wf(self@)
    }

    /// Construct a report from its parts.
    pub fn new(
        metadata: ReportMetadata,
        public_share: Vec<u8>,
        leader_encrypted_input_share: HpkeCiphertext,
        helper_encrypted_input_share: HpkeCiphertext,
    ) -> (r: Report)
        ensures
            r.metadata == metadata,
            r.public_share == public_share,
            r.leader_encrypted_input_share == leader_encrypted_input_share,
            r.helper_encrypted_input_share == helper_encrypted_input_share,
    {
        Report { metadata, public_share, leader_encrypted_input_share, helper_encrypted_input_share }
    }

    /// Encode the report, or report that a part overflows its length prefix.
    pub fn get_encoded(&self) -> (r: Result<Vec<u8>, Error>)
        requires
            self.metadata.wf(),
        ensures
            self.wf() ==> (r matches Ok(bytes) && bytes@ == report_wire(self@)),
            !self.wf() ==> (r matches Err(e) && e == Error::EncodeOverflow),
    {
        if self.public_share.len() > 0xffff_ffff {
            return Err(Error::EncodeOverflow);
        }
        let mut out: Vec<u8> = Vec::new();
        self.metadata.encode_to(&mut out);
        encode_u32(&mut out, self.public_share.len() as u32);
        append_range(&mut out, &self.public_share, 0, self.public_share.len());
        match self.leader_encrypted_input_share.encode_to(&mut out) {
            Ok(_) => {},
            Err(_) => {
                return Err(Error::EncodeOverflow);
            },
        }
        match self.helper_encrypted_input_share.encode_to(&mut out) {
            Ok(_) => {},
            Err(_) => {
                return Err(Error::EncodeOverflow);
            },
        }
        assert(out@ =~= report_wire(self@));
        Ok(out)
    }

    /// Decode a report from bytes, which must hold exactly one well-formed
    /// encoding.
    pub fn get_decoded(bytes: &Vec<u8>) -> (r: Result<Report, Error>)
        ensures
            match parse_report(bytes@) {
                Some(rep) => r matches Ok(x) && x@ == rep,
                Option::None => r matches Err(e) && e == Error::DecodeFailure,
            },
    {
        let n: usize = bytes.len();
        if n < 28 {
            return Err(Error::DecodeFailure);
        }
        let ps_len: usize = read_u32(bytes, 24) as usize;
        if n - 28 < ps_len {
            return Err(Error::DecodeFailure);
        }
        let rid_bytes = copy_range(bytes, 0, 16);
        let report_id = ReportId::from_bytes(rid_bytes);
        let time: u64 = read_u64(bytes, 16);
        let public_share = copy_range(bytes, 28, ps_len);
        let pos0: usize = 28 + ps_len;
        let (leader_ct, pos1) = match read_hpke_ciphertext(bytes, pos0) {
            Some(t) => t,
            Option::None => {
                return Err(Error::DecodeFailure);
            },
        };
        proof {
            assert(bytes@.skip(pos0 as int).skip((pos1 - pos0) as int) =~= bytes@.skip(
                pos1 as int,
            ));
        }
        let (helper_ct, pos2) = match read_hpke_ciphertext(bytes, pos1) {
            Some(t) => t,
            Option::None => {
                return Err(Error::DecodeFailure);
            },
        };
        if pos2 != n {
            return Err(Error::DecodeFailure);
        }
        let report = Report {
            metadata: ReportMetadata { report_id, time },
            public_share,
            leader_encrypted_input_share: leader_ct,
            helper_encrypted_input_share: helper_ct,
        };
        proof {
            assert(report@.metadata.report_id =~= bytes@.subrange(0, 16));
            assert(report@.public_share =~= bytes@.subrange(28, 28 + ps_len as int));
        }
        Ok(report)
    }
}

/// Round trip: decoding the wire image of a well-formed report yields the
/// same report.
pub proof fn lemma_report_round_trip(r: ReportV)
    requires
        report_wf(r),
    ensures
        parse_report(report_wire(r)) == Some(r),
{
    let w = report_wire(r);
    let ps_len = r.public_share.len() as int;
    let wl = hpke_ciphertext_wire(r.leader_encrypted_input_share);
    let wh = hpke_ciphertext_wire(r.helper_encrypted_input_share);
    lemma_be64_round(r.metadata.time);
    lemma_be32_round(r.public_share.len() as u32);
    assert(w.subrange(0, 16) =~= r.metadata.report_id);
    assert(w[16] == be64(r.metadata.time)[0] && w[17] == be64(r.metadata.time)[1] && w[18]
        == be64(r.metadata.time)[2] && w[19] == be64(r.metadata.time)[3] && w[20] == be64(
        r.metadata.time,
    )[4] && w[21] == be64(r.metadata.time)[5] && w[22] == be64(r.metadata.time)[6] && w[23]
        == be64(r.metadata.time)[7]);
    assert(w[24] == be32(r.public_share.len() as u32)[0] && w[25] == be32(
        r.public_share.len() as u32,
    )[1] && w[26] == be32(r.public_share.len() as u32)[2] && w[27] == be32(
        r.public_share.len() as u32,
    )[3]);
    assert(u32_from_be(w[24], w[25], w[26], w[27]) == ps_len);
    assert(w.subrange(28, 28 + ps_len) =~= r.public_share);
    assert(w.skip(28 + ps_len) =~= wl + wh);
    lemma_parse_one_hpke_ciphertext_round(r.leader_encrypted_input_share, wh);
    assert(w.skip(28 + ps_len + wl.len()) =~= wh + Seq::<u8>::empty());
    lemma_parse_one_hpke_ciphertext_round(
        r.helper_encrypted_input_share,
        Seq::<u8>::empty(),
    );
    assert(w.len() == 28 + ps_len + wl.len() + wh.len());
}

/// Wire image of the plaintext that is sealed toward one recipient: an empty
/// extension list (its 2-byte length prefix holding zero) followed by the
/// opaque input share bytes behind a 4-byte length prefix.
pub open spec fn plaintext_input_share_wire(payload: Seq<u8>) -> Seq<u8> {
    be16(0) + be32(payload.len() as u32) + payload
}

/// Build the plaintext container for one input share, or report that the
/// share overflows its length prefix.
pub fn encode_plaintext_input_share(payload: &Vec<u8>) -> (r: Result<Vec<u8>, Error>)
    ensures
        payload@.len() <= 0xffff_ffff ==> (r matches Ok(bytes) && bytes@
            == plaintext_input_share_wire(payload@)),
        payload@.len() > 0xffff_ffff ==> (r matches Err(e) && e == Error::EncodeOverflow),
{
    if payload.len() > 0xffff_ffff {
        return Err(Error::EncodeOverflow);
    }
    let mut out: Vec<u8> = Vec::new();
    encode_u16(&mut out, 0);
    encode_u32(&mut out, payload.len() as u32);
    append_range(&mut out, payload, 0, payload.len());
    assert(out@ =~= plaintext_input_share_wire(payload@));
    Ok(out)
}

/// Wire image of the associated data that binds a sealed share to one task,
/// one report, and one public share.
pub open spec fn input_share_aad_wire(
    task_id: Seq<u8>,
    metadata: ReportMetadataV,
    public_share: Seq<u8>,
) -> Seq<u8> {
    task_id + report_metadata_wire(metadata) + be32(public_share.len() as u32) + public_share
}

/// Build the associated data for one recipient, or report that the public
/// share overflows its length prefix.
pub fn encode_input_share_aad(
    task_id: &TaskId,
    metadata: &ReportMetadata,
    public_share: &Vec<u8>,
) -> (r: Result<Vec<u8>, Error>)
    requires
        task_id.wf(),
        metadata.wf(),
    ensures
        public_share@.len() <= 0xffff_ffff ==> (r matches Ok(bytes) && bytes@
            == input_share_aad_wire(task_id@, metadata@, public_share@)),
        public_share@.len() > 0xffff_ffff ==> (r matches Err(e) && e == Error::EncodeOverflow),
{
    if public_share.len() > 0xffff_ffff {
        return Err(Error::EncodeOverflow);
    }
    let mut out: Vec<u8> = task_id.get_encoded();
    metadata.encode_to(&mut out);
    encode_u32(&mut out, public_share.len() as u32);
    append_range(&mut out, public_share, 0, public_share.len());
    assert(out@ =~= input_share_aad_wire(task_id@, metadata@, public_share@));
    Ok(out)
}

} // verus!
