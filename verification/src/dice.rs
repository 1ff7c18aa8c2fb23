//! Inputs for the payload's measurement derivation.
//!
//! The verified boot data of the payload (its APKs and APEXes) is
//! condensed into a configuration descriptor in CBOR form, a compound
//! code digest and a compound authority digest. A peer component
//! performs the derivation itself; everything it consumes is computed
//! here.

use crate::cbor::{cbor_byte_array, cbor_header, cbor_tstr, cbor_uint, spec_cbor_byte_array,
    spec_cbor_header, spec_cbor_neg, spec_cbor_tstr, spec_cbor_uint, cbor_neg};
use crate::errors::ServiceError;
use vstd::prelude::*;
use vstd::slice::slice_to_vec;
use vstd::utf8::encode_utf8;

verus! {

/// The SHA-512 digest of a byte sequence, as the external crypto
/// library computes it: a function of the input bytes alone.
pub uninterp spec fn sha512_of(data: Seq<u8>) -> Seq<u8>;

/// Relies on openssl::sha::sha512: the 64-byte SHA-512 digest of the
/// input, depending on the input bytes alone.
#[verifier::external_body]
fn sha512(data: &[u8]) -> (r: [u8; 64])
    ensures
        r@ == sha512_of(data@),
        r@.len() == 64,
{
    openssl::sha::sha512(data)
}

/// The verified data of one APK of the payload.
#[derive(Debug)]
pub struct ApkData {
    /// The package name.
    pub package_name: String,
    /// The version code.
    pub version_code: u64,
    /// The root hash of the APK's verity tree.
    pub root_hash: Vec<u8>,
    /// The public key that signed the APK.
    pub pubkey: Vec<u8>,
}

/// The verified data of one APEX of the payload.
#[derive(Debug)]
pub struct ApexData {
    /// The root digest of the APEX.
    pub root_digest: Vec<u8>,
    /// The public key of the APEX.
    pub public_key: Vec<u8>,
}

/// Everything the boot verified about the payload.
#[derive(Debug)]
pub struct MicrodroidData {
    /// The main APK.
    pub apk_data: ApkData,
    /// Extra APKs, in mount order.
    pub extra_apks_data: Vec<ApkData>,
    /// The APEXes of the payload.
    pub apex_data: Vec<ApexData>,
    /// The per-instance salt.
    pub salt: Vec<u8>,
}

/// The payload configuration carried inline in the metadata.
#[derive(Debug)]
pub struct PayloadConfig {
    /// The filename of the payload binary.
    pub payload_binary_name: String,
}

impl Default for PayloadConfig {
    /// An empty configuration.
    fn default() -> (r: PayloadConfig)
        ensures
            r.payload_binary_name@ == Seq::<char>::empty(),
    {
        PayloadConfig { payload_binary_name: String::new() }
    }
}

/// How the payload is described in the metadata: by the path of a
/// configuration file inside the APK, or by an inline configuration.
#[derive(Debug)]
pub enum PayloadMetadata {
    /// The path of the payload configuration file.
    ConfigPath(String),
    /// The inline payload configuration.
    Config(PayloadConfig),
}

/// One subcomponent measured into the configuration descriptor.
#[derive(Debug)]
pub struct Subcomponent {
    /// The subcomponent name.
    pub name: String,
    /// The subcomponent version.
    pub version: u64,
    /// The hash of the subcomponent's code.
    pub code_hash: Vec<u8>,
    /// The hash of the authority that signed it.
    pub authority_hash: Vec<u8>,
}

/// Whether a subcomponent records the given APK: the prefixed name,
/// the version, the root hash as code hash, and the digest of the
/// signing key as authority hash.
pub open spec fn spec_subcomponent_matches(s: Subcomponent, apk: ApkData) -> bool {
    &&& s.name@ == "apk:"@ + apk.package_name@
    &&& s.version == apk.version_code
    &&& s.code_hash@ == apk.root_hash@
    &&& s.authority_hash@ == sha512_of(apk.pubkey@)
}

/// The CBOR encoding of one subcomponent: a map of its name, version,
/// code hash and authority hash, keyed 1 to 4.
pub open spec fn spec_subcomponent_bytes(s: Subcomponent) -> Seq<u8> {
    spec_cbor_header(5, 4) + spec_cbor_uint(1) + spec_cbor_tstr(encode_utf8(s.name@))
        + spec_cbor_uint(2) + spec_cbor_uint(s.version) + spec_cbor_uint(3)
        + spec_cbor_byte_array(s.code_hash@) + spec_cbor_uint(4) + spec_cbor_byte_array(
        s.authority_hash@,
    )
}

/// The CBOR encodings of the given subcomponents, in order.
pub open spec fn spec_subcomponents_bytes(list: Seq<Subcomponent>) -> Seq<u8>
    decreases list.len(),
{
    if list.len() == 0 {
        Seq::empty()
    } else {
        spec_subcomponents_bytes(list.drop_last()) + spec_subcomponent_bytes(list.last())
    }
}

/// The CBOR encoding of the payload entry of the descriptor: the
/// configuration path under its own negative key, or the inline
/// configuration under another.
pub open spec fn spec_payload_entry_bytes(p: PayloadMetadata) -> Seq<u8> {
    match p {
        PayloadMetadata::ConfigPath(path) => spec_cbor_neg(70999) + spec_cbor_tstr(
            encode_utf8(path@),
        ),
        PayloadMetadata::Config(cfg) => spec_cbor_neg(71000) + spec_cbor_header(5, 1)
            + spec_cbor_uint(1) + spec_cbor_tstr(encode_utf8(cfg.payload_binary_name@)),
    }
}

/// The CBOR encoding of the whole configuration descriptor: a map of
/// the component name, the payload entry, and, when subcomponents are
/// present, their list.
pub open spec fn spec_payload_config_descriptor(
    p: PayloadMetadata,
    subs: Seq<Subcomponent>,
) -> Seq<u8> {
    spec_cbor_header(5, if subs.len() == 0 { 2 } else { 3 }) + spec_cbor_neg(70001)
        + spec_cbor_tstr(encode_utf8("Microdroid payload"@)) + spec_payload_entry_bytes(p) + (
    if subs.len() == 0 {
        Seq::empty()
    } else {
        spec_cbor_neg(71001) + spec_cbor_header(4, subs.len() as u64) + spec_subcomponents_bytes(
            subs,
        )
    })
}

impl Subcomponent {
    /// Append the CBOR encoding of this subcomponent.
    pub fn encode(&self, out: &mut Vec<u8>)
        ensures
            final(out)@ == old(out)@ + spec_subcomponent_bytes(*self),
    {
        cbor_header(out, 5, 4);
        cbor_uint(out, 1);
        cbor_tstr(out, self.name.as_str());
        cbor_uint(out, 2);
        cbor_uint(out, self.version);
        cbor_uint(out, 3);
        cbor_byte_array(out, self.code_hash.as_slice());
        cbor_uint(out, 4);
        cbor_byte_array(out, self.authority_hash.as_slice());
        proof {
            assert(out@ =~= old(out)@ + spec_subcomponent_bytes(*self));
        }
    }

    /// The subcomponent recording one APK.
    pub fn for_apk(apk: &ApkData) -> (r: Subcomponent)
        ensures
            spec_subcomponent_matches(r, *apk),
    {
        let mut name = String::from_str("apk:");
        name.append(apk.package_name.as_str());
        let digest = sha512(apk.pubkey.as_slice());
        Subcomponent {
            name,
            version: apk.version_code,
            code_hash: slice_to_vec(apk.root_hash.as_slice()),
            authority_hash: slice_to_vec(vstd::array::array_as_slice(&digest)),
        }
    }
}

/// The subcomponent list of the payload: the main APK first, then the
/// extra APKs, each recorded by [`Subcomponent::for_apk`]; empty while
/// the measurement change is disabled.
pub fn build_subcomponent_list(verified_data: &MicrodroidData, dice_changes: bool) -> (r: Vec<
    Subcomponent,
>)
    ensures
        !dice_changes ==> r@.len() == 0,
        dice_changes ==> {
            &&& r@.len() == 1 + verified_data.extra_apks_data@.len()
            &&& spec_subcomponent_matches(r@[0], verified_data.apk_data)
            &&& forall|i: int|
                1 <= i < r@.len() ==> spec_subcomponent_matches(
                    r@[i],
                    verified_data.extra_apks_data@[i - 1],
                )
        },
{
    if !dice_changes {
        return Vec::new();
    }
    let mut out: Vec<Subcomponent> = Vec::new();
    out.push(Subcomponent::for_apk(&verified_data.apk_data));
    let n = verified_data.extra_apks_data.len();
    let mut i: usize = 0;
    while i < n
        invariant
            n == verified_data.extra_apks_data@.len(),
            0 <= i <= n,
            out@.len() == 1 + i,
            spec_subcomponent_matches(out@[0], verified_data.apk_data),
            forall|j: int|
                1 <= j < out@.len() ==> spec_subcomponent_matches(
                    out@[j],
                    verified_data.extra_apks_data@[j - 1],
                ),
        decreases n - i,
    {
        out.push(Subcomponent::for_apk(&verified_data.extra_apks_data[i]));
        i = i + 1;
    }
    out
}

/// Returns a configuration descriptor of the given payload: the CBOR
/// map of the component name, the payload entry, and the subcomponent
/// list when one is present.
pub fn format_payload_config_descriptor(
    payload: &PayloadMetadata,
    subcomponents: &[Subcomponent],
) -> (r: Result<Vec<u8>, ServiceError>)
    ensures
        r matches Ok(v) && v@ == spec_payload_config_descriptor(*payload, subcomponents@),
{
    let mut out: Vec<u8> = Vec::new();
    let n = subcomponents.len();
    cbor_header(&mut out, 5, if n == 0 { 2 } else { 3 });
    cbor_neg(&mut out, 70001);
    cbor_tstr(&mut out, "Microdroid payload");
    match payload {
        PayloadMetadata::ConfigPath(payload_config_path) => {
            cbor_neg(&mut out, 70999);
            cbor_tstr(&mut out, payload_config_path.as_str());
        },
        PayloadMetadata::Config(payload_config) => {
            cbor_neg(&mut out, 71000);
            cbor_header(&mut out, 5, 1);
            cbor_uint(&mut out, 1);
            cbor_tstr(&mut out, payload_config.payload_binary_name.as_str());
        },
    }
    if n > 0 {
        cbor_neg(&mut out, 71001);
        cbor_header(&mut out, 4, n as u64);
        let ghost mid = out@;
        let mut i: usize = 0;
        while i < n
            invariant
                n == subcomponents@.len(),
                0 <= i <= n,
                out@ == mid + spec_subcomponents_bytes(subcomponents@.subrange(0, i as int)),
            decreases n - i,
        {
            subcomponents[i].encode(&mut out);
            proof {
                let head = subcomponents@.subrange(0, i + 1);
                assert(head.drop_last() =~= subcomponents@.subrange(0, i as int));
                assert(head.last() == subcomponents@[i as int]);
                assert(out@ =~= mid + spec_subcomponents_bytes(head));
            }
            i = i + 1;
        }
        proof {
            assert(subcomponents@.subrange(0, n as int) =~= subcomponents@);
        }
    }
    proof {
        assert(out@ =~= spec_payload_config_descriptor(*payload, subcomponents@));
    }
    Ok(out)
}

/// The root hashes of the given APKs, concatenated in order.
pub open spec fn spec_root_hashes(apks: Seq<ApkData>) -> Seq<u8>
    decreases apks.len(),
{
    if apks.len() == 0 {
        Seq::empty()
    } else {
        spec_root_hashes(apks.drop_last()) + apks.last().root_hash@
    }
}

/// The signing keys of the given APKs, concatenated in order.
pub open spec fn spec_pubkeys(apks: Seq<ApkData>) -> Seq<u8>
    decreases apks.len(),
{
    if apks.len() == 0 {
        Seq::empty()
    } else {
        spec_pubkeys(apks.drop_last()) + apks.last().pubkey@
    }
}

/// The root digests of the given APEXes, concatenated in order.
pub open spec fn spec_apex_root_digests(apexes: Seq<ApexData>) -> Seq<u8>
    decreases apexes.len(),
{
    if apexes.len() == 0 {
        Seq::empty()
    } else {
        spec_apex_root_digests(apexes.drop_last()) + apexes.last().root_digest@
    }
}

/// The public keys of the given APEXes, concatenated in order.
pub open spec fn spec_apex_public_keys(apexes: Seq<ApexData>) -> Seq<u8>
    decreases apexes.len(),
{
    if apexes.len() == 0 {
        Seq::empty()
    } else {
        spec_apex_public_keys(apexes.drop_last()) + apexes.last().public_key@
    }
}

/// What the compound code digest is taken over: the root hash of the
/// main APK, of every extra APK, and of every APEX, in that order.
pub open spec fn spec_code_input(d: MicrodroidData) -> Seq<u8> {
    d.apk_data.root_hash@ + spec_root_hashes(d.extra_apks_data@) + spec_apex_root_digests(
        d.apex_data@,
    )
}

/// What the compound authority digest is taken over: the signing key
/// of the main APK, of every extra APK, and of every APEX, in that
/// order.
pub open spec fn spec_authority_input(d: MicrodroidData) -> Seq<u8> {
    d.apk_data.pubkey@ + spec_pubkeys(d.extra_apks_data@) + spec_apex_public_keys(d.apex_data@)
}

/// The CBOR encoding of the subcomponent recording one APK.
pub open spec fn spec_apk_subcomponent_bytes(apk: ApkData) -> Seq<u8> {
    spec_cbor_header(5, 4) + spec_cbor_uint(1) + spec_cbor_tstr(
        encode_utf8("apk:"@ + apk.package_name@),
    ) + spec_cbor_uint(2) + spec_cbor_uint(apk.version_code) + spec_cbor_uint(3)
        + spec_cbor_byte_array(apk.root_hash@) + spec_cbor_uint(4) + spec_cbor_byte_array(
        sha512_of(apk.pubkey@),
    )
}

/// The CBOR encodings of the subcomponents of the given APKs, in
/// order.
pub open spec fn spec_apk_subcomponents_bytes(apks: Seq<ApkData>) -> Seq<u8>
    decreases apks.len(),
{
    if apks.len() == 0 {
        Seq::empty()
    } else {
        spec_apk_subcomponents_bytes(apks.drop_last()) + spec_apk_subcomponent_bytes(apks.last())
    }
}

/// The configuration descriptor of a payload, straight from its
/// verified data: with the measurement change enabled it lists the
/// main APK and every extra APK as subcomponents, otherwise none.
pub open spec fn spec_dice_config_descriptor(
    p: PayloadMetadata,
    d: MicrodroidData,
    dice_changes: bool,
) -> Seq<u8> {
    if dice_changes {
        spec_cbor_header(5, 3) + spec_cbor_neg(70001) + spec_cbor_tstr(
            encode_utf8("Microdroid payload"@),
        ) + spec_payload_entry_bytes(p) + spec_cbor_neg(71001) + spec_cbor_header(
            4,
            (1 + d.extra_apks_data@.len()) as u64,
        ) + spec_apk_subcomponents_bytes(seq![d.apk_data] + d.extra_apks_data@)
    } else {
        spec_cbor_header(5, 2) + spec_cbor_neg(70001) + spec_cbor_tstr(
            encode_utf8("Microdroid payload"@),
        ) + spec_payload_entry_bytes(p)
    }
}

/// Matching subcomponents encode to the same bytes as the APKs they
/// record.
proof fn lemma_subcomponents_bytes_match(subs: Seq<Subcomponent>, apks: Seq<ApkData>)
    requires
        subs.len() == apks.len(),
        forall|i: int| 0 <= i < subs.len() ==> spec_subcomponent_matches(subs[i], apks[i]),
    ensures
        spec_subcomponents_bytes(subs) == spec_apk_subcomponents_bytes(apks),
    decreases subs.len(),
{
    if subs.len() > 0 {
        assert forall|i: int|
            0 <= i < subs.drop_last().len() implies spec_subcomponent_matches(
            subs.drop_last()[i],
            apks.drop_last()[i],
        ) by {
            assert(subs.drop_last()[i] == subs[i]);
            assert(apks.drop_last()[i] == apks[i]);
        }
        lemma_subcomponents_bytes_match(subs.drop_last(), apks.drop_last());
        assert(spec_subcomponent_matches(subs.last(), apks.last()));
        assert(spec_subcomponent_bytes(subs.last()) == spec_apk_subcomponent_bytes(apks.last()));
    }
}

/// Append the bytes of a slice.
fn append_bytes(out: &mut Vec<u8>, src: &[u8])
    ensures
        final(out)@ == old(out)@ + src@,
{
    let n = src.len();
    let mut i: usize = 0;
    while i < n
        invariant
            n == src@.len(),
            0 <= i <= n,
            out@ == old(out)@ + src@.subrange(0, i as int),
        decreases n - i,
    {
        out.push(src[i]);
        proof {
            assert(out@ =~= old(out)@ + src@.subrange(0, i + 1));
        }
        i = i + 1;
    }
    proof {
        assert(src@.subrange(0, n as int) =~= src@);
    }
}

/// Everything the derivation consumes, computed from the verified
/// data and the payload metadata.
#[derive(Debug)]
pub struct DiceInputs {
    /// The compound digest of the payload's code.
    pub code_hash: Vec<u8>,
    /// The compound digest of the signing authorities.
    pub authority_hash: Vec<u8>,
    /// The configuration descriptor, in CBOR form.
    pub config_descriptor: Vec<u8>,
    /// The per-instance hidden input: the salt.
    pub hidden: Vec<u8>,
}

/// Compute every input of the payload's measurement derivation: the
/// configuration descriptor, the compound code and authority digests,
/// and the hidden salt. The derivation itself is performed by a peer
/// component from exactly these values.
pub fn dice_derivation_inputs(
    verified_data: &MicrodroidData,
    payload_metadata: &PayloadMetadata,
    dice_changes: bool,
) -> (r: Result<DiceInputs, ServiceError>)
    ensures
        r matches Ok(inp) && {
            &&& inp.code_hash@ == sha512_of(spec_code_input(*verified_data))
            &&& inp.authority_hash@ == sha512_of(spec_authority_input(*verified_data))
            &&& inp.config_descriptor@ == spec_dice_config_descriptor(
                *payload_metadata,
                *verified_data,
                dice_changes,
            )
            &&& inp.hidden@ == verified_data.salt@
        },
{
    let subcomponents = build_subcomponent_list(verified_data, dice_changes);
    let config_descriptor = match format_payload_config_descriptor(
        payload_metadata,
        subcomponents.as_slice(),
    ) {
        Ok(v) => v,
        Err(e) => {
            return Err(e);
        },
    };
    proof {
        if dice_changes {
            let apks = seq![verified_data.apk_data] + verified_data.extra_apks_data@;
            assert forall|i: int|
                0 <= i < subcomponents@.len() implies spec_subcomponent_matches(
                subcomponents@[i],
                apks[i],
            ) by {
                if i == 0 {
                    assert(apks[0] == verified_data.apk_data);
                } else {
                    assert(apks[i] == verified_data.extra_apks_data@[i - 1]);
                }
            }
            lemma_subcomponents_bytes_match(subcomponents@, apks);
        }
        assert(config_descriptor@ == spec_dice_config_descriptor(
            *payload_metadata,
            *verified_data,
            dice_changes,
        ));
    }

    // Compound digests of code and authorities.
    let mut code_input: Vec<u8> = Vec::new();
    append_bytes(&mut code_input, verified_data.apk_data.root_hash.as_slice());
    let mut authority_input: Vec<u8> = Vec::new();
    append_bytes(&mut authority_input, verified_data.apk_data.pubkey.as_slice());
    let ghost code_base = code_input@;
    let ghost authority_base = authority_input@;
    let n = verified_data.extra_apks_data.len();
    let mut i: usize = 0;
    while i < n
        invariant
            n == verified_data.extra_apks_data@.len(),
            0 <= i <= n,
            code_input@ == code_base + spec_root_hashes(
                verified_data.extra_apks_data@.subrange(0, i as int),
            ),
            authority_input@ == authority_base + spec_pubkeys(
                verified_data.extra_apks_data@.subrange(0, i as int),
            ),
        decreases n - i,
    {
        append_bytes(&mut code_input, verified_data.extra_apks_data[i].root_hash.as_slice());
        append_bytes(&mut authority_input, verified_data.extra_apks_data[i].pubkey.as_slice());
        proof {
            let head = verified_data.extra_apks_data@.subrange(0, i + 1);
            assert(head.drop_last() =~= verified_data.extra_apks_data@.subrange(0, i as int));
            assert(head.last() == verified_data.extra_apks_data@[i as int]);
            assert(code_input@ =~= code_base + spec_root_hashes(head));
            assert(authority_input@ =~= authority_base + spec_pubkeys(head));
        }
        i = i + 1;
    }
    proof {
        assert(verified_data.extra_apks_data@.subrange(0, n as int)
            =~= verified_data.extra_apks_data@);
    }
    let ghost code_mid = code_input@;
    let ghost authority_mid = authority_input@;
    let m = verified_data.apex_data.len();
    let mut j: usize = 0;
    while j < m
        invariant
            m == verified_data.apex_data@.len(),
            0 <= j <= m,
            code_input@ == code_mid + spec_apex_root_digests(
                verified_data.apex_data@.subrange(0, j as int),
            ),
            authority_input@ == authority_mid + spec_apex_public_keys(
                verified_data.apex_data@.subrange(0, j as int),
            ),
        decreases m - j,
    {
        append_bytes(&mut code_input, verified_data.apex_data[j].root_digest.as_slice());
        append_bytes(&mut authority_input, verified_data.apex_data[j].public_key.as_slice());
        proof {
            let head = verified_data.apex_data@.subrange(0, j + 1);
            assert(head.drop_last() =~= verified_data.apex_data@.subrange(0, j as int));
            assert(head.last() == verified_data.apex_data@[j as int]);
            assert(code_input@ =~= code_mid + spec_apex_root_digests(head));
            assert(authority_input@ =~= authority_mid + spec_apex_public_keys(head));
        }
        j = j + 1;
    }
    proof {
        assert(verified_data.apex_data@.subrange(0, m as int) =~= verified_data.apex_data@);
        assert(code_input@ =~= spec_code_input(*verified_data));
        assert(authority_input@ =~= spec_authority_input(*verified_data));
    }
    let code_hash = sha512(code_input.as_slice());
    let authority_hash = sha512(authority_input.as_slice());

    Ok(DiceInputs {
        code_hash: slice_to_vec(vstd::array::array_as_slice(&code_hash)),
        authority_hash: slice_to_vec(vstd::array::array_as_slice(&authority_hash)),
        config_descriptor,
        hidden: slice_to_vec(verified_data.salt.as_slice()),
    })
}

} // verus!
