//! Quote requests: the checks on their parameters, the assembly of the
//! quote record from what the TPM, the key store and the logs gave, and the
//! JSON envelope around it.

use vstd::prelude::*;
use vstd::string::*;
use crate::ima::read_result;
use crate::numbers::{decimal, decimal_spec, parse_u64, parse_u64_spec};
use crate::text::{all_alnum, is_alphanumeric, str_eq};

verus! {

/// Longest nonce accepted, in characters.
pub const MAX_NONCE_SIZE: usize = 64;

/// Parameters of an identity quote request.
#[derive(Clone, Debug)]
pub struct Ident {
    pub nonce: String,
}

/// Parameters of an integrity quote request.
#[derive(Clone, Debug)]
pub struct Integ {
    pub nonce: String,
    pub mask: String,
    pub partial: String,
    pub ima_ml_entry: Option<String>,
}

/// The quote record sent back to the caller.
#[derive(Clone, Debug)]
pub struct KeylimeQuote {
    /// `r` followed by the attestation, the signature and the PCR blob.
    pub quote: String,
    pub hash_alg: String,
    pub enc_alg: String,
    pub sign_alg: String,
    pub pubkey: Option<String>,
    pub ima_measurement_list: Option<String>,
    pub mb_measurement_list: Option<Vec<u8>>,
    pub ima_measurement_list_entry: Option<u64>,
}

/// The JSON envelope of every reply: a status code, a status text, and the
/// quote record on success.
#[derive(Clone, Debug)]
pub struct QuoteResponse {
    pub code: u16,
    pub status: String,
    pub results: Option<KeylimeQuote>,
}

/// The reply for the code `code` and text `status`, where `r` is it.
pub open spec fn is_error_reply(r: QuoteResponse, code: u16, status: Seq<char>) -> bool {
    r.code == code && r.status@ == status && r.results is None
}

/// An error reply with the code `code` and the text `status`.
pub fn error_response(code: u16, status: String) -> (r: QuoteResponse)
    ensures
        is_error_reply(r, code, status@),
{
    QuoteResponse { code, status, results: None }
}

/// The text of the reply for a failure inside the agent.
pub open spec fn quote_failure_text() -> Seq<char> {
    "Unable to retrieve quote"@
}

/// The text of the reply for a public key that could not be exported.
pub open spec fn pubkey_failure_text() -> Seq<char> {
    "Unable to retrieve public key"@
}

/// The reply for a quote, a log or a key that could not be had: 500, with
/// one opaque text.
pub fn quote_failure() -> (r: QuoteResponse)
    ensures
        is_error_reply(r, 500, quote_failure_text()),
{
    error_response(500, "Unable to retrieve quote".to_owned())
}

/// The reply for a public key that could not be exported on an integrity
/// request: 500.
pub fn pubkey_failure() -> (r: QuoteResponse)
    ensures
        is_error_reply(r, 500, pubkey_failure_text()),
{
    error_response(500, "Unable to retrieve public key".to_owned())
}

/// `r` is the successful reply around `quote`.
pub open spec fn is_success_reply(r: QuoteResponse, quote: KeylimeQuote) -> bool {
    r.code == 200 && r.status@ == "Success"@ && r.results == Some(quote)
}

/// The successful reply around `quote`.
pub fn success(quote: KeylimeQuote) -> (r: QuoteResponse)
    ensures
        is_success_reply(r, quote),
{
    QuoteResponse { code: 200, status: "Success".to_owned(), results: Some(quote) }
}

/// The text of the reply for a nonce that is too long.
pub open spec fn too_long_text(sep: Seq<char>, len: nat) -> Seq<char> {
    "Nonce is too long (max size"@ + sep + decimal_spec(MAX_NONCE_SIZE as nat) + "): "@
        + decimal_spec(len)
}

/// The error reply that an identity request with nonce `nonce` gets, if
/// any.
pub open spec fn identity_check_spec(nonce: Seq<char>) -> Option<Seq<char>> {
    if !all_alnum(nonce) {
        Some("Parameters should be strictly alphanumeric: "@ + nonce)
    } else if nonce.len() > MAX_NONCE_SIZE {
        Some(too_long_text(" "@, nonce.len()))
    } else {
        None
    }
}

fn too_long(sep: &str, len: usize) -> (r: String)
    ensures
        r@ == too_long_text(sep@, len as nat),
{
    let mut m: String = "Nonce is too long (max size".to_owned();
    m.append(sep);
    m.append(decimal(MAX_NONCE_SIZE as u64).as_str());
    m.append("): ");
    m.append(decimal(len as u64).as_str());
    m
}

/// Checks an identity request: the nonce holds only ASCII letters and
/// digits, and at most `MAX_NONCE_SIZE` of them; else a 400 reply that
/// says which.
pub fn check_identity(param: &Ident) -> (r: Result<(), QuoteResponse>)
    ensures
        identity_check_spec(param.nonce@) is None ==> r is Ok,
        identity_check_spec(param.nonce@) matches Some(m) ==> (r matches Err(e)
            && is_error_reply(e, 400, m)),
{
    let nonce = param.nonce.as_str();
    if !is_alphanumeric(nonce) {
        let mut m: String = "Parameters should be strictly alphanumeric: ".to_owned();
        m.append(nonce);
        return Err(error_response(400, m));
    }
    let len = nonce.unicode_len();
    if len > MAX_NONCE_SIZE {
        return Err(error_response(400, too_long(" ", len)));
    }
    Ok(())
}

/// The error reply that an integrity request gets, if any: the nonce, then
/// the mask, must hold only ASCII letters and digits, the nonce at most
/// `MAX_NONCE_SIZE` of them, and `partial` must be "0" or "1".
pub open spec fn integrity_check_spec(nonce: Seq<char>, mask: Seq<char>, partial: Seq<char>) -> Option<
    Seq<char>,
> {
    if !all_alnum(nonce) {
        Some("nonce should be strictly alphanumeric: "@ + nonce)
    } else if !all_alnum(mask) {
        Some("mask should be strictly alphanumeric: "@ + mask)
    } else if nonce.len() > MAX_NONCE_SIZE {
        Some(too_long_text(": "@, nonce.len()))
    } else if partial != "0"@ && partial != "1"@ {
        Some("uri must contain key 'partial' and value '0' or '1'"@)
    } else {
        None
    }
}

/// The log entry from which an integrity reply starts: the parsed
/// `ima_ml_entry`, and 0 (the whole log) where it is missing or is no
/// number.
pub open spec fn entry_index_spec(entry: Option<Seq<char>>) -> u64 {
    match entry {
        None => 0,
        Some(s) => match parse_u64_spec(s) {
            Some(n) => n,
            None => 0,
        },
    }
}

/// The view of an optional string.
pub open spec fn opt_str_view(o: Option<String>) -> Option<Seq<char>> {
    match o {
        Some(s) => Some(s@),
        None => None,
    }
}

/// What an accepted integrity request asks for.
#[derive(Clone, Debug)]
pub struct IntegrityPlan {
    /// The public key goes into the reply (`partial` is "0").
    pub include_pubkey: bool,
    /// The first IMA log entry to return.
    pub nth_entry: u64,
}

/// `p` is what the accepted integrity request `param` asks for.
pub open spec fn plan_of(param: &Integ, p: IntegrityPlan) -> bool {
    p.include_pubkey == (param.partial@ == "0"@) && p.nth_entry == entry_index_spec(
        opt_str_view(param.ima_ml_entry),
    )
}

/// Checks an integrity request, and says what it asks for.
pub fn check_integrity(param: &Integ) -> (r: Result<IntegrityPlan, QuoteResponse>)
    ensures
        integrity_check_spec(param.nonce@, param.mask@, param.partial@) matches Some(m) ==> (r matches Err(e)
            && is_error_reply(e, 400, m)),
        integrity_check_spec(param.nonce@, param.mask@, param.partial@) is None ==> (r matches Ok(p)
            && plan_of(param, p)),
{
    let nonce = param.nonce.as_str();
    let mask = param.mask.as_str();
    if !is_alphanumeric(nonce) {
        let mut m: String = "nonce should be strictly alphanumeric: ".to_owned();
        m.append(nonce);
        return Err(error_response(400, m));
    }
    if !is_alphanumeric(mask) {
        let mut m: String = "mask should be strictly alphanumeric: ".to_owned();
        m.append(mask);
        return Err(error_response(400, m));
    }
    let len = nonce.unicode_len();
    if len > MAX_NONCE_SIZE {
        return Err(error_response(400, too_long(": ", len)));
    }
    let include_pubkey = str_eq(param.partial.as_str(), "0");
    if !include_pubkey && !str_eq(param.partial.as_str(), "1") {
        return Err(
            error_response(400, "uri must contain key 'partial' and value '0' or '1'".to_owned()),
        );
    }
    let nth_entry = match &param.ima_ml_entry {
        None => 0,
        Some(s) => match parse_u64(s.as_str()) {
            Some(n) => n,
            None => 0,
        },
    };
    Ok(IntegrityPlan { include_pubkey, nth_entry })
}

/// `r` is the identity record made of the TPM's `quote` and the key
/// `pubkey`.
pub open spec fn is_identity_record(r: KeylimeQuote, quote: KeylimeQuote, pubkey: String) -> bool {
    &&& r.quote == quote.quote
    &&& r.hash_alg == quote.hash_alg
    &&& r.enc_alg == quote.enc_alg
    &&& r.sign_alg == quote.sign_alg
    &&& r.pubkey == Some(pubkey)
    &&& r.ima_measurement_list is None
    &&& r.mb_measurement_list is None
    &&& r.ima_measurement_list_entry is None
}

/// The identity record: the TPM's quote with the node's public key, and no
/// logs.
pub fn identity_quote(quote: KeylimeQuote, pubkey: String) -> (r: KeylimeQuote)
    ensures
        is_identity_record(r, quote, pubkey),
{
    KeylimeQuote {
        quote: quote.quote,
        hash_alg: quote.hash_alg,
        enc_alg: quote.enc_alg,
        sign_alg: quote.sign_alg,
        pubkey: Some(pubkey),
        ima_measurement_list: None,
        mb_measurement_list: None,
        ima_measurement_list_entry: None,
    }
}

/// The public key field of an integrity record.
pub open spec fn integrity_pubkey(include_pubkey: bool, pubkey: Option<String>) -> Option<String> {
    if include_pubkey {
        pubkey
    } else {
        None
    }
}

/// The measured-boot field of an integrity record: the log, only where PCR 0
/// is in the mask and the log could be read.
pub open spec fn integrity_mb(pcr0_selected: bool, mb_log: Option<Vec<u8>>) -> Option<Vec<u8>> {
    if pcr0_selected {
        mb_log
    } else {
        None
    }
}

/// `r` is the integrity record made of the TPM's `quote` and the rest.
pub open spec fn is_integrity_record(
    r: KeylimeQuote,
    quote: KeylimeQuote,
    plan: IntegrityPlan,
    pubkey: Option<String>,
    pcr0_selected: bool,
    mb_log: Option<Vec<u8>>,
    ima_measurement_list: Option<String>,
    ima_measurement_list_entry: Option<u64>,
) -> bool {
    &&& r.quote == quote.quote
    &&& r.hash_alg == quote.hash_alg
    &&& r.enc_alg == quote.enc_alg
    &&& r.sign_alg == quote.sign_alg
    &&& r.pubkey == integrity_pubkey(plan.include_pubkey, pubkey)
    &&& r.mb_measurement_list == integrity_mb(pcr0_selected, mb_log)
    &&& r.ima_measurement_list == ima_measurement_list
    &&& r.ima_measurement_list_entry == ima_measurement_list_entry
}

/// The integrity record: the TPM's quote, with the public key where the plan
/// asks for it, the measured-boot log where PCR 0 is selected and the log
/// was read, and the IMA slice with its starting entry.
pub fn integrity_quote(
    quote: KeylimeQuote,
    plan: &IntegrityPlan,
    pubkey: Option<String>,
    pcr0_selected: bool,
    mb_log: Option<Vec<u8>>,
    ima_measurement_list: Option<String>,
    ima_measurement_list_entry: Option<u64>,
) -> (r: KeylimeQuote)
    ensures
        is_integrity_record(
            r,
            quote,
            *plan,
            pubkey,
            pcr0_selected,
            mb_log,
            ima_measurement_list,
            ima_measurement_list_entry,
        ),
{
    KeylimeQuote {
        quote: quote.quote,
        hash_alg: quote.hash_alg,
        enc_alg: quote.enc_alg,
        sign_alg: quote.sign_alg,
        pubkey: if plan.include_pubkey {
            pubkey
        } else {
            None
        },
        ima_measurement_list,
        mb_measurement_list: if pcr0_selected {
            mb_log
        } else {
            None
        },
        ima_measurement_list_entry,
    }
}

/// The quote text starts with `r`, as the TPM facade writes it.
pub open spec fn starts_with_r(q: String) -> bool {
    q@.len() > 0 && q@[0] == 'r'
}

/// An identity reply built from a TPM quote that starts with `r` is a
/// success that keeps that quote and carries the node's public key.
pub proof fn lemma_identity_reply(
    quote: KeylimeQuote,
    pubkey: String,
    record: KeylimeQuote,
    reply: QuoteResponse,
)
    requires
        starts_with_r(quote.quote),
        is_identity_record(record, quote, pubkey),
        is_success_reply(reply, record),
    ensures
        reply.code == 200,
        reply.results matches Some(x) && starts_with_r(x.quote) && x.pubkey == Some(pubkey),
{
}

/// An accepted integrity request with `partial` "0" and no `ima_ml_entry`
/// is answered with the TPM's quote, the public key and the whole IMA log.
pub proof fn lemma_full_integrity_reply(
    param: &Integ,
    plan: IntegrityPlan,
    quote: KeylimeQuote,
    pubkey: String,
    pcr0_selected: bool,
    mb_log: Option<Vec<u8>>,
    contents: Seq<char>,
    read: (Option<String>, Option<u64>, u64),
    record: KeylimeQuote,
    reply: QuoteResponse,
)
    requires
        param.partial@ == "0"@,
        param.ima_ml_entry is None,
        plan_of(param, plan),
        starts_with_r(quote.quote),
        read_result(contents, plan.nth_entry, read),
        is_integrity_record(record, quote, plan, Some(pubkey), pcr0_selected, mb_log, read.0, read.1),
        is_success_reply(reply, record),
    ensures
        reply.code == 200,
        reply.results matches Some(x) && starts_with_r(x.quote) && x.pubkey == Some(pubkey) && (
        x.ima_measurement_list matches Some(l) && l@ == contents),
{
}

/// An accepted integrity request with `partial` "1" is answered with the
/// TPM's quote and no public key, whatever key was at hand; with no
/// `ima_ml_entry`, with the whole IMA log.
pub proof fn lemma_partial_integrity_reply(
    param: &Integ,
    plan: IntegrityPlan,
    quote: KeylimeQuote,
    pubkey: Option<String>,
    pcr0_selected: bool,
    mb_log: Option<Vec<u8>>,
    contents: Seq<char>,
    read: (Option<String>, Option<u64>, u64),
    record: KeylimeQuote,
    reply: QuoteResponse,
)
    requires
        param.partial@ == "1"@,
        plan_of(param, plan),
        starts_with_r(quote.quote),
        read_result(contents, plan.nth_entry, read),
        is_integrity_record(record, quote, plan, pubkey, pcr0_selected, mb_log, read.0, read.1),
        is_success_reply(reply, record),
    ensures
        reply.code == 200,
        reply.results matches Some(x) && starts_with_r(x.quote) && x.pubkey is None,
        param.ima_ml_entry is None ==> (reply.results matches Some(x) && (
        x.ima_measurement_list matches Some(l) && l@ == contents)),
{
    reveal_strlit("1");
    reveal_strlit("0");
    assert("1"@[0] != "0"@[0]);
}

} // verus!
