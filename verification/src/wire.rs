//! Wire formats of the relay backends.
//!
//! Every relay receives the same signed envelope; what differs is the wire
//! form: raw bytes for the bundle relay, a JSON body holding the base64
//! bytes for the HTTP relays, and a JSON-RPC call for direct node
//! submission.  The byte-level bodies are built verified; serializing the
//! envelope, base64 and JSON parsing are outside calls behind trusted
//! wrappers.

use vstd::prelude::*;

use crate::chain::sig_text_ok;
use base64::Engine;
use solana_sdk::transaction::VersionedTransaction;

verus! {

/// What a relay submission yields: a transaction signature's text for direct
/// and HTTP relays, a bundle identifier for the bundle relay.  Both are kept
/// as the bytes the relay answered with.
#[derive(Debug)]
pub enum TxResult {
    Signature(Vec<u8>),
    BundleID(Vec<u8>),
}

impl TxResult {
    /// The identifier's bytes, whichever variant holds them.
    pub fn into_bytes(self) -> (r: Vec<u8>)
        ensures
            match self {
                TxResult::Signature(s) => r@ == s@,
                TxResult::BundleID(b) => r@ == b@,
            },
    {
        match self {
            TxResult::Signature(s) => s,
            TxResult::BundleID(b) => b,
        }
    }
}

/// Why a relay attempt failed.  A failure is logged for its relay alone and
/// never touches sibling relays.
#[derive(Debug)]
pub enum RelayError {
    /// The signed envelope could not be serialized to wire bytes.
    SerializeFailed,
    /// The endpoint answered a non-success status; carries the response body.
    SubmitRejected(Vec<u8>),
    /// The endpoint's answer held no valid signature text; carries what it
    /// held.
    InvalidSignature(Vec<u8>),
}

/// The base64 text of a byte string, by the standard padded alphabet.
pub uninterp spec fn base64_of(b: Seq<u8>) -> Seq<u8>;

/// The `signature` string field of a JSON object body, if the body parses as
/// such an object.
pub uninterp spec fn json_sig_of(s: Seq<u8>) -> Option<Seq<u8>>;

/// The `result` string field of a JSON object body, if the body parses as
/// such an object: how a node answers a JSON-RPC submission.
pub uninterp spec fn json_result_of(s: Seq<u8>) -> Option<Seq<u8>>;

/// Relies on bincode's serde encoder with the standard configuration: the
/// raw wire bytes of the signed envelope.
#[verifier::external_body]
pub fn serialize_tx(tx: &VersionedTransaction) -> (r: Result<Vec<u8>, RelayError>)
    ensures
        r is Err ==> r->Err_0 is SerializeFailed,
{
    match bincode::serde::encode_to_vec(tx, bincode::config::standard()) {
        Ok(b) => Ok(b),
        Err(_) => Err(RelayError::SerializeFailed),
    }
}

/// Relies on base64's standard engine: the padded standard encoding, four
/// output bytes for every three input bytes, a function of the input alone.
#[verifier::external_body]
pub fn encode_base64(b: &Vec<u8>) -> (r: Vec<u8>)
    requires
        ((b@.len() + 2) / 3) * 4 <= usize::MAX,
    ensures
        r@ == base64_of(b@),
        r@.len() == ((b@.len() + 2) / 3) * 4,
{
    base64::engine::general_purpose::STANDARD.encode(b.as_slice()).into_bytes()
}

/// Relies on serde_json's parser and Value accessors: the `signature` string
/// field of the body, a function of the bytes alone.
#[verifier::external_body]
pub(crate) fn json_signature_field(body: &Vec<u8>) -> (r: Option<Vec<u8>>)
    ensures
        match r {
            Some(s) => json_sig_of(body@) == Some(s@),
            None => json_sig_of(body@) is None,
        },
{
    match serde_json::from_slice::<serde_json::Value>(body.as_slice()) {
        Ok(v) => match v.get("signature") {
            Some(f) => match f.as_str() {
                Some(s) => Some(s.as_bytes().to_vec()),
                None => None,
            },
            None => None,
        },
        Err(_) => None,
    }
}

/// Relies on serde_json's parser and Value accessors: the `result` string
/// field of the body, a function of the bytes alone.
#[verifier::external_body]
pub(crate) fn json_result_field(body: &Vec<u8>) -> (r: Option<Vec<u8>>)
    ensures
        match r {
            Some(s) => json_result_of(body@) == Some(s@),
            None => json_result_of(body@) is None,
        },
{
    match serde_json::from_slice::<serde_json::Value>(body.as_slice()) {
        Ok(v) => match v.get("result") {
            Some(f) => match f.as_str() {
                Some(s) => Some(s.as_bytes().to_vec()),
                None => None,
            },
            None => None,
        },
        Err(_) => None,
    }
}

/// Appends a copy of `src` to `dst`.
pub(crate) fn append_bytes(dst: &mut Vec<u8>, src: &Vec<u8>)
    ensures
        final(dst)@ == old(dst)@ + src@,
{
    let mut i: usize = 0;
    while i < src.len()
        invariant
            i <= src@.len(),
            dst@ == old(dst)@ + src@.take(i as int),
        decreases src@.len() - i,
    {
        dst.push(src[i]);
        proof {
            assert(old(dst)@ + src@.take(i as int + 1) =~= (old(dst)@ + src@.take(i as int)).push(
                src@[i as int],
            ));
        }
        i = i + 1;
    }
    proof {
        assert(old(dst)@ + src@.take(src@.len() as int) =~= old(dst)@ + src@);
    }
}

/// The JSON body the two HTTP relays take, up to the base64 payload.
pub open spec fn spec_http_relay_prefix() -> Seq<u8> {
    seq![123u8, 34u8, 115u8, 107u8, 105u8, 112u8, 80u8, 114u8, 101u8, 70u8, 108u8, 105u8, 103u8, 104u8, 116u8, 34u8, 58u8, 116u8, 114u8, 117u8, 101u8, 44u8, 34u8, 116u8, 114u8, 97u8, 110u8, 115u8, 97u8, 99u8, 116u8, 105u8, 111u8, 110u8, 34u8, 58u8, 123u8, 34u8, 99u8, 111u8, 110u8, 116u8, 101u8, 110u8, 116u8, 34u8, 58u8, 34u8]
}

/// The HTTP relays' JSON body: skip-preflight flag and the base64 payload.
/// The base64 alphabet holds no character JSON would escape.
pub open spec fn spec_http_relay_body(tx_b64: Seq<u8>) -> Seq<u8> {
    spec_http_relay_prefix() + tx_b64 + seq![34u8, 125u8, 125u8]
}

/// Builds the HTTP relays' JSON body around the base64 payload.
pub fn build_http_relay_body(tx_b64: &Vec<u8>) -> (r: Vec<u8>)
    ensures
        r@ == spec_http_relay_body(tx_b64@),
{
    let mut r: Vec<u8> = vec![123u8, 34u8, 115u8, 107u8, 105u8, 112u8, 80u8, 114u8, 101u8, 70u8, 108u8, 105u8, 103u8, 104u8, 116u8, 34u8, 58u8, 116u8, 114u8, 117u8, 101u8, 44u8, 34u8, 116u8, 114u8, 97u8, 110u8, 115u8, 97u8, 99u8, 116u8, 105u8, 111u8, 110u8, 34u8, 58u8, 123u8, 34u8, 99u8, 111u8, 110u8, 116u8, 101u8, 110u8, 116u8, 34u8, 58u8, 34u8];
    proof {
        assert(r@ =~= spec_http_relay_prefix());
    }
    append_bytes(&mut r, tx_b64);
    r.push(34u8);
    r.push(125u8);
    r.push(125u8);
    proof {
        assert(r@ =~= spec_http_relay_body(tx_b64@));
    }
    r
}

/// The JSON-RPC call submitting raw transaction bytes to a node, up to the
/// base64 payload.
pub open spec fn spec_rpc_send_prefix() -> Seq<u8> {
    seq![123u8, 34u8, 106u8, 115u8, 111u8, 110u8, 114u8, 112u8, 99u8, 34u8, 58u8, 34u8, 50u8, 46u8, 48u8, 34u8, 44u8, 34u8, 105u8, 100u8, 34u8, 58u8, 49u8, 44u8, 34u8, 109u8, 101u8, 116u8, 104u8, 111u8, 100u8, 34u8, 58u8, 34u8, 115u8, 101u8, 110u8, 100u8, 84u8, 114u8, 97u8, 110u8, 115u8, 97u8, 99u8, 116u8, 105u8, 111u8, 110u8, 34u8, 44u8, 34u8, 112u8, 97u8, 114u8, 97u8, 109u8, 115u8, 34u8, 58u8, 91u8, 34u8]
}

/// What follows the payload: base64 encoding declared, preflight skipped.
pub open spec fn spec_rpc_send_suffix() -> Seq<u8> {
    seq![34u8, 44u8, 123u8, 34u8, 101u8, 110u8, 99u8, 111u8, 100u8, 105u8, 110u8, 103u8, 34u8, 58u8, 34u8, 98u8, 97u8, 115u8, 101u8, 54u8, 52u8, 34u8, 44u8, 34u8, 115u8, 107u8, 105u8, 112u8, 80u8, 114u8, 101u8, 102u8, 108u8, 105u8, 103u8, 104u8, 116u8, 34u8, 58u8, 116u8, 114u8, 117u8, 101u8, 125u8, 93u8, 125u8]
}

/// The direct node's JSON-RPC submission body.
pub open spec fn spec_rpc_send_body(tx_b64: Seq<u8>) -> Seq<u8> {
    spec_rpc_send_prefix() + tx_b64 + spec_rpc_send_suffix()
}

/// Builds the direct node's JSON-RPC submission body: base64 payload,
/// base64 encoding declared, preflight simulation skipped.
pub fn build_rpc_send_body(tx_b64: &Vec<u8>) -> (r: Vec<u8>)
    ensures
        r@ == spec_rpc_send_body(tx_b64@),
{
    let mut r: Vec<u8> = vec![123u8, 34u8, 106u8, 115u8, 111u8, 110u8, 114u8, 112u8, 99u8, 34u8, 58u8, 34u8, 50u8, 46u8, 48u8, 34u8, 44u8, 34u8, 105u8, 100u8, 34u8, 58u8, 49u8, 44u8, 34u8, 109u8, 101u8, 116u8, 104u8, 111u8, 100u8, 34u8, 58u8, 34u8, 115u8, 101u8, 110u8, 100u8, 84u8, 114u8, 97u8, 110u8, 115u8, 97u8, 99u8, 116u8, 105u8, 111u8, 110u8, 34u8, 44u8, 34u8, 112u8, 97u8, 114u8, 97u8, 109u8, 115u8, 34u8, 58u8, 91u8, 34u8];
    proof {
        assert(r@ =~= spec_rpc_send_prefix());
    }
    append_bytes(&mut r, tx_b64);
    let suffix: Vec<u8> = vec![34u8, 44u8, 123u8, 34u8, 101u8, 110u8, 99u8, 111u8, 100u8, 105u8, 110u8, 103u8, 34u8, 58u8, 34u8, 98u8, 97u8, 115u8, 101u8, 54u8, 52u8, 34u8, 44u8, 34u8, 115u8, 107u8, 105u8, 112u8, 80u8, 114u8, 101u8, 102u8, 108u8, 105u8, 103u8, 104u8, 116u8, 34u8, 58u8, 116u8, 114u8, 117u8, 101u8, 125u8, 93u8, 125u8];
    proof {
        assert(suffix@ =~= spec_rpc_send_suffix());
    }
    append_bytes(&mut r, &suffix);
    r
}

/// The JSON-RPC body asking a node for the current block height.
pub open spec fn spec_rpc_block_height_body() -> Seq<u8> {
    seq![123u8, 34u8, 106u8, 115u8, 111u8, 110u8, 114u8, 112u8, 99u8, 34u8, 58u8, 34u8, 50u8, 46u8, 48u8, 34u8, 44u8, 34u8, 105u8, 100u8, 34u8, 58u8, 49u8, 44u8, 34u8, 109u8, 101u8, 116u8, 104u8, 111u8, 100u8, 34u8, 58u8, 34u8, 103u8, 101u8, 116u8, 66u8, 108u8, 111u8, 99u8, 107u8, 72u8, 101u8, 105u8, 103u8, 104u8, 116u8, 34u8, 125u8]
}

/// Builds the block-height JSON-RPC body.
pub fn build_rpc_block_height_body() -> (r: Vec<u8>)
    ensures
        r@ == spec_rpc_block_height_body(),
{
    let r: Vec<u8> = vec![123u8, 34u8, 106u8, 115u8, 111u8, 110u8, 114u8, 112u8, 99u8, 34u8, 58u8, 34u8, 50u8, 46u8, 48u8, 34u8, 44u8, 34u8, 105u8, 100u8, 34u8, 58u8, 49u8, 44u8, 34u8, 109u8, 101u8, 116u8, 104u8, 111u8, 100u8, 34u8, 58u8, 34u8, 103u8, 101u8, 116u8, 66u8, 108u8, 111u8, 99u8, 107u8, 72u8, 101u8, 105u8, 103u8, 104u8, 116u8, 34u8, 125u8];
    proof {
        assert(r@ =~= spec_rpc_block_height_body());
    }
    r
}

/// The dry-run JSON-RPC call, up to the base64 payload.
pub open spec fn spec_rpc_simulate_prefix() -> Seq<u8> {
    seq![123u8, 34u8, 106u8, 115u8, 111u8, 110u8, 114u8, 112u8, 99u8, 34u8, 58u8, 34u8, 50u8, 46u8, 48u8, 34u8, 44u8, 34u8, 105u8, 100u8, 34u8, 58u8, 49u8, 44u8, 34u8, 109u8, 101u8, 116u8, 104u8, 111u8, 100u8, 34u8, 58u8, 34u8, 115u8, 105u8, 109u8, 117u8, 108u8, 97u8, 116u8, 101u8, 84u8, 114u8, 97u8, 110u8, 115u8, 97u8, 99u8, 116u8, 105u8, 111u8, 110u8, 34u8, 44u8, 34u8, 112u8, 97u8, 114u8, 97u8, 109u8, 115u8, 34u8, 58u8, 91u8, 34u8]
}

/// What follows the payload: signature verification off, blockhash
/// substitution on, processed commitment.
pub open spec fn spec_rpc_simulate_suffix() -> Seq<u8> {
    seq![34u8, 44u8, 123u8, 34u8, 101u8, 110u8, 99u8, 111u8, 100u8, 105u8, 110u8, 103u8, 34u8, 58u8, 34u8, 98u8, 97u8, 115u8, 101u8, 54u8, 52u8, 34u8, 44u8, 34u8, 115u8, 105u8, 103u8, 86u8, 101u8, 114u8, 105u8, 102u8, 121u8, 34u8, 58u8, 102u8, 97u8, 108u8, 115u8, 101u8, 44u8, 34u8, 114u8, 101u8, 112u8, 108u8, 97u8, 99u8, 101u8, 82u8, 101u8, 99u8, 101u8, 110u8, 116u8, 66u8, 108u8, 111u8, 99u8, 107u8, 104u8, 97u8, 115u8, 104u8, 34u8, 58u8, 116u8, 114u8, 117u8, 101u8, 44u8, 34u8, 99u8, 111u8, 109u8, 109u8, 105u8, 116u8, 109u8, 101u8, 110u8, 116u8, 34u8, 58u8, 34u8, 112u8, 114u8, 111u8, 99u8, 101u8, 115u8, 115u8, 101u8, 100u8, 34u8, 125u8, 93u8, 125u8]
}

/// The dry-run JSON-RPC body.
pub open spec fn spec_rpc_simulate_body(tx_b64: Seq<u8>) -> Seq<u8> {
    spec_rpc_simulate_prefix() + tx_b64 + spec_rpc_simulate_suffix()
}

/// Builds the dry-run JSON-RPC body: signature verification disabled,
/// blockhash substitution enabled, processed commitment.
pub fn build_rpc_simulate_body(tx_b64: &Vec<u8>) -> (r: Vec<u8>)
    ensures
        r@ == spec_rpc_simulate_body(tx_b64@),
{
    let mut r: Vec<u8> = vec![123u8, 34u8, 106u8, 115u8, 111u8, 110u8, 114u8, 112u8, 99u8, 34u8, 58u8, 34u8, 50u8, 46u8, 48u8, 34u8, 44u8, 34u8, 105u8, 100u8, 34u8, 58u8, 49u8, 44u8, 34u8, 109u8, 101u8, 116u8, 104u8, 111u8, 100u8, 34u8, 58u8, 34u8, 115u8, 105u8, 109u8, 117u8, 108u8, 97u8, 116u8, 101u8, 84u8, 114u8, 97u8, 110u8, 115u8, 97u8, 99u8, 116u8, 105u8, 111u8, 110u8, 34u8, 44u8, 34u8, 112u8, 97u8, 114u8, 97u8, 109u8, 115u8, 34u8, 58u8, 91u8, 34u8];
    proof {
        assert(r@ =~= spec_rpc_simulate_prefix());
    }
    append_bytes(&mut r, tx_b64);
    let suffix: Vec<u8> = vec![34u8, 44u8, 123u8, 34u8, 101u8, 110u8, 99u8, 111u8, 100u8, 105u8, 110u8, 103u8, 34u8, 58u8, 34u8, 98u8, 97u8, 115u8, 101u8, 54u8, 52u8, 34u8, 44u8, 34u8, 115u8, 105u8, 103u8, 86u8, 101u8, 114u8, 105u8, 102u8, 121u8, 34u8, 58u8, 102u8, 97u8, 108u8, 115u8, 101u8, 44u8, 34u8, 114u8, 101u8, 112u8, 108u8, 97u8, 99u8, 101u8, 82u8, 101u8, 99u8, 101u8, 110u8, 116u8, 66u8, 108u8, 111u8, 99u8, 107u8, 104u8, 97u8, 115u8, 104u8, 34u8, 58u8, 116u8, 114u8, 117u8, 101u8, 44u8, 34u8, 99u8, 111u8, 109u8, 109u8, 105u8, 116u8, 109u8, 101u8, 110u8, 116u8, 34u8, 58u8, 34u8, 112u8, 114u8, 111u8, 99u8, 101u8, 115u8, 115u8, 101u8, 100u8, 34u8, 125u8, 93u8, 125u8];
    proof {
        assert(suffix@ =~= spec_rpc_simulate_suffix());
    }
    append_bytes(&mut r, &suffix);
    r
}

/// The first position at or after `i` holding something other than a double
/// quote, or the length if none does.
pub open spec fn spec_first_non_quote(s: Seq<u8>, i: int) -> int
    decreases s.len() - i,
{
    if i < 0 || i >= s.len() {
        s.len() as int
    } else if s[i] != (34u8) {
        i
    } else {
        spec_first_non_quote(s, i + 1)
    }
}

/// One past the last position before `i` holding something other than a
/// double quote, or zero if none does.
pub open spec fn spec_last_non_quote_end(s: Seq<u8>, i: int) -> int
    decreases i,
{
    if i <= 0 {
        0
    } else if s[i - 1] != (34u8) {
        i
    } else {
        spec_last_non_quote_end(s, i - 1)
    }
}

/// The byte string with every leading and trailing double quote removed.
pub open spec fn spec_strip_quotes(s: Seq<u8>) -> Seq<u8> {
    let a = spec_first_non_quote(s, 0);
    let b = spec_last_non_quote_end(s, s.len() as int);
    if a < b {
        s.subrange(a, b)
    } else {
        Seq::empty()
    }
}

pub proof fn lemma_first_non_quote_bounds(s: Seq<u8>, i: int)
    requires
        0 <= i <= s.len(),
    ensures
        i <= spec_first_non_quote(s, i) <= s.len(),
    decreases s.len() - i,
{
    if i < s.len() && s[i] == 34u8 {
        lemma_first_non_quote_bounds(s, i + 1);
    }
}

pub proof fn lemma_last_non_quote_end_bounds(s: Seq<u8>, i: int)
    requires
        0 <= i <= s.len(),
    ensures
        0 <= spec_last_non_quote_end(s, i) <= i,
    decreases i,
{
    if i > 0 && s[i - 1] == 34u8 {
        lemma_last_non_quote_end_bounds(s, i - 1);
    }
}

/// Removes every leading and trailing double quote.
pub fn strip_quotes(s: &Vec<u8>) -> (r: Vec<u8>)
    ensures
        r@ == spec_strip_quotes(s@),
{
    let mut a: usize = 0;
    while a < s.len() && s[a] == 34u8
        invariant
            a <= s@.len(),
            spec_first_non_quote(s@, 0) == spec_first_non_quote(s@, a as int),
        decreases s@.len() - a,
    {
        a = a + 1;
    }
    let mut b: usize = s.len();
    while b > a && s[b - 1] == 34u8
        invariant
            a <= b <= s@.len(),
            spec_last_non_quote_end(s@, s@.len() as int) == spec_last_non_quote_end(s@, b as int),
            forall|k: int| b <= k < s@.len() ==> s@[k] == (34u8),
        decreases b,
    {
        b = b - 1;
    }
    proof {
        lemma_first_non_quote_bounds(s@, 0);
        lemma_last_non_quote_end_bounds(s@, s@.len() as int);
    }
    let mut r: Vec<u8> = Vec::new();
    let mut i: usize = a;
    while i < b
        invariant
            a <= i <= b <= s@.len(),
            r@ == s@.subrange(a as int, i as int),
        decreases b - i,
    {
        r.push(s[i]);
        proof {
            assert(s@.subrange(a as int, i as int + 1) =~= s@.subrange(a as int, i as int).push(
                s@[i as int],
            ));
        }
        i = i + 1;
    }
    proof {
        assert(r@ =~= spec_strip_quotes(s@));
    }
    r
}

/// The signature text taken from an HTTP relay's answer: the JSON
/// `signature` field when the body parses as such an object, else the body
/// with its surrounding quotes stripped.
pub open spec fn spec_http_extracted_sig(body: Seq<u8>) -> Seq<u8> {
    match json_sig_of(body) {
        Some(s) => s,
        None => spec_strip_quotes(body),
    }
}

/// Interprets an HTTP relay's answer: a non-success status is an error
/// carrying the body; otherwise the signature is the JSON field or the
/// quote-stripped body, and it must be valid signature text.
pub fn interpret_http_relay_response(status_ok: bool, body: Vec<u8>) -> (r: Result<
    TxResult,
    RelayError,
>)
    ensures
        ({
            let sig = spec_http_extracted_sig(body@);
            match r {
                Ok(TxResult::Signature(s)) => status_ok && sig_text_ok(sig) && s@ == sig,
                Ok(TxResult::BundleID(_)) => false,
                Err(RelayError::SubmitRejected(b)) => !status_ok && b@ == body@,
                Err(RelayError::InvalidSignature(s)) => status_ok && !sig_text_ok(sig) && s@
                    == sig,
                Err(RelayError::SerializeFailed) => false,
            }
        }),
{
    if !status_ok {
        return Err(RelayError::SubmitRejected(body));
    }
    let sig = match json_signature_field(&body) {
        Some(s) => s,
        None => strip_quotes(&body),
    };
    if crate::chain::valid_signature_text(&sig) {
        Ok(TxResult::Signature(sig))
    } else {
        Err(RelayError::InvalidSignature(sig))
    }
}

/// Interprets the direct node's answer to a JSON-RPC submission: a
/// non-success status, or an answer without a `result` string field (the
/// node's error object), is an error carrying the body; otherwise the
/// `result` field must be valid signature text.
pub fn interpret_rpc_send_response(status_ok: bool, body: Vec<u8>) -> (r: Result<
    TxResult,
    RelayError,
>)
    ensures
        ({
            match r {
                Ok(TxResult::Signature(s)) => status_ok && json_result_of(body@) == Some(s@)
                    && sig_text_ok(s@),
                Ok(TxResult::BundleID(_)) => false,
                Err(RelayError::SubmitRejected(b)) => b@ == body@ && (!status_ok || json_result_of(
                    body@,
                ) is None),
                Err(RelayError::InvalidSignature(s)) => status_ok && json_result_of(body@) == Some(
                    s@,
                ) && !sig_text_ok(s@),
                Err(RelayError::SerializeFailed) => false,
            }
        }),
{
    if !status_ok {
        return Err(RelayError::SubmitRejected(body));
    }
    let sig = match json_result_field(&body) {
        Some(s) => s,
        None => {
            return Err(RelayError::SubmitRejected(body));
        },
    };
    if crate::chain::valid_signature_text(&sig) {
        Ok(TxResult::Signature(sig))
    } else {
        Err(RelayError::InvalidSignature(sig))
    }
}

/// Interprets the bundle relay's answer: a non-success status is an error
/// carrying the body; otherwise the bundle identifier is the body with its
/// surrounding quotes stripped.
pub fn interpret_bundle_response(status_ok: bool, body: Vec<u8>) -> (r: Result<TxResult, RelayError>)
    ensures
        match r {
            Ok(TxResult::BundleID(b)) => status_ok && b@ == spec_strip_quotes(body@),
            Ok(TxResult::Signature(_)) => false,
            Err(RelayError::SubmitRejected(b)) => !status_ok && b@ == body@,
            Err(RelayError::InvalidSignature(_)) => false,
            Err(RelayError::SerializeFailed) => false,
        },
{
    if !status_ok {
        return Err(RelayError::SubmitRejected(body));
    }
    Ok(TxResult::BundleID(strip_quotes(&body)))
}

} // verus!
