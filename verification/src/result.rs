//! The outcome of a transaction as the blockchain records it: its status
//! code, its stored byte form and its hash.
use std::borrow::Cow;
use vstd::prelude::*;
use vstd::utf8::*;

use crate::digest::{sha256, sha256_digest};
use crate::error::{TransactionError, TransactionErrorType, TransactionErrorView};

verus! {

broadcast use {vstd::utf8::encode_utf8_valid_utf8, vstd::utf8::encode_utf8_decode_utf8};

/// User-defined error codes (`TransactionErrorType::Code(u8)`) have a
/// `0..=255` range.
pub const MAX_ERROR_CODE: u16 = 255;

/// Status that represents the `Ok(())` transaction result.
pub const TRANSACTION_STATUS_OK: u16 = MAX_ERROR_CODE + 1;

/// Status that represents `Err(TransactionErrorType::Panic)`.
pub const TRANSACTION_STATUS_PANIC: u16 = TRANSACTION_STATUS_OK + 1;

/// Extended version of `ExecutionResult`, with the panics that the framework
/// sets, as it is stored in the blockchain for each executed transaction.
#[derive(Debug, PartialEq)]
pub struct TransactionResult(pub Result<(), TransactionError>);

/// The mathematical content of a `TransactionResult`.
pub type TransactionResultView = Result<(), TransactionErrorView>;

impl View for TransactionResult {
    type V = TransactionResultView;

    open spec fn view(&self) -> TransactionResultView {
        match self.0 {
            Ok(()) => Ok(()),
            Err(e) => Err(e@),
        }
    }
}

/// The status code of a result: the error code for a user error, and the two
/// codes after all error codes for success and for a panic.
pub open spec fn status_code(v: TransactionResultView) -> u16 {
    match v {
        Ok(()) => TRANSACTION_STATUS_OK,
        Err(e) => match e.error_type {
            TransactionErrorType::Panic => TRANSACTION_STATUS_PANIC,
            TransactionErrorType::Code(c) => c as u16,
        },
    }
}

/// What a status code tells of a result: `None` for success, else the type of
/// the error.
pub open spec fn outcome(v: TransactionResultView) -> Option<TransactionErrorType> {
    match v {
        Ok(()) => None,
        Err(e) => Some(e.error_type),
    }
}

/// The description that a result carries: that of its error, if any.
pub open spec fn result_description(v: TransactionResultView) -> Option<Seq<char>> {
    match v {
        Ok(()) => None,
        Err(e) => e.description,
    }
}

/// The two bytes of a `u16`, least significant first.
pub open spec fn u16_le_bytes(v: u16) -> Seq<u8> {
    seq![(v % 256) as u8, (v / 256) as u8]
}

/// The `u16` that two bytes encode, least significant first.
pub open spec fn u16_from_le(lo: u8, hi: u8) -> int {
    lo + 256 * hi
}

/// The stored form of a result: its status as a little-endian `u16`, then a
/// flag byte that is `1` when a description follows, and the UTF-8 bytes of
/// that description.
pub open spec fn encode_result(v: TransactionResultView) -> Seq<u8> {
    u16_le_bytes(status_code(v)) + match result_description(v) {
        Some(d) => seq![1u8] + encode_utf8(d),
        None => seq![0u8],
    }
}

/// The byte sequences that `TransactionResult::from_bytes` accepts: at least
/// three bytes, a known status, a flag byte of `0` or `1`, and valid UTF-8
/// after the flag when it is `1`.
pub open spec fn decodable(bytes: Seq<u8>) -> bool {
    &&& bytes.len() >= 3
    &&& u16_from_le(bytes[0], bytes[1]) <= TRANSACTION_STATUS_PANIC
    &&& (bytes[2] == 0 || bytes[2] == 1)
    &&& bytes[2] == 1 ==> valid_utf8(bytes.subrange(3, bytes.len() as int))
}

/// The result that a decodable byte sequence stands for.
pub open spec fn decode_result(bytes: Seq<u8>) -> TransactionResultView {
    let status = u16_from_le(bytes[0], bytes[1]);
    let description = if bytes[2] == 1 {
        Some(decode_utf8(bytes.subrange(3, bytes.len() as int)))
    } else {
        None
    };
    if status <= MAX_ERROR_CODE {
        Err(TransactionErrorView {
            error_type: TransactionErrorType::Code(status as u8),
            description,
        })
    } else if status == TRANSACTION_STATUS_OK {
        Ok(())
    } else {
        Err(TransactionErrorView { error_type: TransactionErrorType::Panic, description })
    }
}

/// The hash of a result: the SHA-256 digest of its status alone.
pub open spec fn result_hash(v: TransactionResultView) -> Seq<u8> {
    sha256_digest(u16_le_bytes(status_code(v)))
}

/// Turns bytes into a `String` with `String::from_utf8`.
/// Claimed of it: it returns a string exactly when the bytes are valid UTF-8,
/// and then the string's UTF-8 encoding is those bytes.
#[verifier::external_body]
fn string_from_utf8(bytes: Vec<u8>) -> (s: Option<String>)
    ensures
        s is Some <==> valid_utf8(bytes@),
        s matches Some(t) ==> encode_utf8(t@) == bytes@,
{
    String::from_utf8(bytes).ok()
}

/// Returns the status code under which a transaction result is stored and
/// hashed.
pub fn status_as_u16(status: &TransactionResult) -> (s: u16)
    ensures
        s == status_code(status@),
        status.0 is Ok ==> s == 256,
        status.0 matches Err(e) ==> match e@.error_type {
            TransactionErrorType::Panic => s == 257,
            TransactionErrorType::Code(c) => s == c as u16,
        },
{
    match &status.0 {
        Ok(()) => TRANSACTION_STATUS_OK,
        Err(e) => match e.error_type() {
            TransactionErrorType::Panic => TRANSACTION_STATUS_PANIC,
            TransactionErrorType::Code(c) => c as u16,
        },
    }
}

impl Clone for TransactionResult {
    fn clone(&self) -> (r: Self)
        ensures
            r == *self,
    {
        match &self.0 {
            Ok(u) => {
                assert(*u == ());
                TransactionResult(Ok(()))
            },
            Err(e) => TransactionResult(Err(e.clone())),
        }
    }
}

impl TransactionResult {
    /// Returns the hash of this result, computed from its status code only:
    /// the description of an error does not take part in it.
    pub fn hash(&self) -> (h: crate::context::Hash)
        ensures
            h@ == result_hash(self@),
            self.0 is Ok ==> h@ == sha256_digest(seq![0u8, 1u8]),
            self.0 matches Err(e) ==> match e@.error_type {
                TransactionErrorType::Panic => h@ == sha256_digest(seq![1u8, 1u8]),
                TransactionErrorType::Code(c) => h@ == sha256_digest(seq![c, 0u8]),
            },
    {
        proof {
            lemma_hash_of_status_bytes(self@);
        }
        let status = status_as_u16(self);
        let bytes: [u8; 2] = [(status % 256) as u8, (status / 256) as u8];
        assert(bytes@ == u16_le_bytes(status));
        sha256(&bytes)
    }

    /// Serializes this result: the status as a little-endian `u16`, then `1`
    /// and the UTF-8 bytes of the error description if there is one, or `0`.
    pub fn into_bytes(self) -> (bytes: Vec<u8>)
        ensures
            bytes@ == encode_result(self@),
            self.0 is Ok ==> bytes@ == seq![0u8, 1u8, 0u8],
            self.0 matches Err(e) ==> match e@.error_type {
                TransactionErrorType::Panic => bytes@[0] == 1 && bytes@[1] == 1,
                TransactionErrorType::Code(c) => bytes@[0] == c && bytes@[1] == 0,
            },
    {
        proof {
            lemma_stored_layout(self@);
        }
        let status = status_as_u16(&self);
        let mut res: Vec<u8> = Vec::new();
        res.push((status % 256) as u8);
        res.push((status / 256) as u8);
        let ghost v = self@;
        let description = match self.0 {
            Ok(()) => None,
            Err(e) => e.into_description(),
        };
        assert(crate::error::opt_chars(description) == result_description(v));
        match description {
            Some(d) => {
                res.push(1u8);
                let b = d.as_str().as_bytes();
                let ghost prefix = res@;
                let mut i: usize = 0;
                while i < b.len()
                    invariant
                        i <= b@.len(),
                        res@ == prefix + b@.subrange(0, i as int),
                    decreases b@.len() - i,
                {
                    res.push(b[i]);
                    i = i + 1;
                    assert(b@.subrange(0, i as int) == b@.subrange(0, i - 1) + seq![b@[i - 1]]);
                }
                assert(b@.subrange(0, b@.len() as int) == b@);
            },
            None => {
                res.push(0u8);
            },
        }
        res
    }

    /// Deserializes a result from its stored form. The input must be one that
    /// the stored form allows (see `decodable`).
    pub fn from_bytes(bytes: Cow<[u8]>) -> (r: Self)
        requires
            decodable(bytes@),
        ensures
            r@ == decode_result(bytes@),
            bytes@[1] == 0 ==> (r.0 matches Err(e) && e@.error_type == TransactionErrorType::Code(
                bytes@[0],
            )),
            bytes@[1] == 1 && bytes@[0] == 0 ==> r.0 is Ok,
            bytes@[1] == 1 && bytes@[0] == 1 ==> (r.0 matches Err(e) && e@.error_type
                == TransactionErrorType::Panic),
    {
        proof {
            lemma_decode_layout(bytes@);
        }
        let b: &[u8] = match &bytes {
            Cow::Borrowed(s) => s,
            Cow::Owned(v) => v.as_slice(),
        };
        assert(b@ == bytes@);
        let status: u16 = b[0] as u16 + 256 * (b[1] as u16);
        let description = if b[2] == 1 {
            let mut tail: Vec<u8> = Vec::new();
            let mut i: usize = 3;
            while i < b.len()
                invariant
                    3 <= i <= b@.len(),
                    tail@ == b@.subrange(3, i as int),
                decreases b@.len() - i,
            {
                tail.push(b[i]);
                i = i + 1;
            }
            match string_from_utf8(tail) {
                Some(s) => Some(s),
                None => None,
            }
        } else {
            None
        };
        if status <= MAX_ERROR_CODE {
            TransactionResult(Err(TransactionError::code(status as u8, description)))
        } else if status == TRANSACTION_STATUS_OK {
            TransactionResult(Ok(()))
        } else {
            TransactionResult(Err(TransactionError::panic(description)))
        }
    }
}

/// Reading back the stored form of a result gives the same result: every
/// stored form is accepted by `from_bytes`, and decodes to what was stored.
pub proof fn lemma_round_trip(v: TransactionResultView)
    ensures
        decodable(encode_result(v)),
        decode_result(encode_result(v)) == v,
{
    let bytes = encode_result(v);
    let status = status_code(v);
    assert(bytes[0] == (status % 256) as u8 && bytes[1] == (status / 256) as u8);
    assert(u16_from_le(bytes[0], bytes[1]) == status);
    match result_description(v) {
        Some(d) => {
            assert(bytes.subrange(3, bytes.len() as int) =~= encode_utf8(d));
        },
        None => {},
    }
    match v {
        Ok(u) => {
            assert(u == ());
        },
        Err(e) => {
            assert(e.description == result_description(v));
        },
    }
}

/// The status code of a result tells exactly whether it is a success, a panic
/// or a user error with a given code: two results have the same status code if
/// and only if they have the same outcome.
pub proof fn lemma_status_determines_outcome(a: TransactionResultView, b: TransactionResultView)
    ensures
        (status_code(a) == status_code(b)) <==> (outcome(a) == outcome(b)),
{
}

/// The hash of a result depends on its outcome only: results that differ in
/// the description of their error alone have the same hash.
pub proof fn lemma_hash_ignores_description(a: TransactionResultView, b: TransactionResultView)
    requires
        outcome(a) == outcome(b),
    ensures
        result_hash(a) == result_hash(b),
{
}

/// The status of a result is its error code for a user error, 256 for a
/// success and 257 for a panic; user errors' statuses stay below 256.
pub proof fn lemma_status_values(v: TransactionResultView)
    ensures
        v is Ok ==> status_code(v) == 256,
        v matches Err(e) ==> match e.error_type {
            TransactionErrorType::Panic => status_code(v) == 257,
            TransactionErrorType::Code(c) => status_code(v) == c as u16 && status_code(v) < 256,
        },
{
}

/// The hash of a result is the SHA-256 digest of the two little-endian bytes
/// of its status: `[0, 1]` for a success, `[1, 1]` for a panic and `[c, 0]` for
/// the user error code `c`.
pub proof fn lemma_hash_of_status_bytes(v: TransactionResultView)
    ensures
        v is Ok ==> result_hash(v) == sha256_digest(seq![0u8, 1u8]),
        v matches Err(e) ==> match e.error_type {
            TransactionErrorType::Panic => result_hash(v) == sha256_digest(seq![1u8, 1u8]),
            TransactionErrorType::Code(c) => result_hash(v) == sha256_digest(seq![c, 0u8]),
        },
{
}

/// Results with different outcomes are hashed from different byte strings,
/// and results with the same outcome from the same one.
pub proof fn lemma_hashed_bytes_distinguish_outcomes(a: TransactionResultView, b: TransactionResultView)
    ensures
        (u16_le_bytes(status_code(a)) == u16_le_bytes(status_code(b))) <==> (outcome(a) == outcome(b)),
        result_hash(a) == sha256_digest(u16_le_bytes(status_code(a))),
        u16_le_bytes(status_code(a)).len() == 2,
{
    let x = u16_le_bytes(status_code(a));
    let y = u16_le_bytes(status_code(b));
    if x == y {
        assert(x[0] == y[0] && x[1] == y[1]);
        assert(status_code(a) == status_code(b));
    }
}

/// The layout of the stored form: the first two bytes are the status, least
/// significant first (`[c, 0]` for the user error code `c`, `[0, 1]` for a
/// success, `[1, 1]` for a panic); then `1` followed by the UTF-8 bytes of the
/// error's description, or a single `0` when there is none.
pub proof fn lemma_stored_layout(v: TransactionResultView)
    ensures
        encode_result(v).len() >= 3,
        v is Ok ==> encode_result(v) == seq![0u8, 1u8, 0u8],
        v matches Err(e) ==> match e.error_type {
            TransactionErrorType::Panic => encode_result(v)[0] == 1 && encode_result(v)[1] == 1,
            TransactionErrorType::Code(c) => encode_result(v)[0] == c && encode_result(v)[1] == 0,
        },
        v matches Err(e) ==> match e.description {
            Some(d) => encode_result(v)[2] == 1 && encode_result(v).subrange(3, encode_result(v).len() as int)
                == encode_utf8(d),
            None => encode_result(v).len() == 3 && encode_result(v)[2] == 0,
        },
{
    let bytes = encode_result(v);
    match result_description(v) {
        Some(d) => {
            assert(bytes.subrange(3, bytes.len() as int) =~= encode_utf8(d));
        },
        None => {},
    }
    match v {
        Ok(u) => {
            assert(bytes =~= seq![0u8, 1u8, 0u8]);
        },
        Err(e) => {
            assert(e.description == result_description(v));
        },
    }
}

/// How stored bytes are read: a second byte of `0` makes the first byte a user
/// error code, `[0, 1]` a success and `[1, 1]` a panic; no other status is
/// accepted. An error carries the UTF-8 text after a flag of `1`, and no
/// description after a flag of `0`.
pub proof fn lemma_decode_layout(bytes: Seq<u8>)
    requires
        decodable(bytes),
    ensures
        bytes[1] == 0 || (bytes[1] == 1 && bytes[0] <= 1),
        bytes[1] == 0 ==> (decode_result(bytes) matches Err(e) && e.error_type
            == TransactionErrorType::Code(bytes[0])),
        bytes[1] == 1 && bytes[0] == 0 ==> decode_result(bytes) is Ok,
        bytes[1] == 1 && bytes[0] == 1 ==> (decode_result(bytes) matches Err(e) && e.error_type
            == TransactionErrorType::Panic),
        decode_result(bytes) matches Err(e) ==> (e.description == if bytes[2] == 1 {
            Some(decode_utf8(bytes.subrange(3, bytes.len() as int)))
        } else {
            None::<Seq<char>>
        }),
{
}

} // verus!
