use vstd::prelude::*;

use crate::be_bytes::{
    be_val, copy_range, lemma_be_val_concat, lemma_be_val_zero_iff, pow256, range_is_zero,
    read_be_u128,
};
use crate::errors::OpError;
use crate::params::ABI_WORD_BYTES;
use crate::priority_ops::FranklinPriorityOp;

verus! {

/// A contract-event log record, reduced to what the envelope decoder reads:
/// the ABI-encoded data payload and the hash of the transaction the log was
/// mined in, absent when the log does not come from a mined transaction.
#[derive(Clone, Debug, PartialEq, Eq)]
pub struct EventLog {
    pub data: Vec<u8>,
    pub transaction_hash: Option<Vec<u8>>,
}

/// A fully decoded priority operation together with its envelope metadata.
#[derive(Clone, Debug, PartialEq, Eq)]
pub struct PriorityOp {
    /// Contract-assigned, strictly increasing identifier.
    pub serial_id: u64,
    /// The decoded operation.
    pub data: FranklinPriorityOp,
    /// Block number after which the operation expires.
    pub deadline_block: u64,
    /// Fee paid on chain, as the exact 32-byte big-endian unsigned integer
    /// read from the envelope.
    pub eth_fee: Vec<u8>,
    /// Hash of the transaction that emitted the log.
    pub eth_hash: Vec<u8>,
}

/// Whether the ABI decode of `data` against the fixed five-field envelope
/// schema (uint64 serial id, uint8 op type, bytes pubdata, uint256 deadline
/// block, uint256 fee) succeeds. The decode is a function of the payload
/// bytes alone, so this and the five field names below are well defined.
pub uninterp spec fn envelope_decodes(data: Seq<u8>) -> bool;

/// The serial-id word of a decodable payload, as 32 big-endian bytes.
pub uninterp spec fn envelope_serial_word(data: Seq<u8>) -> Seq<u8>;

/// The op-type word of a decodable payload, as 32 big-endian bytes.
pub uninterp spec fn envelope_op_word(data: Seq<u8>) -> Seq<u8>;

/// The pubdata byte string of a decodable payload.
pub uninterp spec fn envelope_pubdata(data: Seq<u8>) -> Seq<u8>;

/// The deadline-block word of a decodable payload, as 32 big-endian bytes.
pub uninterp spec fn envelope_deadline_word(data: Seq<u8>) -> Seq<u8>;

/// The fee word of a decodable payload, as 32 big-endian bytes.
pub uninterp spec fn envelope_fee_word(data: Seq<u8>) -> Seq<u8>;

/// Relies on ethabi::decode with the fixed five-type schema: it is
/// deterministic in the payload bytes, yields on success one token per
/// requested type — a `Uint` for each integer, a `Bytes` for the pubdata,
/// which is why the kind test below cannot reject — and fails exactly on
/// payloads that are not a valid encoding of the tuple. The pubdata bytes
/// come out of ethabi::Token::into_bytes unchanged; the four integer tokens
/// go through ethabi::encode, which writes a static 32-byte type as its
/// big-endian word, one word after the other: serial id, op type, deadline
/// block, fee.
#[verifier::external_body]
fn abi_decode_envelope(data: &Vec<u8>) -> (r: Result<(Vec<u8>, Vec<u8>), OpError>)
    ensures
        r matches Ok(w) ==> ({
            &&& envelope_decodes(data@)
            &&& w.0@.len() == 128
            &&& w.0@.subrange(0, 32) == envelope_serial_word(data@)
            &&& w.0@.subrange(32, 64) == envelope_op_word(data@)
            &&& w.0@.subrange(64, 96) == envelope_deadline_word(data@)
            &&& w.0@.subrange(96, 128) == envelope_fee_word(data@)
            &&& w.1@ == envelope_pubdata(data@)
        }),
        r matches Err(e) ==> !envelope_decodes(data@) && e is EnvelopeDecode,
{
    let types = [ethabi::ParamType::Uint(64), ethabi::ParamType::Uint(8),
        ethabi::ParamType::Bytes, ethabi::ParamType::Uint(256), ethabi::ParamType::Uint(256)];
    let mut t = match ethabi::decode(&types, data.as_slice()) {
        Ok(t) => t,
        Err(e) => return Err(OpError::EnvelopeDecode(format!("{:?}", e))),
    };
    match t.remove(2).into_bytes() {
        Some(p) => Ok((ethabi::encode(&t), p)),
        None => Err(OpError::EnvelopeDecode("a token of an unexpected kind".to_owned())),
    }
}

/// Narrows a 32-byte big-endian word to a 64-bit integer. Succeeds exactly
/// when the value fits, and never truncates.
pub fn word_to_u64(w: &Vec<u8>) -> (r: Option<u64>)
    requires
        w@.len() == ABI_WORD_BYTES,
    ensures
        r is Some <==> be_val(w@) < 0x1_0000_0000_0000_0000,
        r matches Some(v) ==> v == be_val(w@),
{
    proof {
        lemma_word_split(w@, 24);
    }
    if range_is_zero(w, 0, 24) {
        proof {
            lemma_be_val_zero_iff(w@.subrange(0, 24));
            assert(pow256(8) == 0x1_0000_0000_0000_0000) by {
                reveal_with_fuel(pow256, 9);
            }
        }
        let v = read_be_u128(w, 24, 32);
        Some(v as u64)
    } else {
        proof {
            lemma_be_val_zero_iff(w@.subrange(0, 24));
            assert(forall|i: int| 0 <= i < 24 ==> w@.subrange(0, 24)[i] == w@[i]);
            assert(be_val(w@.subrange(0, 24)) != 0);
            assert(pow256(8) == 0x1_0000_0000_0000_0000) by {
                reveal_with_fuel(pow256, 9);
            }
            assert(be_val(w@) >= pow256(8)) by (nonlinear_arith)
                requires
                    be_val(w@) == be_val(w@.subrange(0, 24)) * pow256(8)
                        + be_val(w@.subrange(24, 32)),
                    be_val(w@.subrange(0, 24)) >= 1;
        }
        None
    }
}

/// Narrows a 32-byte big-endian word to a single byte. Succeeds exactly
/// when the value fits, and never truncates.
pub fn word_to_u8(w: &Vec<u8>) -> (r: Option<u8>)
    requires
        w@.len() == ABI_WORD_BYTES,
    ensures
        r is Some <==> be_val(w@) < 0x100,
        r matches Some(v) ==> v == be_val(w@),
{
    proof {
        lemma_word_split(w@, 31);
    }
    if range_is_zero(w, 0, 31) {
        proof {
            lemma_be_val_zero_iff(w@.subrange(0, 31));
            assert(pow256(1) == 256) by {
                reveal_with_fuel(pow256, 2);
            }
            assert(w@.subrange(31, 32) =~= seq![w@[31]]);
            assert(seq![w@[31]].drop_last() =~= Seq::<u8>::empty());
            assert(be_val(seq![w@[31]]) == w@[31]);
        }
        Some(w[31])
    } else {
        proof {
            lemma_be_val_zero_iff(w@.subrange(0, 31));
            assert(forall|i: int| 0 <= i < 31 ==> w@.subrange(0, 31)[i] == w@[i]);
            assert(be_val(w@.subrange(0, 31)) != 0);
            assert(pow256(1) == 256) by {
                reveal_with_fuel(pow256, 2);
            }
            assert(be_val(w@) >= pow256(1)) by (nonlinear_arith)
                requires
                    be_val(w@) == be_val(w@.subrange(0, 31)) * pow256(1)
                        + be_val(w@.subrange(31, 32)),
                    be_val(w@.subrange(0, 31)) >= 1;
        }
        None
    }
}

/// The value of a 32-byte word splits at position `k` into a high part,
/// shifted past the low part, plus the low part; with the bound on the low
/// part this pins down when the word fits a narrow integer.
proof fn lemma_word_split(w: Seq<u8>, k: int)
    requires
        w.len() == 32,
        0 <= k <= 32,
    ensures
        be_val(w) == be_val(w.subrange(0, k)) * pow256((32 - k) as nat)
            + be_val(w.subrange(k, 32)),
        be_val(w.subrange(k, 32)) < pow256((32 - k) as nat),
{
    assert(w =~= w.subrange(0, k) + w.subrange(k, 32));
    lemma_be_val_concat(w.subrange(0, k), w.subrange(k, 32));
    crate::be_bytes::lemma_be_val_bound(w.subrange(k, 32));
}

impl PriorityOp {
    /// Assembles a record from the five envelope words and the transaction
    /// hash. This is the whole decision logic that follows the ABI decode:
    /// checked narrowing of the serial id, op type and deadline block, then
    /// pubdata dispatch; every failure is the typed error of the first step
    /// that rejects, in envelope field order, the missing hash last.
    pub fn assemble(
        serial_word: &Vec<u8>,
        op_type_word: &Vec<u8>,
        pub_data: Vec<u8>,
        deadline_word: &Vec<u8>,
        fee_word: Vec<u8>,
        transaction_hash: Option<Vec<u8>>,
    ) -> (r: Result<PriorityOp, OpError>)
        requires
            serial_word@.len() == ABI_WORD_BYTES,
            op_type_word@.len() == ABI_WORD_BYTES,
            deadline_word@.len() == ABI_WORD_BYTES,
            fee_word@.len() == ABI_WORD_BYTES,
        ensures
            assemble_spec(
                serial_word@,
                op_type_word@,
                pub_data@,
                deadline_word@,
                fee_word@,
                transaction_hash,
                r,
            ),
    {
        let serial_id = match word_to_u64(serial_word) {
            Some(v) => v,
            None => {
                return Err(OpError::IntegerRange);
            },
        };
        let op_type = match word_to_u8(op_type_word) {
            Some(v) => v,
            None => {
                return Err(OpError::IntegerRange);
            },
        };
        let data = match FranklinPriorityOp::parse_from_priority_queue_logs(&pub_data, op_type) {
            Ok(op) => op,
            Err(e) => {
                return Err(e);
            },
        };
        let deadline_block = match word_to_u64(deadline_word) {
            Some(v) => v,
            None => {
                return Err(OpError::IntegerRange);
            },
        };
        let eth_hash = match transaction_hash {
            Some(h) => h,
            None => {
                return Err(OpError::MissingTransactionHash);
            },
        };
        Ok(PriorityOp { serial_id, data, deadline_block, eth_fee: fee_word, eth_hash })
    }
}

impl PriorityOp {
    /// Decodes one contract-event log into a priority-operation record, or
    /// the typed error of the first step that rejects it. The result is
    /// fixed for every input, up to the named ABI decode of the payload: a
    /// payload that is no valid encoding of the envelope tuple yields the
    /// envelope-decode error and nothing else ever does; a decodable
    /// payload's fate is `assemble`'s exact contract on its five fields.
    pub fn try_from(event: EventLog) -> (r: Result<PriorityOp, OpError>)
        ensures
            envelope_decodes(event.data@) ==> assemble_spec(
                envelope_serial_word(event.data@),
                envelope_op_word(event.data@),
                envelope_pubdata(event.data@),
                envelope_deadline_word(event.data@),
                envelope_fee_word(event.data@),
                event.transaction_hash,
                r,
            ),
            !envelope_decodes(event.data@) ==> (r matches Err(e) && e is EnvelopeDecode),
    {
        let (words, pub_data) = match abi_decode_envelope(&event.data) {
            Ok(w) => w,
            Err(e) => {
                return Err(e);
            },
        };
        let serial = copy_range(&words, 0, 32);
        let op_type = copy_range(&words, 32, 64);
        let deadline = copy_range(&words, 64, 96);
        let fee = copy_range(&words, 96, 128);
        PriorityOp::assemble(&serial, &op_type, pub_data, &deadline, fee, event.transaction_hash)
    }
}

/// What `PriorityOp::assemble` returns, for every combination of envelope
/// words: which input is rejected with which error, and how each field of a
/// successful record is read from its word.
pub open spec fn assemble_spec(
    serial_word: Seq<u8>,
    op_type_word: Seq<u8>,
    pub_data: Seq<u8>,
    deadline_word: Seq<u8>,
    fee_word: Seq<u8>,
    transaction_hash: Option<Vec<u8>>,
    r: Result<PriorityOp, OpError>,
) -> bool {
    let serial_fits = be_val(serial_word) < 0x1_0000_0000_0000_0000;
    let op_fits = be_val(op_type_word) < 0x100;
    let op_type = be_val(op_type_word) as u8;
    let deadline_fits = be_val(deadline_word) < 0x1_0000_0000_0000_0000;
    &&& !serial_fits ==> r == Err::<PriorityOp, OpError>(OpError::IntegerRange)
    &&& serial_fits && !op_fits ==> r == Err::<PriorityOp, OpError>(OpError::IntegerRange)
    &&& serial_fits && op_fits ==> (match parse_outcome(op_type, pub_data) {
        Err(e) => r == Err::<PriorityOp, OpError>(e),
        Ok(_) => {
            &&& !deadline_fits ==> r == Err::<PriorityOp, OpError>(OpError::IntegerRange)
            &&& deadline_fits && transaction_hash is None ==> r == Err::<PriorityOp, OpError>(
                OpError::MissingTransactionHash,
            )
            &&& deadline_fits ==> (transaction_hash matches Some(h) ==> (r matches Ok(p) && {
                &&& p.serial_id == be_val(serial_word)
                &&& op_type == crate::params::DEPOSIT_OP_CODE ==> (p.data matches
                    FranklinPriorityOp::Deposit(d) && crate::priority_ops::deposit_matches(
                    d,
                    pub_data,
                ))
                &&& op_type == crate::params::FULL_EXIT_OP_CODE ==> (p.data matches
                    FranklinPriorityOp::FullExit(f) && crate::priority_ops::full_exit_matches(
                    f,
                    pub_data,
                ))
                &&& p.deadline_block == be_val(deadline_word)
                &&& p.eth_fee@ == fee_word
                &&& p.eth_hash == h
            }))
        },
    })
}

/// Law: the envelope-decode error marks exactly the payloads the ABI decode
/// rejects. `assemble` admits every other typed error, but never that one,
/// so on a decodable payload `try_from` cannot return it.
pub proof fn lemma_assemble_never_envelope_error(
    serial_word: Seq<u8>,
    op_type_word: Seq<u8>,
    pub_data: Seq<u8>,
    deadline_word: Seq<u8>,
    fee_word: Seq<u8>,
    transaction_hash: Option<Vec<u8>>,
    r: Result<PriorityOp, OpError>,
)
    requires
        assemble_spec(
            serial_word,
            op_type_word,
            pub_data,
            deadline_word,
            fee_word,
            transaction_hash,
            r,
        ),
    ensures
        r matches Err(e) ==> !(e is EnvelopeDecode),
{
}

/// Whether pubdata dispatch succeeds for a discriminant byte and buffer, and
/// with which error it fails: the spec-level shadow of
/// `parse_from_priority_queue_logs`, leaving the decoded fields to that
/// function's own contract.
pub open spec fn parse_outcome(op_type: u8, pub_data: Seq<u8>) -> Result<(), OpError> {
    if op_type == crate::params::DEPOSIT_OP_CODE {
        if pub_data.len() < crate::params::DEPOSIT_PUBDATA_BYTES {
            Err(OpError::MalformedPubdata(
                crate::errors::OpKind::Deposit,
                crate::errors::PubdataFault::TooShort,
            ))
        } else if pub_data.len() > crate::params::DEPOSIT_PUBDATA_BYTES {
            Err(OpError::MalformedPubdata(
                crate::errors::OpKind::Deposit,
                crate::errors::PubdataFault::InputTooBig,
            ))
        } else {
            Ok(())
        }
    } else if op_type == crate::params::FULL_EXIT_OP_CODE {
        if pub_data.len() < crate::params::FULL_EXIT_PUBDATA_BYTES {
            Err(OpError::MalformedPubdata(
                crate::errors::OpKind::FullExit,
                crate::errors::PubdataFault::TooShort,
            ))
        } else if pub_data.len() > crate::params::FULL_EXIT_PUBDATA_BYTES {
            Err(OpError::MalformedPubdata(
                crate::errors::OpKind::FullExit,
                crate::errors::PubdataFault::InputTooBig,
            ))
        } else {
            Ok(())
        }
    } else {
        Err(OpError::UnsupportedOperationType(op_type))
    }
}

} // verus!
