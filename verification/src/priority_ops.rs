use vstd::prelude::*;

use crate::be_bytes::{
    be_val, copy_range, lemma_be_val2, lemma_be_val3, lemma_be_val_bound, pow256, read_be_u128,
};
use crate::errors::{OpError, OpKind, PubdataFault};
use crate::params::{
    ACCOUNT_ID_LIMIT, DEPOSIT_CHUNKS, DEPOSIT_OP_CODE, DEPOSIT_PUBDATA_BYTES, FULL_EXIT_CHUNKS,
    FULL_EXIT_ENCODED_BYTES, FULL_EXIT_OP_CODE, FULL_EXIT_PUBDATA_BYTES,
};

verus! {

/// A deposit observed on chain: funds moved from an ethereum address to a
/// rollup account. The amount is the exact unsigned integer read from the
/// 128-bit balance field; token decimals are not applied at this layer.
#[derive(Clone, Debug, PartialEq, Eq)]
pub struct Deposit {
    /// Sending ethereum address, 20 bytes.
    pub from: Vec<u8>,
    /// Token id.
    pub token: u16,
    /// Deposited amount, exact value of the 16-byte big-endian balance field.
    pub amount: u128,
    /// Recipient rollup address, 20 bytes.
    pub to: Vec<u8>,
}

impl Deposit {
    /// Both addresses hold exactly 20 bytes.
    pub open spec fn well_formed(self) -> bool {
        &&& self.from@.len() == 20
        &&& self.to@.len() == 20
    }
}

/// A forced exit of a whole account balance to an ethereum address.
#[derive(Clone, Debug, PartialEq, Eq)]
pub struct FullExit {
    /// Rollup account id; fits the protocol's three-byte account-id width.
    pub account_id: u32,
    /// Target ethereum address, 20 bytes.
    pub eth_address: Vec<u8>,
    /// Token id.
    pub token: u16,
}

impl FullExit {
    /// The account id fits its pubdata width and the address holds exactly
    /// 20 bytes.
    pub open spec fn well_formed(self) -> bool {
        &&& self.account_id < ACCOUNT_ID_LIMIT
        &&& self.eth_address@.len() == 20
    }
}

/// The fields of `d` are exactly the ones laid out in the 58-byte deposit
/// pubdata `pd`: sender address, token id, amount, recipient address, in
/// order, integers big-endian.
pub open spec fn deposit_matches(d: Deposit, pd: Seq<u8>) -> bool {
    &&& d.from@ == pd.subrange(0, 20)
    &&& d.token == be_val(pd.subrange(20, 22))
    &&& d.amount == be_val(pd.subrange(22, 38))
    &&& d.to@ == pd.subrange(38, 58)
}

/// The fields of `f` are exactly the ones laid out in the 25-byte full-exit
/// pubdata `pd`: account id, ethereum address, token id, in order, integers
/// big-endian.
pub open spec fn full_exit_matches(f: FullExit, pd: Seq<u8>) -> bool {
    &&& f.account_id == be_val(pd.subrange(0, 3))
    &&& f.eth_address@ == pd.subrange(3, 23)
    &&& f.token == be_val(pd.subrange(23, 25))
}

/// `r` is the canonical full-exit encoding of `f`: the full-exit tag byte,
/// the account id truncated to its three-byte width, the address, and the
/// token id, 26 bytes in all.
pub open spec fn full_exit_encoded(f: FullExit, r: Seq<u8>) -> bool {
    &&& r.len() == FULL_EXIT_ENCODED_BYTES
    &&& r[0] == FULL_EXIT_OP_CODE
    &&& be_val(r.subrange(1, 4)) == f.account_id % ACCOUNT_ID_LIMIT
    &&& r.subrange(4, 24) == f.eth_address@
    &&& be_val(r.subrange(24, 26)) == f.token
}

impl FullExit {
    /// Canonical byte form consumed by downstream hashing and verification:
    /// the tag byte, then the account id with its most significant storage
    /// byte dropped, then the address, then the token id.
    pub fn get_bytes(&self) -> (r: Vec<u8>)
        requires
            self.eth_address@.len() == 20,
        ensures
            full_exit_encoded(*self, r@),
    {
        let a = self.account_id;
        let t = self.token;
        proof {
            assert(((a >> 16) & 0xff) < 256 && ((a >> 8) & 0xff) < 256 && (a & 0xff) < 256)
                by (bit_vector);
            assert(((t >> 8) & 0xff) < 256 && (t & 0xff) < 256) by (bit_vector);
        }
        let b0 = ((a >> 16) & 0xff) as u8;
        let b1 = ((a >> 8) & 0xff) as u8;
        let b2 = (a & 0xff) as u8;
        let t0 = ((t >> 8) & 0xff) as u8;
        let t1 = (t & 0xff) as u8;
        let mut out: Vec<u8> = Vec::new();
        out.push(FULL_EXIT_OP_CODE);
        out.push(b0);
        out.push(b1);
        out.push(b2);
        proof {
            assert(out@ =~= seq![FULL_EXIT_OP_CODE, b0, b1, b2]);
        }
        let mut i: usize = 0;
        while i < 20
            invariant
                i <= 20,
                self.eth_address@.len() == 20,
                out@ == seq![FULL_EXIT_OP_CODE, b0, b1, b2]
                    + self.eth_address@.subrange(0, i as int),
            decreases 20 - i,
        {
            out.push(self.eth_address[i]);
            proof {
                assert(seq![FULL_EXIT_OP_CODE, b0, b1, b2]
                    + self.eth_address@.subrange(0, i + 1)
                    =~= (seq![FULL_EXIT_OP_CODE, b0, b1, b2]
                        + self.eth_address@.subrange(0, i as int)).push(self.eth_address@[i as int]));
            }
            i = i + 1;
        }
        out.push(t0);
        out.push(t1);
        proof {
            assert(self.eth_address@.subrange(0, 20) =~= self.eth_address@);
            assert(out@ =~= seq![FULL_EXIT_OP_CODE, b0, b1, b2] + self.eth_address@
                + seq![t0, t1]);
            assert(out@.subrange(1, 4) =~= seq![b0, b1, b2]);
            assert(out@.subrange(4, 24) =~= self.eth_address@);
            assert(out@.subrange(24, 26) =~= seq![t0, t1]);
            lemma_be_val3(b0, b1, b2);
            lemma_be_val2(t0, t1);
            assert(a % 0x100_0000 == ((a >> 16) & 0xff) * 0x1_0000 + ((a >> 8) & 0xff) * 0x100
                + (a & 0xff)) by (bit_vector);
            assert(t == ((t >> 8) & 0xff) * 0x100 + (t & 0xff)) by (bit_vector);
        }
        out
    }
}

/// A priority operation: the tagged union over the two known kinds. A new
/// kind needs a new discriminant byte and a new codec; nothing is inferred
/// from data shape.
#[derive(Clone, Debug, PartialEq, Eq)]
pub enum FranklinPriorityOp {
    Deposit(Deposit),
    FullExit(FullExit),
}

/// The block-chunk cost registered for the operation kind of `op`.
pub open spec fn chunks_of(op: FranklinPriorityOp) -> usize {
    match op {
        FranklinPriorityOp::Deposit(_) => DEPOSIT_CHUNKS,
        FranklinPriorityOp::FullExit(_) => FULL_EXIT_CHUNKS,
    }
}

impl FranklinPriorityOp {
    /// Decodes a pubdata buffer against the layout selected by the
    /// discriminant byte. Succeeds exactly when the discriminant names a
    /// known kind and the buffer length equals that kind's layout length;
    /// a buffer that is too short or has trailing bytes is rejected, never
    /// truncated.
    pub fn parse_from_priority_queue_logs(pub_data: &Vec<u8>, op_type_id: u8) -> (r: Result<
        FranklinPriorityOp,
        OpError,
    >)
        ensures
            op_type_id == DEPOSIT_OP_CODE && pub_data@.len() == DEPOSIT_PUBDATA_BYTES ==> (r
                matches Ok(op) && op matches FranklinPriorityOp::Deposit(d) && deposit_matches(
                d,
                pub_data@,
            ) && d.well_formed()),
            op_type_id == DEPOSIT_OP_CODE && pub_data@.len() < DEPOSIT_PUBDATA_BYTES ==> r == Err::<
                FranklinPriorityOp,
                OpError,
            >(OpError::MalformedPubdata(OpKind::Deposit, PubdataFault::TooShort)),
            op_type_id == DEPOSIT_OP_CODE && pub_data@.len() > DEPOSIT_PUBDATA_BYTES ==> r == Err::<
                FranklinPriorityOp,
                OpError,
            >(OpError::MalformedPubdata(OpKind::Deposit, PubdataFault::InputTooBig)),
            op_type_id == FULL_EXIT_OP_CODE && pub_data@.len() == FULL_EXIT_PUBDATA_BYTES ==> (r
                matches Ok(op) && op matches FranklinPriorityOp::FullExit(f) && full_exit_matches(
                f,
                pub_data@,
            ) && f.well_formed()),
            op_type_id == FULL_EXIT_OP_CODE && pub_data@.len() < FULL_EXIT_PUBDATA_BYTES ==> r
                == Err::<FranklinPriorityOp, OpError>(OpError::MalformedPubdata(
                OpKind::FullExit,
                PubdataFault::TooShort,
            )),
            op_type_id == FULL_EXIT_OP_CODE && pub_data@.len() > FULL_EXIT_PUBDATA_BYTES ==> r
                == Err::<FranklinPriorityOp, OpError>(OpError::MalformedPubdata(
                OpKind::FullExit,
                PubdataFault::InputTooBig,
            )),
            op_type_id != DEPOSIT_OP_CODE && op_type_id != FULL_EXIT_OP_CODE ==> r == Err::<
                FranklinPriorityOp,
                OpError,
            >(OpError::UnsupportedOperationType(op_type_id)),
    {
        if op_type_id == DEPOSIT_OP_CODE {
            if pub_data.len() < DEPOSIT_PUBDATA_BYTES {
                return Err(OpError::MalformedPubdata(OpKind::Deposit, PubdataFault::TooShort));
            }
            if pub_data.len() > DEPOSIT_PUBDATA_BYTES {
                return Err(OpError::MalformedPubdata(OpKind::Deposit, PubdataFault::InputTooBig));
            }
            let from = copy_range(pub_data, 0, 20);
            let token_wide = read_be_u128(pub_data, 20, 22);
            let amount = read_be_u128(pub_data, 22, 38);
            let to = copy_range(pub_data, 38, 58);
            proof {
                lemma_be_val_bound(pub_data@.subrange(20, 22));
                assert(pow256(2) == 0x1_0000) by {
                    reveal_with_fuel(pow256, 3);
                }
            }
            let token = token_wide as u16;
            Ok(FranklinPriorityOp::Deposit(Deposit { from, token, amount, to }))
        } else if op_type_id == FULL_EXIT_OP_CODE {
            if pub_data.len() < FULL_EXIT_PUBDATA_BYTES {
                return Err(OpError::MalformedPubdata(OpKind::FullExit, PubdataFault::TooShort));
            }
            if pub_data.len() > FULL_EXIT_PUBDATA_BYTES {
                return Err(OpError::MalformedPubdata(OpKind::FullExit, PubdataFault::InputTooBig));
            }
            let account_wide = read_be_u128(pub_data, 0, 3);
            let eth_address = copy_range(pub_data, 3, 23);
            let token_wide = read_be_u128(pub_data, 23, 25);
            proof {
                lemma_be_val_bound(pub_data@.subrange(0, 3));
                lemma_be_val_bound(pub_data@.subrange(23, 25));
                assert(pow256(2) == 0x1_0000 && pow256(3) == 0x100_0000) by {
                    reveal_with_fuel(pow256, 4);
                }
            }
            let account_id = account_wide as u32;
            let token = token_wide as u16;
            Ok(FranklinPriorityOp::FullExit(FullExit { account_id, eth_address, token }))
        } else {
            Err(OpError::UnsupportedOperationType(op_type_id))
        }
    }

    /// Block-chunk cost of this operation when included in a batch.
    pub fn chunks(&self) -> (r: usize)
        ensures
            r == chunks_of(*self),
    {
        match self {
            FranklinPriorityOp::Deposit(_) => DEPOSIT_CHUNKS,
            FranklinPriorityOp::FullExit(_) => FULL_EXIT_CHUNKS,
        }
    }
}

/// Law: decoding the pubdata portion of a canonical full-exit encoding
/// recovers the encoded value exactly, field for field.
pub proof fn lemma_full_exit_round_trip(orig: FullExit, enc: Seq<u8>, dec: FullExit)
    requires
        orig.well_formed(),
        full_exit_encoded(orig, enc),
        full_exit_matches(dec, enc.skip(1)),
    ensures
        dec.account_id == orig.account_id,
        dec.eth_address@ == orig.eth_address@,
        dec.token == orig.token,
        dec.well_formed(),
{
    assert(enc.skip(1).subrange(0, 3) =~= enc.subrange(1, 4));
    assert(enc.skip(1).subrange(3, 23) =~= enc.subrange(4, 24));
    assert(enc.skip(1).subrange(23, 25) =~= enc.subrange(24, 26));
}

} // verus!

