use priority_ops::envelope::{EventLog, PriorityOp};
use priority_ops::errors::{OpError, OpKind, PubdataFault};
use priority_ops::priority_ops::FranklinPriorityOp;

fn deposit_pubdata() -> Vec<u8> {
    let mut pd: Vec<u8> = Vec::new();
    pd.extend_from_slice(&[0x11; 20]);
    pd.extend_from_slice(&7u16.to_be_bytes());
    pd.extend_from_slice(&1_000_000_000_000_000_000u128.to_be_bytes());
    pd.extend_from_slice(&[0x22; 20]);
    pd
}

fn envelope(serial_id: u64, op_type: u8, pubdata: Vec<u8>, deadline: u64, fee: u64) -> Vec<u8> {
    ethabi::encode(&[
        ethabi::Token::Uint(ethabi::Uint::from(serial_id)),
        ethabi::Token::Uint(ethabi::Uint::from(op_type)),
        ethabi::Token::Bytes(pubdata),
        ethabi::Token::Uint(ethabi::Uint::from(deadline)),
        ethabi::Token::Uint(ethabi::Uint::from(fee)),
    ])
}

fn some_hash() -> Option<Vec<u8>> {
    Some(vec![0xaa; 32])
}

#[test]
fn envelope_happy_path() {
    let log = EventLog {
        data: envelope(5, 1, deposit_pubdata(), 100, 3),
        transaction_hash: some_hash(),
    };
    let rec = PriorityOp::try_from(log).unwrap();
    assert_eq!(rec.serial_id, 5);
    assert_eq!(rec.deadline_block, 100);
    assert_eq!(rec.eth_hash, vec![0xaa; 32]);
    let mut fee_be: Vec<u8> = vec![0; 32];
    fee_be[31] = 3;
    assert_eq!(rec.eth_fee, fee_be);
    match rec.data {
        FranklinPriorityOp::Deposit(d) => {
            assert_eq!(d.from, vec![0x11; 20]);
            assert_eq!(d.token, 7);
            assert_eq!(d.amount, 1_000_000_000_000_000_000);
            assert_eq!(d.to, vec![0x22; 20]);
        }
        other => panic!("expected a deposit, got {:?}", other),
    }
}

#[test]
fn corrupted_pubdata_error_is_not_masked() {
    let mut pd = deposit_pubdata();
    pd.pop();
    let direct = FranklinPriorityOp::parse_from_priority_queue_logs(&pd, 1).unwrap_err();
    assert_eq!(direct, OpError::MalformedPubdata(OpKind::Deposit, PubdataFault::TooShort));

    let log = EventLog { data: envelope(5, 1, pd, 100, 3), transaction_hash: some_hash() };
    assert_eq!(PriorityOp::try_from(log), Err(direct));
}

#[test]
fn missing_transaction_hash() {
    let log = EventLog {
        data: envelope(5, 1, deposit_pubdata(), 100, 3),
        transaction_hash: None,
    };
    assert_eq!(PriorityOp::try_from(log), Err(OpError::MissingTransactionHash));
}

#[test]
fn serial_id_out_of_range() {
    let mut too_big_be: Vec<u8> = vec![0; 32];
    too_big_be[23] = 1;
    let data = ethabi::encode(&[
        ethabi::Token::Uint(ethabi::Uint::from_big_endian(&too_big_be)),
        ethabi::Token::Uint(ethabi::Uint::from(1u8)),
        ethabi::Token::Bytes(deposit_pubdata()),
        ethabi::Token::Uint(ethabi::Uint::from(100u64)),
        ethabi::Token::Uint(ethabi::Uint::from(3u64)),
    ]);
    let log = EventLog { data, transaction_hash: some_hash() };
    assert_eq!(PriorityOp::try_from(log), Err(OpError::IntegerRange));
}

#[test]
fn deadline_out_of_range() {
    let mut too_big_be: Vec<u8> = vec![0; 32];
    too_big_be[0] = 0xff;
    let data = ethabi::encode(&[
        ethabi::Token::Uint(ethabi::Uint::from(5u64)),
        ethabi::Token::Uint(ethabi::Uint::from(1u8)),
        ethabi::Token::Bytes(deposit_pubdata()),
        ethabi::Token::Uint(ethabi::Uint::from_big_endian(&too_big_be)),
        ethabi::Token::Uint(ethabi::Uint::from(3u64)),
    ]);
    let log = EventLog { data, transaction_hash: some_hash() };
    assert_eq!(PriorityOp::try_from(log), Err(OpError::IntegerRange));
}

#[test]
fn op_type_out_of_range() {
    let data = ethabi::encode(&[
        ethabi::Token::Uint(ethabi::Uint::from(5u64)),
        ethabi::Token::Uint(ethabi::Uint::from(0x100u64)),
        ethabi::Token::Bytes(deposit_pubdata()),
        ethabi::Token::Uint(ethabi::Uint::from(100u64)),
        ethabi::Token::Uint(ethabi::Uint::from(3u64)),
    ]);
    let log = EventLog { data, transaction_hash: some_hash() };
    assert_eq!(PriorityOp::try_from(log), Err(OpError::IntegerRange));
}

#[test]
fn unsupported_op_type_through_envelope() {
    let log = EventLog {
        data: envelope(5, 200, deposit_pubdata(), 100, 3),
        transaction_hash: some_hash(),
    };
    assert_eq!(PriorityOp::try_from(log), Err(OpError::UnsupportedOperationType(200)));
}

#[test]
fn malformed_envelope_rejected() {
    let log = EventLog { data: vec![0x01, 0x02, 0x03], transaction_hash: some_hash() };
    assert!(matches!(PriorityOp::try_from(log), Err(OpError::EnvelopeDecode(_))));
}

#[test]
fn full_exit_through_envelope() {
    let mut pd: Vec<u8> = vec![0x00, 0x00, 0x2a];
    pd.extend_from_slice(&[0x33; 20]);
    pd.extend_from_slice(&[0x00, 0x09]);
    let log = EventLog { data: envelope(9, 6, pd, 77, 0), transaction_hash: some_hash() };
    let rec = PriorityOp::try_from(log).unwrap();
    match rec.data {
        FranklinPriorityOp::FullExit(f) => {
            assert_eq!(f.account_id, 42);
            assert_eq!(f.eth_address, vec![0x33; 20]);
            assert_eq!(f.token, 9);
        }
        other => panic!("expected a full exit, got {:?}", other),
    }
}

#[test]
fn word_narrowing_is_exact() {
    let max_u64: Vec<u8> = [vec![0u8; 24], vec![0xffu8; 8]].concat();
    assert_eq!(priority_ops::envelope::word_to_u64(&max_u64), Some(u64::MAX));

    let mut over: Vec<u8> = max_u64.clone();
    over[23] = 1;
    assert_eq!(priority_ops::envelope::word_to_u64(&over), None);

    let mut one_byte: Vec<u8> = vec![0; 32];
    one_byte[31] = 0x7f;
    assert_eq!(priority_ops::envelope::word_to_u8(&one_byte), Some(0x7f));
    let mut two_fifty_six: Vec<u8> = vec![0; 32];
    two_fifty_six[30] = 1;
    assert_eq!(priority_ops::envelope::word_to_u8(&two_fifty_six), None);
}
