use priority_ops::errors::{OpError, OpKind, PubdataFault};
use priority_ops::priority_ops::{Deposit, FranklinPriorityOp, FullExit};

fn deposit_pubdata(from: [u8; 20], token: u16, amount: u128, to: [u8; 20]) -> Vec<u8> {
    let mut pd: Vec<u8> = Vec::new();
    pd.extend_from_slice(&from);
    pd.extend_from_slice(&token.to_be_bytes());
    pd.extend_from_slice(&amount.to_be_bytes());
    pd.extend_from_slice(&to);
    pd
}

fn full_exit_pubdata(account_id: u32, eth_address: [u8; 20], token: u16) -> Vec<u8> {
    let mut pd: Vec<u8> = Vec::new();
    pd.extend_from_slice(&account_id.to_be_bytes()[1..]);
    pd.extend_from_slice(&eth_address);
    pd.extend_from_slice(&token.to_be_bytes());
    pd
}

#[test]
fn deposit_scenario() {
    let pd = deposit_pubdata([0x11; 20], 7, 1_000_000_000_000_000_000, [0x22; 20]);
    assert_eq!(pd.len(), 58);
    let op = FranklinPriorityOp::parse_from_priority_queue_logs(&pd, 1).unwrap();
    assert_eq!(
        op,
        FranklinPriorityOp::Deposit(Deposit {
            from: vec![0x11; 20],
            token: 7,
            amount: 1_000_000_000_000_000_000,
            to: vec![0x22; 20],
        })
    );
}

#[test]
fn full_exit_scenario() {
    let pd = full_exit_pubdata(42, [0x33; 20], 9);
    assert_eq!(pd.len(), 25);
    let op = FranklinPriorityOp::parse_from_priority_queue_logs(&pd, 6).unwrap();
    let fe = FullExit { account_id: 42, eth_address: vec![0x33; 20], token: 9 };
    assert_eq!(op, FranklinPriorityOp::FullExit(fe.clone()));

    let mut expected: Vec<u8> = vec![0x06, 0x00, 0x00, 0x2a];
    expected.extend_from_slice(&[0x33; 20]);
    expected.extend_from_slice(&[0x00, 0x09]);
    assert_eq!(fe.get_bytes(), expected);
}

#[test]
fn full_exit_round_trip() {
    let fe = FullExit {
        account_id: 0x00ab_cdef,
        eth_address: (0u8..20u8).collect(),
        token: 0xbeef,
    };
    let enc = fe.get_bytes();
    assert_eq!(enc.len(), 26);
    assert_eq!(enc[0], 6);
    let pd: Vec<u8> = enc[1..].to_vec();
    let op = FranklinPriorityOp::parse_from_priority_queue_logs(&pd, 6).unwrap();
    assert_eq!(op, FranklinPriorityOp::FullExit(fe));
}

#[test]
fn deposit_exact_consumption() {
    let pd = deposit_pubdata([0x11; 20], 7, 5, [0x22; 20]);

    let mut short = pd.clone();
    short.pop();
    assert_eq!(
        FranklinPriorityOp::parse_from_priority_queue_logs(&short, 1),
        Err(OpError::MalformedPubdata(OpKind::Deposit, PubdataFault::TooShort))
    );

    let mut long = pd.clone();
    long.push(0);
    assert_eq!(
        FranklinPriorityOp::parse_from_priority_queue_logs(&long, 1),
        Err(OpError::MalformedPubdata(OpKind::Deposit, PubdataFault::InputTooBig))
    );

    assert!(FranklinPriorityOp::parse_from_priority_queue_logs(&pd, 1).is_ok());
}

#[test]
fn full_exit_exact_consumption() {
    let pd = full_exit_pubdata(3, [0x44; 20], 1);

    let mut short = pd.clone();
    short.pop();
    assert_eq!(
        FranklinPriorityOp::parse_from_priority_queue_logs(&short, 6),
        Err(OpError::MalformedPubdata(OpKind::FullExit, PubdataFault::TooShort))
    );

    let mut long = pd.clone();
    long.push(0);
    assert_eq!(
        FranklinPriorityOp::parse_from_priority_queue_logs(&long, 6),
        Err(OpError::MalformedPubdata(OpKind::FullExit, PubdataFault::InputTooBig))
    );

    assert!(FranklinPriorityOp::parse_from_priority_queue_logs(&pd, 6).is_ok());
}

#[test]
fn unknown_discriminants_rejected() {
    let pd = deposit_pubdata([0x11; 20], 7, 5, [0x22; 20]);
    let mut checked: u32 = 0;
    for op_type in 0u8..=255u8 {
        if op_type == 1 || op_type == 6 {
            continue;
        }
        assert_eq!(
            FranklinPriorityOp::parse_from_priority_queue_logs(&pd, op_type),
            Err(OpError::UnsupportedOperationType(op_type))
        );
        checked += 1;
    }
    assert_eq!(checked, 254);
}

#[test]
fn amount_fidelity() {
    let zero = deposit_pubdata([0x11; 20], 7, 0, [0x22; 20]);
    match FranklinPriorityOp::parse_from_priority_queue_logs(&zero, 1).unwrap() {
        FranklinPriorityOp::Deposit(d) => assert_eq!(d.amount, 0),
        other => panic!("expected a deposit, got {:?}", other),
    }

    let max = deposit_pubdata([0x11; 20], 7, u128::MAX, [0x22; 20]);
    match FranklinPriorityOp::parse_from_priority_queue_logs(&max, 1).unwrap() {
        FranklinPriorityOp::Deposit(d) => {
            assert_eq!(d.amount, 340_282_366_920_938_463_463_374_607_431_768_211_455)
        }
        other => panic!("expected a deposit, got {:?}", other),
    }
}

#[test]
fn chunk_costs() {
    let dep = FranklinPriorityOp::Deposit(Deposit {
        from: vec![0; 20],
        token: 0,
        amount: 0,
        to: vec![0; 20],
    });
    assert_eq!(dep.chunks(), 6);

    let fe = FranklinPriorityOp::FullExit(FullExit {
        account_id: 0,
        eth_address: vec![0; 20],
        token: 0,
    });
    assert_eq!(fe.chunks(), 6);
}

#[test]
fn account_id_high_byte_dropped_by_encode() {
    let fe = FullExit { account_id: 0xff00_0001, eth_address: vec![0x55; 20], token: 2 };
    let enc = fe.get_bytes();
    assert_eq!(&enc[1..4], &[0x00, 0x00, 0x01]);
}
