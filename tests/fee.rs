use rollup_sim::amount::BigAmount;
use rollup_sim::provider::ClientError;
use rollup_sim::types::{
    Address, BlockInfo, ChangePubKeyFeeType, EthOpInfo, Fee, OutputFeeType, Token, TokenInfo, TokenKind,
    TransactionInfo,
};

#[test]
fn amount_addition_carries_between_digits() {
    let a = BigAmount::from_digits(vec![u32::MAX]);
    let b = BigAmount::from_u64(1);
    let s = a.add(&b);
    assert!(s.same_value(&BigAmount::from_u64(1 << 32)));
    assert!(s.same_value(&BigAmount::from_digits(vec![0, 1])));
    assert!(!s.same_value(&a));
}

#[test]
fn amount_equality_ignores_leading_zero_digits() {
    assert!(BigAmount::from_digits(vec![5, 0, 0]).same_value(&BigAmount::from_u64(5)));
    assert!(BigAmount::from_digits(vec![]).same_value(&BigAmount::from_u64(0)));
}

#[test]
fn fee_with_consistent_total() {
    let f = Fee::new(
        OutputFeeType::ChangePubKey(ChangePubKeyFeeType::ECDSA),
        BigAmount::from_u64(21000),
        BigAmount::from_u64(3),
        BigAmount::from_u64(63000),
        BigAmount::from_u64(1000),
        BigAmount::from_u64(64000),
    )
    .unwrap();
    assert!(f.total_fee().same_value(&f.gas_fee().add(f.zkp_fee())));
    assert!(f.total_fee().same_value(&BigAmount::from_u64(64000)));
    assert!(f.gas_tx_amount().same_value(&BigAmount::from_u64(21000)));
    assert!(f.gas_price_wei().same_value(&BigAmount::from_u64(3)));
    assert_eq!(f.fee_type(), OutputFeeType::ChangePubKey(ChangePubKeyFeeType::ECDSA));
}

#[test]
fn fee_with_inconsistent_total_is_malformed() {
    let r = Fee::new(
        OutputFeeType::Transfer,
        BigAmount::from_u64(1),
        BigAmount::from_u64(1),
        BigAmount::from_u64(10),
        BigAmount::from_u64(5),
        BigAmount::from_u64(16),
    );
    assert!(matches!(r, Err(ClientError::MalformedResponse(_))));
}

#[test]
fn token_constructors() {
    let t = Token::new(4, Address { bytes: [7u8; 20] }, "RDOC", 18, TokenKind::ERC20);
    assert_eq!(t.id, 4);
    assert_eq!(t.symbol, "RDOC");
    assert_eq!(t.decimals, 18);
    assert!(!t.is_nft);
    let n = Token::new(9, Address::zero(), "ART", 0, TokenKind::NFT);
    assert!(n.is_nft);
    let m = Token::new_nft(12, "PIC");
    assert!(m.is_nft);
    assert_eq!(m.kind, TokenKind::NFT);
    assert_eq!(m.address.bytes, [0u8; 20]);
    assert_eq!(m.symbol, "PIC");
    assert_eq!(TokenKind::default(), TokenKind::ERC20);
    let i = TokenInfo::new(Address::zero(), "RBTC", 18);
    assert_eq!(i.symbol, "RBTC");
    assert_eq!(i.decimals, 18);
}

#[test]
fn verification_status() {
    let verified = Some(BlockInfo { block_number: 3, committed: true, verified: true });
    let committed = Some(BlockInfo { block_number: 3, committed: true, verified: false });
    let info = |executed, block| TransactionInfo { executed, success: Some(true), fail_reason: None, block };
    assert!(info(true, verified).is_verified());
    assert!(!info(true, committed).is_verified());
    assert!(!info(false, verified).is_verified());
    assert!(!info(true, None).is_verified());
    assert!(EthOpInfo { executed: true, block: verified }.is_verified());
    assert!(!EthOpInfo { executed: true, block: None }.is_verified());
}

#[test]
fn retryable_errors() {
    assert!(ClientError::OperationTimeout.is_retryable());
    assert!(ClientError::NetworkError("reset".to_string()).is_retryable());
    assert!(!ClientError::IncorrectInput.is_retryable());
    assert!(!ClientError::NetworkNotSupported("x".to_string()).is_retryable());
}
