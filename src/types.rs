use vstd::prelude::*;

use crate::amount::BigAmount;
use crate::provider::ClientError;

verus! {

/// A 20-byte account or contract address.
#[derive(Debug, Clone, Copy)]
pub struct Address {
    pub bytes: [u8; 20],
}

impl Address {
    /// The all-zero address.
    pub fn zero() -> (r: Address)
        ensures
            forall|i: int| 0 <= i < 20 ==> r.bytes@[i] == 0,
    {
        Address { bytes: [0u8; 20] }
    }
}

#[derive(Debug, Clone, Copy, PartialEq, Eq, Structural)]
pub enum TokenKind {
    ERC20,
    NFT,
    Unknown,
}

impl Default for TokenKind {
    fn default() -> (r: TokenKind)
        ensures
            r == TokenKind::ERC20,
    {
        TokenKind::ERC20
    }
}

/// A token of the rollup.
#[derive(Debug, Clone)]
pub struct Token {
    /// Id used in transaction signatures and encoding.
    pub id: u32,
    /// Contract of the token; zero for the base coin.
    pub address: Address,
    pub symbol: String,
    /// Decimal places of one whole token.
    pub decimals: u8,
    pub kind: TokenKind,
    pub is_nft: bool,
}

impl Token {
    pub fn new(id: u32, address: Address, symbol: &str, decimals: u8, kind: TokenKind) -> (r: Token)
        ensures
            r.id == id,
            r.address == address,
            r.symbol@ == symbol@,
            r.decimals == decimals,
            r.kind == kind,
            r.is_nft == (kind == TokenKind::NFT),
    {
        Token {
            id,
            address,
            symbol: symbol.to_owned(),
            decimals,
            kind,
            is_nft: matches!(kind, TokenKind::NFT),
        }
    }

    pub fn new_nft(id: u32, symbol: &str) -> (r: Token)
        ensures
            r.id == id,
            forall|i: int| 0 <= i < 20 ==> r.address.bytes@[i] == 0,
            r.symbol@ == symbol@,
            r.decimals == 0,
            r.kind == TokenKind::NFT,
            r.is_nft,
    {
        Token {
            id,
            address: Address::zero(),
            symbol: symbol.to_owned(),
            decimals: 0,
            kind: TokenKind::NFT,
            is_nft: true,
        }
    }
}

/// An ERC-20 token as the base chain knows it.
#[derive(Debug, Clone)]
pub struct TokenInfo {
    pub address: Address,
    pub decimals: u8,
    pub symbol: String,
}

impl TokenInfo {
    pub fn new(address: Address, symbol: &str, decimals: u8) -> (r: TokenInfo)
        ensures
            r.address == address,
            r.symbol@ == symbol@,
            r.decimals == decimals,
    {
        TokenInfo { address, symbol: symbol.to_owned(), decimals }
    }
}

/// A non-fungible token.
#[derive(Debug, Clone)]
pub struct NFT {
    pub id: u32,
    pub symbol: String,
    pub creator_id: u32,
    pub content_hash: [u8; 32],
}

/// An account as one block status sees it.
#[derive(Debug, Clone)]
pub struct AccountState {
    /// Balance per token symbol.
    pub balances: Vec<(String, BigAmount)>,
    pub nfts: Vec<NFT>,
    pub nonce: u32,
    pub pub_key_hash: [u8; 20],
}

impl AccountState {
    /// Each token symbol has at most one balance, and each NFT id at most one
    /// entry.
    pub open spec fn wf(&self) -> bool {
        &&& forall|i: int, j: int|
            0 <= i < j < self.balances@.len() ==> (#[trigger] self.balances@[i]).0@ != (
            #[trigger] self.balances@[j]).0@
        &&& forall|i: int, j: int|
            0 <= i < j < self.nfts@.len() ==> (#[trigger] self.nfts@[i]).id != (
            #[trigger] self.nfts@[j]).id
    }
}

/// A deposit on its way from the base chain.
#[derive(Debug, Clone)]
pub struct DepositingFunds {
    pub amount: BigAmount,
    pub expected_accept_block: u64,
}

/// Deposits on their way, per token symbol.
#[derive(Debug, Clone)]
pub struct DepositingAccountBalances {
    pub balances: Vec<(String, DepositingFunds)>,
}

impl DepositingAccountBalances {
    /// Each token symbol has at most one pending deposit entry.
    pub open spec fn wf(&self) -> bool {
        forall|i: int, j: int|
            0 <= i < j < self.balances@.len() ==> (#[trigger] self.balances@[i]).0@ != (
            #[trigger] self.balances@[j]).0@
    }
}

/// What a provider knows of an account.
#[derive(Debug, Clone)]
pub struct AccountInfo {
    pub address: Address,
    pub id: Option<u32>,
    pub depositing: DepositingAccountBalances,
    pub committed: AccountState,
    pub verified: AccountState,
}

impl AccountInfo {
    pub open spec fn wf(&self) -> bool {
        &&& self.depositing.wf()
        &&& self.committed.wf()
        &&& self.verified.wf()
    }
}

#[derive(Debug, Clone, Copy, PartialEq, Eq, Structural)]
pub enum BlockStatus {
    Committed,
    Verified,
}

#[derive(Debug, Clone, Copy, PartialEq, Eq, Structural)]
pub struct BlockInfo {
    pub block_number: i64,
    pub committed: bool,
    pub verified: bool,
}

/// Execution status of a submitted transaction.
#[derive(Debug, Clone)]
pub struct TransactionInfo {
    pub executed: bool,
    pub success: Option<bool>,
    pub fail_reason: Option<String>,
    pub block: Option<BlockInfo>,
}

/// Executed, and in a block that is verified.
pub open spec fn executed_and_verified(executed: bool, block: Option<BlockInfo>) -> bool {
    executed && (block matches Some(b) && b.verified)
}

impl TransactionInfo {
    /// Whether this transaction is verified.
    pub fn is_verified(&self) -> (r: bool)
        ensures
            r == executed_and_verified(self.executed, self.block),
    {
        self.executed && match self.block {
            Some(b) => b.verified,
            None => false,
        }
    }
}

/// Status of an operation that came from the base chain.
#[derive(Debug, Clone, Copy)]
pub struct EthOpInfo {
    pub executed: bool,
    pub block: Option<BlockInfo>,
}

impl EthOpInfo {
    /// Whether this operation is verified.
    pub fn is_verified(&self) -> (r: bool)
        ensures
            r == executed_and_verified(self.executed, self.block),
    {
        self.executed && match self.block {
            Some(b) => b.verified,
            None => false,
        }
    }
}

#[derive(Debug, Clone)]
pub struct ContractAddress {
    pub main_contract: String,
    pub gov_contract: String,
}

#[derive(Debug, Clone, Copy, PartialEq, Eq, Structural)]
pub enum ChangePubKeyFeeType {
    Onchain,
    ECDSA,
    CREATE2,
}

/// Fee calculation pattern as the network sees it.
#[derive(Debug, Clone, Copy, PartialEq, Eq, Structural)]
pub enum OutputFeeType {
    Transfer,
    TransferToNew,
    FastWithdraw,
    Withdraw,
    ChangePubKey(ChangePubKeyFeeType),
    MintNFT,
    WithdrawNFT,
    FastWithdrawNFT,
}

/// A fee quote. Its total is always the gas fee plus the proof fee.
#[derive(Debug)]
pub struct Fee {
    fee_type: OutputFeeType,
    gas_tx_amount: BigAmount,
    gas_price_wei: BigAmount,
    gas_fee: BigAmount,
    zkp_fee: BigAmount,
    total_fee: BigAmount,
}

impl Fee {
    #[verifier::type_invariant]
    spec fn total_is_sum(&self) -> bool {
        self.total_fee@ == self.gas_fee@ + self.zkp_fee@
    }

    pub closed spec fn spec_fee_type(&self) -> OutputFeeType {
        self.fee_type
    }

    pub closed spec fn spec_gas_tx_amount(&self) -> nat {
        self.gas_tx_amount@
    }

    pub closed spec fn spec_gas_price_wei(&self) -> nat {
        self.gas_price_wei@
    }

    pub closed spec fn spec_gas_fee(&self) -> nat {
        self.gas_fee@
    }

    pub closed spec fn spec_zkp_fee(&self) -> nat {
        self.zkp_fee@
    }

    pub closed spec fn spec_total_fee(&self) -> nat {
        self.total_fee@
    }

    /// Builds a fee from a provider's quote, refusing one whose total is not
    /// the gas fee plus the proof fee.
    pub fn new(
        fee_type: OutputFeeType,
        gas_tx_amount: BigAmount,
        gas_price_wei: BigAmount,
        gas_fee: BigAmount,
        zkp_fee: BigAmount,
        total_fee: BigAmount,
    ) -> (r: Result<Fee, ClientError>)
        ensures
            r is Ok <==> total_fee@ == gas_fee@ + zkp_fee@,
            r matches Ok(f) ==> {
                &&& f.spec_fee_type() == fee_type
                &&& f.spec_gas_tx_amount() == gas_tx_amount@
                &&& f.spec_gas_price_wei() == gas_price_wei@
                &&& f.spec_gas_fee() == gas_fee@
                &&& f.spec_zkp_fee() == zkp_fee@
                &&& f.spec_total_fee() == total_fee@
            },
            r matches Err(e) ==> e is MalformedResponse,
    {
        let sum = gas_fee.add(&zkp_fee);
        if sum.same_value(&total_fee) {
            Ok(Fee { fee_type, gas_tx_amount, gas_price_wei, gas_fee, zkp_fee, total_fee })
        } else {
            Err(ClientError::MalformedResponse("total fee is not gas fee plus proof fee".to_owned()))
        }
    }

    pub fn fee_type(&self) -> (r: OutputFeeType)
        ensures
            r == self.spec_fee_type(),
    {
        self.fee_type
    }

    pub fn gas_tx_amount(&self) -> (r: &BigAmount)
        ensures
            r@ == self.spec_gas_tx_amount(),
    {
        &self.gas_tx_amount
    }

    pub fn gas_price_wei(&self) -> (r: &BigAmount)
        ensures
            r@ == self.spec_gas_price_wei(),
    {
        &self.gas_price_wei
    }

    pub fn gas_fee(&self) -> (r: &BigAmount)
        ensures
            r@ == self.spec_gas_fee(),
    {
        &self.gas_fee
    }

    pub fn zkp_fee(&self) -> (r: &BigAmount)
        ensures
            r@ == self.spec_zkp_fee(),
    {
        &self.zkp_fee
    }

    /// The total fee, which is always the gas fee plus the proof fee.
    pub fn total_fee(&self) -> (r: &BigAmount)
        ensures
            r@ == self.spec_total_fee(),
            r@ == self.spec_gas_fee() + self.spec_zkp_fee(),
    {
        proof {
            use_type_invariant(self);
        }
        &self.total_fee
    }
}

} // verus!
