//! The instruction-tree data model: one reconstructed instruction with its
//! program id, positional account list, raw payload, nested children and log
//! lines, owned by a transaction inside a block.

use vstd::prelude::*;

verus! {

/// The bonding-curve exchange program.
pub const PUMPFUN_PROGRAM_ID: [u8; 32] = [1, 86, 224, 246, 147, 102, 90, 207, 68, 219, 21, 104,
    191, 23, 91, 170, 81, 137, 203, 151, 245, 210, 255, 59, 101, 93, 43, 182, 253, 109, 24, 176];

/// The fungible-token standard program.
pub const TOKEN_PROGRAM_ID: [u8; 32] = [6, 221, 246, 225, 215, 101, 161, 147, 217, 203, 225, 70,
    206, 235, 121, 172, 28, 180, 133, 237, 95, 91, 55, 145, 58, 140, 245, 133, 126, 255, 0, 169];

/// The native-currency transfer program.
pub const SYSTEM_PROGRAM_ID: [u8; 32] = [0, 0, 0, 0, 0, 0, 0, 0, 0, 0, 0, 0, 0, 0, 0, 0, 0, 0, 0,
    0, 0, 0, 0, 0, 0, 0, 0, 0, 0, 0, 0, 0];

/// One log line produced while an instruction ran: either a structured data
/// record (already stripped of its transport encoding) or free text.
#[derive(Clone, Debug, PartialEq, Eq)]
pub enum Log {
    Data(Vec<u8>),
    Message(Vec<u8>),
}

/// One reconstructed instruction. Account position is semantically
/// significant; children are the instructions this one invoked, in execution
/// order. `logs` is `None` when the upstream log capture reports truncation.
pub struct Instruction {
    pub program_id: Vec<u8>,
    pub accounts: Vec<Vec<u8>>,
    pub data: Vec<u8>,
    pub inner_instructions: Vec<Instruction>,
    pub logs: Option<Vec<Log>>,
}

/// Point-in-time state of one token account: balance immediately before and
/// immediately after the most recently applied instruction.
#[derive(Clone, Debug, PartialEq, Eq)]
pub struct TokenAccount {
    pub address: Vec<u8>,
    pub owner: Vec<u8>,
    pub mint: Vec<u8>,
    pub pre_balance: u64,
    pub post_balance: u64,
}

/// Mathematical image of a `TokenAccount`.
pub struct TokenAccountView {
    pub address: Seq<u8>,
    pub owner: Seq<u8>,
    pub mint: Seq<u8>,
    pub pre_balance: u64,
    pub post_balance: u64,
}

impl View for TokenAccount {
    type V = TokenAccountView;

    open spec fn view(&self) -> TokenAccountView {
        TokenAccountView {
            address: self.address@,
            owner: self.owner@,
            mint: self.mint@,
            pre_balance: self.pre_balance,
            post_balance: self.post_balance,
        }
    }
}

impl TokenAccount {
    /// A field-for-field copy of the snapshot.
    pub fn duplicate(&self) -> (r: TokenAccount)
        ensures
            r@ == self@,
    {
        TokenAccount {
            address: crate::bytes::copy_bytes(&self.address),
            owner: crate::bytes::copy_bytes(&self.owner),
            mint: crate::bytes::copy_bytes(&self.mint),
            pre_balance: self.pre_balance,
            post_balance: self.post_balance,
        }
    }
}

/// One transaction: its signature, the on-chain success flag, its top-level
/// instructions (each with nested children), and the initial token-account
/// table recovered from the transaction's balance metadata.
pub struct Transaction {
    pub signature: Vec<u8>,
    pub failed: bool,
    pub instructions: Vec<Instruction>,
    pub token_balances: Vec<TokenAccount>,
}

/// A block: an ordered sequence of transactions.
pub struct Block {
    pub transactions: Vec<Transaction>,
}

/// Pre-order flattening of a forest of instructions: each instruction comes
/// before its children, children in execution order.
pub open spec fn flatten_list(s: Seq<Instruction>) -> Seq<Instruction>
    decreases s,
{
    if s.len() == 0 {
        Seq::empty()
    } else {
        (seq![s[0]] + flatten_list(s[0].inner_instructions@)) + flatten_list(s.drop_first())
    }
}

/// One instruction followed by the flattening of its children.
pub open spec fn flatten_one(i: Instruction) -> Seq<Instruction> {
    seq![i] + flatten_list(i.inner_instructions@)
}

/// Flattening distributes over concatenation of forests.
pub proof fn lemma_flatten_concat(a: Seq<Instruction>, b: Seq<Instruction>)
    ensures
        flatten_list(a + b) == flatten_list(a) + flatten_list(b),
    decreases a.len(),
{
    if a.len() == 0 {
        assert(a + b =~= b);
        assert(flatten_list(a) + flatten_list(b) =~= flatten_list(b));
    } else {
        lemma_flatten_concat(a.drop_first(), b);
        assert((a + b).drop_first() =~= a.drop_first() + b);
        assert((a + b)[0] == a[0]);
        assert(flatten_list(a + b) =~= flatten_list(a) + flatten_list(b));
    }
}

/// Flattening one root is `flatten_one`.
pub proof fn lemma_flatten_singleton(x: Instruction)
    ensures
        flatten_list(seq![x]) == flatten_one(x),
{
    assert(seq![x].drop_first() =~= Seq::<Instruction>::empty());
    assert(flatten_list(Seq::<Instruction>::empty()) =~= Seq::<Instruction>::empty());
    assert(flatten_list(seq![x]) =~= flatten_one(x));
}

} // verus!
