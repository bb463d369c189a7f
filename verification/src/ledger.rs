//! The per-transaction running ledger of token-account state. It is created
//! once per transaction from the transaction's balance metadata, mutated
//! forward through the instruction stream in execution order, and queried by
//! the event synthesizers.

use vstd::prelude::*;
use crate::bytes::bytes_eq32;
use crate::model::{Instruction, TokenAccount, TokenAccountView, Transaction, TOKEN_PROGRAM_ID};
use crate::token_instruction::{spec_unpack_token, TokenInstruction, TokenInstructionView};

verus! {

/// Per-transaction context: the signature and the running token-account
/// ledger.
#[derive(Clone, Debug, PartialEq, Eq)]
pub struct TransactionContext {
    pub signature: Vec<u8>,
    pub accounts: Vec<TokenAccount>,
}

/// Mathematical image of a `TransactionContext`.
pub struct ContextView {
    pub signature: Seq<u8>,
    pub accounts: Seq<TokenAccountView>,
}

/// Mathematical image of a token-account table.
pub open spec fn accounts_view(s: Seq<TokenAccount>) -> Seq<TokenAccountView> {
    s.map_values(|a: TokenAccount| a@)
}

/// `accounts_view` is pointwise: same length, each account viewed in place.
pub proof fn lemma_accounts_view(s: Seq<TokenAccount>)
    ensures
        accounts_view(s).len() == s.len(),
        forall|k: int| 0 <= k < s.len() ==> accounts_view(s)[k] == s[k]@,
{
}

impl View for TransactionContext {
    type V = ContextView;

    open spec fn view(&self) -> ContextView {
        ContextView { signature: self.signature@, accounts: accounts_view(self.accounts@) }
    }
}

/// First account whose address equals `address`, scanning in order.
pub open spec fn spec_lookup(accounts: Seq<TokenAccountView>, address: Seq<u8>) -> Option<
    TokenAccountView>
    decreases accounts.len(),
{
    if accounts.len() == 0 {
        None
    } else if accounts[0].address == address {
        Some(accounts[0])
    } else {
        spec_lookup(accounts.drop_first(), address)
    }
}

/// `a` minus `b`, floored at zero.
pub open spec fn sat_sub(a: u64, b: u64) -> u64 {
    if b > a {
        0
    } else {
        (a - b) as u64
    }
}

/// `a` plus `b`, capped at the largest representable balance.
pub open spec fn sat_add(a: u64, b: u64) -> u64 {
    if a + b > u64::MAX {
        u64::MAX
    } else {
        (a + b) as u64
    }
}

/// One direction of a balance movement.
pub enum LedgerDelta {
    Debit(u64),
    Credit(u64),
}

/// The account after an outgoing amount: its balance window slides forward,
/// the new pre-balance being the old post-balance.
pub open spec fn debited(a: TokenAccountView, amount: u64) -> TokenAccountView {
    TokenAccountView {
        pre_balance: a.post_balance,
        post_balance: sat_sub(a.post_balance, amount),
        ..a
    }
}

/// The account after an incoming amount.
pub open spec fn credited(a: TokenAccountView, amount: u64) -> TokenAccountView {
    TokenAccountView {
        pre_balance: a.post_balance,
        post_balance: sat_add(a.post_balance, amount),
        ..a
    }
}

/// The account after one balance movement.
pub open spec fn applied(a: TokenAccountView, d: LedgerDelta) -> TokenAccountView {
    match d {
        LedgerDelta::Debit(amount) => debited(a, amount),
        LedgerDelta::Credit(amount) => credited(a, amount),
    }
}

/// The first account at `address`, moved by `d`; other accounts and their
/// order are untouched.
pub open spec fn spec_adjust(l: Seq<TokenAccountView>, address: Seq<u8>, d: LedgerDelta) -> Seq<
    TokenAccountView>
    decreases l.len(),
{
    if l.len() == 0 {
        l
    } else if l[0].address == address {
        seq![applied(l[0], d)] + l.drop_first()
    } else {
        seq![l[0]] + spec_adjust(l.drop_first(), address, d)
    }
}

/// Ledger after debiting `amount` from the account at `address`.
pub open spec fn spec_debit(l: Seq<TokenAccountView>, address: Seq<u8>, amount: u64) -> Seq<
    TokenAccountView> {
    spec_adjust(l, address, LedgerDelta::Debit(amount))
}

/// Ledger after crediting `amount` to the account at `address`.
pub open spec fn spec_credit(l: Seq<TokenAccountView>, address: Seq<u8>, amount: u64) -> Seq<
    TokenAccountView> {
    spec_adjust(l, address, LedgerDelta::Credit(amount))
}

/// When the first match sits at position `j`, adjusting is a point update.
pub proof fn lemma_adjust_found(l: Seq<TokenAccountView>, address: Seq<u8>, d: LedgerDelta, j: int)
    requires
        0 <= j < l.len(),
        l[j].address == address,
        forall|k: int| 0 <= k < j ==> l[k].address != address,
    ensures
        spec_adjust(l, address, d) == l.update(j, applied(l[j], d)),
    decreases j,
{
    if j == 0 {
        assert(spec_adjust(l, address, d) =~= l.update(0, applied(l[0], d)));
    } else {
        lemma_adjust_found(l.drop_first(), address, d, j - 1);
        assert(spec_adjust(l, address, d) =~= l.update(j, applied(l[j], d)));
    }
}

/// When no account matches, adjusting changes nothing.
pub proof fn lemma_adjust_absent(l: Seq<TokenAccountView>, address: Seq<u8>, d: LedgerDelta)
    requires
        forall|k: int| 0 <= k < l.len() ==> l[k].address != address,
    ensures
        spec_adjust(l, address, d) == l,
    decreases l.len(),
{
    if l.len() == 0 {
    } else {
        lemma_adjust_absent(l.drop_first(), address, d);
        assert(spec_adjust(l, address, d) =~= l);
    }
}

/// The ledger after one instruction: a token-standard transfer moves its
/// amount from source to destination, a mint credits its destination, a burn
/// debits its source; every other instruction leaves the ledger unchanged.
/// Balances saturate rather than wrap; solvency is not validated here.
pub open spec fn spec_update_ledger(l: Seq<TokenAccountView>, i: Instruction) -> Seq<
    TokenAccountView> {
    if i.program_id@ != TOKEN_PROGRAM_ID@ {
        l
    } else {
        match spec_unpack_token(i.data@) {
            Ok(TokenInstructionView::Transfer { amount }) => if i.accounts@.len() >= 2 {
                spec_credit(spec_debit(l, i.accounts@[0]@, amount), i.accounts@[1]@, amount)
            } else {
                l
            },
            Ok(TokenInstructionView::TransferChecked { amount, .. }) => if i.accounts@.len()
                >= 3 {
                spec_credit(spec_debit(l, i.accounts@[0]@, amount), i.accounts@[2]@, amount)
            } else {
                l
            },
            Ok(TokenInstructionView::MintTo { amount }) => if i.accounts@.len() >= 2 {
                spec_credit(l, i.accounts@[1]@, amount)
            } else {
                l
            },
            Ok(TokenInstructionView::MintToChecked { amount, .. }) => if i.accounts@.len() >= 2 {
                spec_credit(l, i.accounts@[1]@, amount)
            } else {
                l
            },
            Ok(TokenInstructionView::Burn { amount }) => if i.accounts@.len() >= 1 {
                spec_debit(l, i.accounts@[0]@, amount)
            } else {
                l
            },
            Ok(TokenInstructionView::BurnChecked { amount, .. }) => if i.accounts@.len() >= 1 {
                spec_debit(l, i.accounts@[0]@, amount)
            } else {
                l
            },
            _ => l,
        }
    }
}

impl TransactionContext {
    /// Point-in-time snapshot of the token account at `address`, or `None`
    /// when the address is not tracked.
    pub fn get_token_account(&self, address: &Vec<u8>) -> (r: Option<TokenAccount>)
        ensures
            match r {
                Some(a) => spec_lookup(self@.accounts, address@) == Some(a@),
                None => spec_lookup(self@.accounts, address@) is None,
            },
    {
        let ghost l = self@.accounts;
        proof {
            assert(l.skip(0) =~= l);
        }
        let n = self.accounts.len();
        let mut i: usize = 0;
        while i < n
            invariant
                n == self.accounts.len(),
                i <= n,
                l == self@.accounts,
                spec_lookup(l, address@) == spec_lookup(l.skip(i as int), address@),
            decreases n - i,
        {
            proof {
                assert(l.skip(i as int)[0] == l[i as int]);
                assert(l.skip(i as int).drop_first() =~= l.skip(i as int + 1));
            }
            if crate::bytes::bytes_vec_eq(&self.accounts[i].address, address) {
                return Some(self.accounts[i].duplicate());
            }
            i = i + 1;
        }
        proof {
            assert(l.skip(n as int) =~= Seq::<TokenAccountView>::empty());
        }
        None
    }

    /// Applies `debited` to the first account at `address`, if any.
    fn debit(&mut self, address: &Vec<u8>, amount: u64)
        ensures
            final(self)@.signature == old(self)@.signature,
            final(self)@.accounts == spec_debit(old(self)@.accounts, address@, amount),
    {
        let ghost l = old(self)@.accounts;
        let ghost d = LedgerDelta::Debit(amount);
        let n = self.accounts.len();
        let mut i: usize = 0;
        while i < n
            invariant
                d == LedgerDelta::Debit(amount),
                n == self.accounts.len(),
                i <= n,
                *self == *old(self),
                l == old(self)@.accounts,
                forall|k: int| 0 <= k < i ==> l[k].address != address@,
            decreases n - i,
        {
            if crate::bytes::bytes_vec_eq(&self.accounts[i].address, address) {
                let a = &self.accounts[i];
                let updated = TokenAccount {
                    address: crate::bytes::copy_bytes(&a.address),
                    owner: crate::bytes::copy_bytes(&a.owner),
                    mint: crate::bytes::copy_bytes(&a.mint),
                    pre_balance: a.post_balance,
                    post_balance: if amount > a.post_balance {
                        0
                    } else {
                        a.post_balance - amount
                    },
                };
                proof {
                    assert(updated@ == applied(l[i as int], d));
                }
                self.accounts.set(i, updated);
                proof {
                    lemma_adjust_found(l, address@, d, i as int);
                    assert(self@.accounts =~= l.update(i as int, applied(l[i as int], d)));
                }
                return;
            }
            i = i + 1;
        }
        proof {
            lemma_adjust_absent(l, address@, d);
        }
    }

    /// Applies `credited` to the first account at `address`, if any.
    fn credit(&mut self, address: &Vec<u8>, amount: u64)
        ensures
            final(self)@.signature == old(self)@.signature,
            final(self)@.accounts == spec_credit(old(self)@.accounts, address@, amount),
    {
        let ghost l = old(self)@.accounts;
        let ghost d = LedgerDelta::Credit(amount);
        let n = self.accounts.len();
        let mut i: usize = 0;
        while i < n
            invariant
                d == LedgerDelta::Credit(amount),
                n == self.accounts.len(),
                i <= n,
                *self == *old(self),
                l == old(self)@.accounts,
                forall|k: int| 0 <= k < i ==> l[k].address != address@,
            decreases n - i,
        {
            if crate::bytes::bytes_vec_eq(&self.accounts[i].address, address) {
                let a = &self.accounts[i];
                let updated = TokenAccount {
                    address: crate::bytes::copy_bytes(&a.address),
                    owner: crate::bytes::copy_bytes(&a.owner),
                    mint: crate::bytes::copy_bytes(&a.mint),
                    pre_balance: a.post_balance,
                    post_balance: if a.post_balance > u64::MAX - amount {
                        u64::MAX
                    } else {
                        a.post_balance + amount
                    },
                };
                proof {
                    assert(updated@ == applied(l[i as int], d));
                }
                self.accounts.set(i, updated);
                proof {
                    lemma_adjust_found(l, address@, d, i as int);
                    assert(self@.accounts =~= l.update(i as int, applied(l[i as int], d)));
                }
                return;
            }
            i = i + 1;
        }
        proof {
            lemma_adjust_absent(l, address@, d);
        }
    }

    /// Applies one instruction's effect to the running ledger. Must be called
    /// once per instruction in flattened execution order.
    pub fn update_balance(&mut self, instruction: &Instruction)
        ensures
            final(self)@.signature == old(self)@.signature,
            final(self)@.accounts == spec_update_ledger(old(self)@.accounts, *instruction),
    {
        if !bytes_eq32(&instruction.program_id, &TOKEN_PROGRAM_ID) {
            return;
        }
        match TokenInstruction::unpack(&instruction.data) {
            Ok(TokenInstruction::Transfer { amount }) => {
                if instruction.accounts.len() >= 2 {
                    self.debit(&instruction.accounts[0], amount);
                    self.credit(&instruction.accounts[1], amount);
                }
            },
            Ok(TokenInstruction::TransferChecked { amount, .. }) => {
                if instruction.accounts.len() >= 3 {
                    self.debit(&instruction.accounts[0], amount);
                    self.credit(&instruction.accounts[2], amount);
                }
            },
            Ok(TokenInstruction::MintTo { amount }) => {
                if instruction.accounts.len() >= 2 {
                    self.credit(&instruction.accounts[1], amount);
                }
            },
            Ok(TokenInstruction::MintToChecked { amount, .. }) => {
                if instruction.accounts.len() >= 2 {
                    self.credit(&instruction.accounts[1], amount);
                }
            },
            Ok(TokenInstruction::Burn { amount }) => {
                if instruction.accounts.len() >= 1 {
                    self.debit(&instruction.accounts[0], amount);
                }
            },
            Ok(TokenInstruction::BurnChecked { amount, .. }) => {
                if instruction.accounts.len() >= 1 {
                    self.debit(&instruction.accounts[0], amount);
                }
            },
            _ => {},
        }
    }
}

/// Builds the context of one transaction from its signature and its initial
/// token-account table.
pub fn get_context(transaction: &Transaction) -> (c: TransactionContext)
    ensures
        c@.signature == transaction.signature@,
        c@.accounts == accounts_view(transaction.token_balances@),
{
    let n = transaction.token_balances.len();
    let mut accounts: Vec<TokenAccount> = Vec::new();
    let mut i: usize = 0;
    while i < n
        invariant
            n == transaction.token_balances.len(),
            i <= n,
            accounts_view(accounts@) == accounts_view(transaction.token_balances@).take(i as int),
        decreases n - i,
    {
        let ghost pre = accounts@;
        let entry = transaction.token_balances[i].duplicate();
        accounts.push(entry);
        proof {
            let tb = transaction.token_balances@;
            lemma_accounts_view(pre);
            lemma_accounts_view(accounts@);
            lemma_accounts_view(tb);
            assert(accounts@ == pre.push(entry));
            assert forall|k: int| 0 <= k < accounts@.len() implies accounts_view(accounts@)[k]
                == accounts_view(tb).take(i as int + 1)[k] by {
                if k < i {
                    assert(accounts@[k] == pre[k]);
                    assert(accounts_view(pre)[k] == accounts_view(tb).take(i as int)[k]);
                } else {
                    assert(accounts@[k]@ == tb[k]@);
                }
            }
            assert(accounts_view(accounts@) =~= accounts_view(tb).take(i as int + 1));
        }
        i = i + 1;
    }
    proof {
        assert(accounts_view(accounts@) =~= accounts_view(transaction.token_balances@));
    }
    TransactionContext { signature: crate::bytes::copy_bytes(&transaction.signature), accounts }
}

} // verus!

