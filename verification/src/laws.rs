//! The library-wide laws: statements that relate several functions or hold
//! of every input, proved once here against the specification functions that
//! the executable functions' contracts are written in.

use vstd::prelude::*;
use crate::bytes::{le32, le64};
use crate::errors::{ParseError, TransactionErrorView};
use crate::ledger::{
    applied, debited, spec_adjust, spec_lookup, spec_update_ledger, LedgerDelta,
};
use crate::model::{Instruction, TokenAccountView, Transaction, PUMPFUN_PROGRAM_ID,
    SYSTEM_PROGRAM_ID, TOKEN_PROGRAM_ID};
use crate::pumpfun::{
    spec_buy_event, spec_create_event, spec_find_child, spec_parse_block,
    spec_parse_pumpfun_instruction, spec_parse_transaction, spec_sell_event, spec_trade_of,
};
use crate::pumpfun_events::{EventView, PumpfunTransactionEventsView};
use crate::pumpfun_instruction::{
    spec_unpack_pumpfun, CreateInstructionView, PumpfunInstructionView,
};
use crate::spl_token::spec_parse_token_instruction;
use crate::token_instruction::{spec_unpack_token, TokenInstructionView};

verus! {

/// A transaction the chain itself marked failed yields an empty event list:
/// no decoding is attempted on it.
pub proof fn lemma_failed_transaction_yields_nothing(tx: Transaction)
    requires
        tx.failed,
    ensures
        spec_parse_transaction(tx) == Ok::<Seq<EventView>, TransactionErrorView>(
            Seq::<EventView>::empty(),
        ),
{
}

/// A well-formed create instruction's event carries exactly the account-list
/// entries at positions 7, 0, 2 and 6 and the payload's name, symbol and uri
/// verbatim.
pub proof fn lemma_create_event_fields(i: Instruction, c: CreateInstructionView)
    requires
        i.accounts@.len() >= 8,
    ensures
        spec_create_event(i, c) matches Ok(e) && e.user == i.accounts@[7]@ && e.mint
            == i.accounts@[0]@ && e.bonding_curve == i.accounts@[2]@
            && e.associated_bonding_curve == i.accounts@[2]@ && e.metadata == i.accounts@[6]@
            && e.name == c.name && e.symbol == c.symbol && e.uri == c.uri,
{
}

/// A buy whose children contain no native-currency transfer yields a
/// correlation failure, never a partially populated event.
pub proof fn lemma_buy_requires_native_transfer(
    i: Instruction,
    l: Seq<TokenAccountView>,
    amount: u64,
)
    requires
        i.accounts@.len() >= 7,
        spec_find_child(i.inner_instructions@, SYSTEM_PROGRAM_ID@) is None,
    ensures
        spec_buy_event(i, l, amount) == Err::<crate::pumpfun_events::SwapEventView, ParseError>(
            ParseError::CorrelationFailed,
        ),
{
}

/// A buy or sell with a present, well-formed trade log populates all four
/// reserve fields; with an absent or malformed log all four are unset while
/// the transfer-derived fields are still populated.
pub proof fn lemma_swap_reserves_follow_trade_log(
    i: Instruction,
    l: Seq<TokenAccountView>,
    amount: u64,
)
    ensures
        spec_buy_event(i, l, amount) matches Ok(e) ==> match spec_trade_of(i) {
            Some(t) => e.virtual_sol_reserves == Some(t.virtual_sol_reserves)
                && e.virtual_token_reserves == Some(t.virtual_token_reserves)
                && e.real_sol_reserves == Some(t.real_sol_reserves) && e.real_token_reserves
                == Some(t.real_token_reserves),
            None => e.virtual_sol_reserves is None && e.virtual_token_reserves is None
                && e.real_sol_reserves is None && e.real_token_reserves is None && e.sol_amount
                is Some,
        },
        spec_sell_event(i, l, amount) matches Ok(e) ==> match spec_trade_of(i) {
            Some(t) => e.virtual_sol_reserves == Some(t.virtual_sol_reserves)
                && e.virtual_token_reserves == Some(t.virtual_token_reserves)
                && e.real_sol_reserves == Some(t.real_sol_reserves) && e.real_token_reserves
                == Some(t.real_token_reserves) && e.sol_amount == Some(t.sol_amount),
            None => e.virtual_sol_reserves is None && e.virtual_token_reserves is None
                && e.real_sol_reserves is None && e.real_token_reserves is None && e.sol_amount
                is None,
        },
{
}

/// A 64-bit value has a unique base-256 digit decomposition.
proof fn lemma_le64_digits(
    a0: u8, a1: u8, a2: u8, a3: u8, a4: u8, a5: u8, a6: u8, a7: u8,
    b0: u8, b1: u8, b2: u8, b3: u8, b4: u8, b5: u8, b6: u8, b7: u8,
)
    requires
        (a0 as u64) + 0x100 * (a1 as u64) + 0x10000 * (a2 as u64) + 0x1000000 * (a3 as u64) + 0x100000000 * (a4 as u64) + 0x10000000000 * (a5 as u64) + 0x1000000000000 * (a6 as u64) + 0x100000000000000 * (a7 as u64) == (b0 as u64) + 0x100 * (b1 as u64) + 0x10000 * (b2 as u64) + 0x1000000 * (b3 as u64) + 0x100000000 * (b4 as u64) + 0x10000000000 * (b5 as u64) + 0x1000000000000 * (b6 as u64) + 0x100000000000000 * (b7 as u64),
    ensures
        a0 == b0 && a1 == b1 && a2 == b2 && a3 == b3 && a4 == b4 && a5 == b5 && a6 == b6 && a7
            == b7,
{
    assert(a0 == b0 && a1 == b1 && a2 == b2 && a3 == b3 && a4 == b4 && a5 == b5 && a6 == b6 && a7
        == b7) by (bit_vector)
        requires
            (a0 as u64) + 0x100 * (a1 as u64) + 0x10000 * (a2 as u64) + 0x1000000 * (a3 as u64) + 0x100000000 * (a4 as u64) + 0x10000000000 * (a5 as u64) + 0x1000000000000 * (a6 as u64) + 0x100000000000000 * (a7 as u64) == (b0 as u64) + 0x100 * (b1 as u64) + 0x10000 * (b2 as u64) + 0x1000000 * (b3 as u64) + 0x100000000 * (b4 as u64) + 0x10000000000 * (b5 as u64) + 0x1000000000000 * (b6 as u64) + 0x100000000000000 * (b7 as u64),
    ;
}

/// Eight little-endian bytes are recovered uniquely from their value.
pub proof fn lemma_le64_injective(s1: Seq<u8>, s2: Seq<u8>)
    requires
        s1.len() == 8,
        s2.len() == 8,
        le64(s1) == le64(s2),
    ensures
        s1 == s2,
{
    lemma_le64_digits(s1[0], s1[1], s1[2], s1[3], s1[4], s1[5], s1[6], s1[7], s2[0], s2[1],
        s2[2], s2[3], s2[4], s2[5], s2[6], s2[7]);
    assert(s1 =~= s2);
}

/// Decoding a byte-exact buy payload is injective: equal decoded events come
/// only from equal payloads, so payloads differing in any field produce
/// different events.
pub proof fn lemma_unpack_buy_injective(s1: Seq<u8>, s2: Seq<u8>)
    requires
        s1.len() == 24,
        s2.len() == 24,
        spec_unpack_pumpfun(s1) matches Ok(v) && v is Buy,
        spec_unpack_pumpfun(s2) matches Ok(v) && v is Buy,
        spec_unpack_pumpfun(s1) == spec_unpack_pumpfun(s2),
    ensures
        s1 == s2,
{
    reveal(spec_unpack_pumpfun);
    lemma_le64_injective(s1.subrange(8, 16), s2.subrange(8, 16));
    lemma_le64_injective(s1.subrange(16, 24), s2.subrange(16, 24));
    assert forall|k: int| 0 <= k < 24 implies s1[k] == s2[k] by {
        if k < 8 {
            assert(s1.subrange(0, 8)[k] == s1[k]);
            assert(s2.subrange(0, 8)[k] == s2[k]);
        } else if k < 16 {
            assert(s1.subrange(8, 16)[k - 8] == s1[k]);
            assert(s2.subrange(8, 16)[k - 8] == s2[k]);
        } else {
            assert(s1.subrange(16, 24)[k - 16] == s1[k]);
            assert(s2.subrange(16, 24)[k - 16] == s2[k]);
        }
    }
    assert(s1 =~= s2);
}

/// Decoding a byte-exact sell payload is injective.
pub proof fn lemma_unpack_sell_injective(s1: Seq<u8>, s2: Seq<u8>)
    requires
        s1.len() == 24,
        s2.len() == 24,
        spec_unpack_pumpfun(s1) matches Ok(v) && v is Sell,
        spec_unpack_pumpfun(s2) matches Ok(v) && v is Sell,
        spec_unpack_pumpfun(s1) == spec_unpack_pumpfun(s2),
    ensures
        s1 == s2,
{
    reveal(spec_unpack_pumpfun);
    lemma_le64_injective(s1.subrange(8, 16), s2.subrange(8, 16));
    lemma_le64_injective(s1.subrange(16, 24), s2.subrange(16, 24));
    assert forall|k: int| 0 <= k < 24 implies s1[k] == s2[k] by {
        if k < 8 {
            assert(s1.subrange(0, 8)[k] == s1[k]);
            assert(s2.subrange(0, 8)[k] == s2[k]);
        } else if k < 16 {
            assert(s1.subrange(8, 16)[k - 8] == s1[k]);
            assert(s2.subrange(8, 16)[k - 8] == s2[k]);
        } else {
            assert(s1.subrange(16, 24)[k - 16] == s1[k]);
            assert(s2.subrange(16, 24)[k - 16] == s2[k]);
        }
    }
    assert(s1 =~= s2);
}

/// Decoding a byte-exact set-params payload is injective.
pub proof fn lemma_unpack_set_params_injective(s1: Seq<u8>, s2: Seq<u8>)
    requires
        s1.len() == 80,
        s2.len() == 80,
        spec_unpack_pumpfun(s1) matches Ok(v) && v is SetParams,
        spec_unpack_pumpfun(s2) matches Ok(v) && v is SetParams,
        spec_unpack_pumpfun(s1) == spec_unpack_pumpfun(s2),
    ensures
        s1 == s2,
{
    reveal(spec_unpack_pumpfun);
    lemma_le64_injective(s1.subrange(40, 48), s2.subrange(40, 48));
    lemma_le64_injective(s1.subrange(48, 56), s2.subrange(48, 56));
    lemma_le64_injective(s1.subrange(56, 64), s2.subrange(56, 64));
    lemma_le64_injective(s1.subrange(64, 72), s2.subrange(64, 72));
    lemma_le64_injective(s1.subrange(72, 80), s2.subrange(72, 80));
    assert forall|k: int| 0 <= k < 80 implies s1[k] == s2[k] by {
        if k < 8 {
            assert(s1.subrange(0, 8)[k] == s1[k]);
            assert(s2.subrange(0, 8)[k] == s2[k]);
        } else if k < 40 {
            assert(s1.subrange(8, 40)[k - 8] == s1[k]);
            assert(s2.subrange(8, 40)[k - 8] == s2[k]);
        } else if k < 48 {
            assert(s1.subrange(40, 48)[k - 40] == s1[k]);
            assert(s2.subrange(40, 48)[k - 40] == s2[k]);
        } else if k < 56 {
            assert(s1.subrange(48, 56)[k - 48] == s1[k]);
            assert(s2.subrange(48, 56)[k - 48] == s2[k]);
        } else if k < 64 {
            assert(s1.subrange(56, 64)[k - 56] == s1[k]);
            assert(s2.subrange(56, 64)[k - 56] == s2[k]);
        } else if k < 72 {
            assert(s1.subrange(64, 72)[k - 64] == s1[k]);
            assert(s2.subrange(64, 72)[k - 64] == s2[k]);
        } else {
            assert(s1.subrange(72, 80)[k - 72] == s1[k]);
            assert(s2.subrange(72, 80)[k - 72] == s2[k]);
        }
    }
    assert(s1 =~= s2);
}

/// Processing the same block twice yields identical output: the result is a
/// function of the input alone, with no hidden state between calls.
pub proof fn lemma_block_processing_deterministic(
    txs: Seq<Transaction>,
    r1: Result<Seq<PumpfunTransactionEventsView>, TransactionErrorView>,
    r2: Result<Seq<PumpfunTransactionEventsView>, TransactionErrorView>,
)
    requires
        r1 == spec_parse_block(txs),
        r2 == spec_parse_block(txs),
    ensures
        r1 == r2,
{
}

/// An unknown instruction discriminant for a target program yields no event
/// and no error, for forward compatibility with future on-chain variants.
pub proof fn lemma_unknown_discriminant_forwards(i: Instruction, l: Seq<TokenAccountView>)
    requires
        spec_unpack_pumpfun(i.data@) == Err::<PumpfunInstructionView, ParseError>(
            ParseError::UnknownDiscriminant,
        ),
        spec_unpack_token(i.data@) == Err::<TokenInstructionView, ParseError>(
            ParseError::UnknownDiscriminant,
        ),
    ensures
        i.program_id@ == PUMPFUN_PROGRAM_ID@ ==> spec_parse_pumpfun_instruction(i, l) == Ok::<
            Option<EventView>, ParseError>(None),
        i.program_id@ == TOKEN_PROGRAM_ID@ ==> spec_parse_token_instruction(i, l) == Ok::<Option<
            crate::token_events::EventView>, ParseError>(None),
{
}

/// Adjusting the account at `address` is seen by a subsequent lookup of that
/// address.
pub proof fn lemma_lookup_after_adjust(l: Seq<TokenAccountView>, address: Seq<u8>, d: LedgerDelta)
    requires
        spec_lookup(l, address) is Some,
    ensures
        spec_lookup(spec_adjust(l, address, d), address) == Some(
            applied(spec_lookup(l, address)->0, d),
        ),
    decreases l.len(),
{
    if l.len() == 0 {
    } else if l[0].address == address {
        assert((seq![applied(l[0], d)] + l.drop_first())[0] == applied(l[0], d));
    } else {
        lemma_lookup_after_adjust(l.drop_first(), address, d);
        assert((seq![l[0]] + spec_adjust(l.drop_first(), address, d))[0] == l[0]);
        assert((seq![l[0]] + spec_adjust(l.drop_first(), address, d)).drop_first()
            =~= spec_adjust(l.drop_first(), address, d));
    }
}

/// Adjusting a different address leaves a lookup unchanged.
pub proof fn lemma_lookup_adjust_other(
    l: Seq<TokenAccountView>,
    address: Seq<u8>,
    other: Seq<u8>,
    d: LedgerDelta,
)
    requires
        address != other,
    ensures
        spec_lookup(spec_adjust(l, other, d), address) == spec_lookup(l, address),
    decreases l.len(),
{
    if l.len() == 0 {
    } else if l[0].address == other {
        assert((seq![applied(l[0], d)] + l.drop_first())[0] == applied(l[0], d));
        assert((seq![applied(l[0], d)] + l.drop_first()).drop_first() =~= l.drop_first());
    } else {
        lemma_lookup_adjust_other(l.drop_first(), address, other, d);
        assert((seq![l[0]] + spec_adjust(l.drop_first(), other, d))[0] == l[0]);
        assert((seq![l[0]] + spec_adjust(l.drop_first(), other, d)).drop_first() =~= spec_adjust(
            l.drop_first(), other, d));
    }
}

/// Ledger updates are order-dependent: applying two transfers that debit the
/// same solvent account in either order leaves different reported balances
/// in a subsequent lookup of that account, whenever their amounts differ.
pub proof fn lemma_ledger_update_order_dependent(
    l: Seq<TokenAccountView>,
    i1: Instruction,
    i2: Instruction,
    x: Seq<u8>,
    a1: u64,
    a2: u64,
    acc: TokenAccountView,
)
    requires
        i1.program_id@ == TOKEN_PROGRAM_ID@,
        i2.program_id@ == TOKEN_PROGRAM_ID@,
        spec_unpack_token(i1.data@) == Ok::<TokenInstructionView, ParseError>(
            TokenInstructionView::Transfer { amount: a1 },
        ),
        spec_unpack_token(i2.data@) == Ok::<TokenInstructionView, ParseError>(
            TokenInstructionView::Transfer { amount: a2 },
        ),
        i1.accounts@.len() >= 2,
        i2.accounts@.len() >= 2,
        i1.accounts@[0]@ == x,
        i2.accounts@[0]@ == x,
        i1.accounts@[1]@ != x,
        i2.accounts@[1]@ != x,
        a1 != a2,
        spec_lookup(l, x) == Some(acc),
        a1 + a2 <= acc.post_balance,
    ensures
        spec_lookup(spec_update_ledger(spec_update_ledger(l, i1), i2), x) != spec_lookup(
            spec_update_ledger(spec_update_ledger(l, i2), i1), x),
{
    let d1 = LedgerDelta::Debit(a1);
    let d2 = LedgerDelta::Debit(a2);
    let c1 = LedgerDelta::Credit(a1);
    let c2 = LedgerDelta::Credit(a2);
    lemma_lookup_after_adjust(l, x, d1);
    lemma_lookup_adjust_other(spec_adjust(l, x, d1), x, i1.accounts@[1]@, c1);
    let m1 = spec_update_ledger(l, i1);
    assert(spec_lookup(m1, x) == Some(debited(acc, a1)));
    lemma_lookup_after_adjust(m1, x, d2);
    lemma_lookup_adjust_other(spec_adjust(m1, x, d2), x, i2.accounts@[1]@, c2);
    let f12 = spec_update_ledger(m1, i2);
    assert(spec_lookup(f12, x) == Some(debited(debited(acc, a1), a2)));

    lemma_lookup_after_adjust(l, x, d2);
    lemma_lookup_adjust_other(spec_adjust(l, x, d2), x, i2.accounts@[1]@, c2);
    let m2 = spec_update_ledger(l, i2);
    assert(spec_lookup(m2, x) == Some(debited(acc, a2)));
    lemma_lookup_after_adjust(m2, x, d1);
    lemma_lookup_adjust_other(spec_adjust(m2, x, d1), x, i1.accounts@[1]@, c1);
    let f21 = spec_update_ledger(m2, i1);
    assert(spec_lookup(f21, x) == Some(debited(debited(acc, a2), a1)));

    assert(debited(debited(acc, a1), a2).pre_balance == acc.post_balance - a1);
    assert(debited(debited(acc, a2), a1).pre_balance == acc.post_balance - a2);
}


/// A 32-bit value has a unique base-256 digit decomposition.
proof fn lemma_le32_digits(a0: u8, a1: u8, a2: u8, a3: u8, b0: u8, b1: u8, b2: u8, b3: u8)
    requires
        (a0 as u32) + 0x100 * (a1 as u32) + 0x10000 * (a2 as u32) + 0x1000000 * (a3 as u32) == (b0 as u32) + 0x100 * (b1 as u32) + 0x10000 * (b2 as u32) + 0x1000000 * (b3 as u32),
    ensures
        a0 == b0 && a1 == b1 && a2 == b2 && a3 == b3,
{
    assert(a0 == b0 && a1 == b1 && a2 == b2 && a3 == b3) by (bit_vector)
        requires
            (a0 as u32) + 0x100 * (a1 as u32) + 0x10000 * (a2 as u32) + 0x1000000 * (a3 as u32) == (b0 as u32) + 0x100 * (b1 as u32) + 0x10000 * (b2 as u32) + 0x1000000 * (b3 as u32),
    ;
}

/// Four little-endian bytes are recovered uniquely from their value.
pub proof fn lemma_le32_injective(s1: Seq<u8>, s2: Seq<u8>)
    requires
        s1.len() == 4,
        s2.len() == 4,
        le32(s1) == le32(s2),
    ensures
        s1 == s2,
{
    lemma_le32_digits(s1[0], s1[1], s1[2], s1[3], s2[0], s2[1], s2[2], s2[3]);
    assert(s1 =~= s2);
}

/// Decoding a byte-exact create payload is injective: when neither payload
/// carries trailing bytes past its third string, equal decoded events come
/// only from equal payloads.
pub proof fn lemma_unpack_create_injective(s1: Seq<u8>, s2: Seq<u8>)
    requires
        spec_unpack_pumpfun(s1) matches Ok(v) && v matches PumpfunInstructionView::Create(c) && s1.len() == 20
            + c.name.len() + c.symbol.len() + c.uri.len(),
        spec_unpack_pumpfun(s2) matches Ok(v) && v matches PumpfunInstructionView::Create(c) && s2.len() == 20
            + c.name.len() + c.symbol.len() + c.uri.len(),
        spec_unpack_pumpfun(s1) == spec_unpack_pumpfun(s2),
    ensures
        s1 == s2,
{
    reveal(spec_unpack_pumpfun);
    let c = spec_unpack_pumpfun(s1)->Ok_0->Create_0;
    let n1 = c.name.len() as int;
    let n2 = c.symbol.len() as int;
    let n3 = c.uri.len() as int;
    lemma_le32_injective(s1.subrange(8, 12), s2.subrange(8, 12));
    lemma_le32_injective(s1.subrange(12 + n1, 16 + n1), s2.subrange(12 + n1, 16 + n1));
    lemma_le32_injective(s1.subrange(16 + n1 + n2, 20 + n1 + n2), s2.subrange(16 + n1 + n2, 20
        + n1 + n2));
    assert forall|k: int| 0 <= k < s1.len() implies s1[k] == s2[k] by {
        if k < 8 {
            assert(s1.subrange(0, 8)[k] == s1[k]);
            assert(s2.subrange(0, 8)[k] == s2[k]);
        } else if k < 12 {
            assert(s1.subrange(8, 12)[k - 8] == s1[k]);
            assert(s2.subrange(8, 12)[k - 8] == s2[k]);
        } else if k < 12 + n1 {
            assert(c.name[k - 12] == s1[k]);
            assert(c.name[k - 12] == s2[k]);
        } else if k < 16 + n1 {
            assert(s1.subrange(12 + n1, 16 + n1)[k - 12 - n1] == s1[k]);
            assert(s2.subrange(12 + n1, 16 + n1)[k - 12 - n1] == s2[k]);
        } else if k < 16 + n1 + n2 {
            assert(c.symbol[k - 16 - n1] == s1[k]);
            assert(c.symbol[k - 16 - n1] == s2[k]);
        } else if k < 20 + n1 + n2 {
            assert(s1.subrange(16 + n1 + n2, 20 + n1 + n2)[k - 16 - n1 - n2] == s1[k]);
            assert(s2.subrange(16 + n1 + n2, 20 + n1 + n2)[k - 16 - n1 - n2] == s2[k]);
        } else {
            assert(c.uri[k - 20 - n1 - n2] == s1[k]);
            assert(c.uri[k - 20 - n1 - n2] == s2[k]);
        }
    }
    assert(s1 =~= s2);
}

/// Decoding a byte-exact token-standard transfer payload is injective.
pub proof fn lemma_unpack_token_transfer_injective(s1: Seq<u8>, s2: Seq<u8>)
    requires
        s1.len() == 9,
        s2.len() == 9,
        spec_unpack_token(s1) matches Ok(v) && v is Transfer,
        spec_unpack_token(s2) matches Ok(v) && v is Transfer,
        spec_unpack_token(s1) == spec_unpack_token(s2),
    ensures
        s1 == s2,
{
    reveal(spec_unpack_token);
    lemma_le64_injective(s1.subrange(1, 9), s2.subrange(1, 9));
    assert forall|k: int| 0 <= k < 9 implies s1[k] == s2[k] by {
        if k >= 1 {
            assert(s1.subrange(1, 9)[k - 1] == s1[k]);
            assert(s2.subrange(1, 9)[k - 1] == s2[k]);
        }
    }
    assert(s1 =~= s2);
}

} // verus!
