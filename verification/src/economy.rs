//! Character Gold: the amount type, wallets, grants and transfers.
use vstd::prelude::*;
use crate::names::{normalize_name, normalized};
use crate::text::{concat, debug_quoted, debug_str, owned};

verus! {

/// An amount of Gold. Arithmetic on it never wraps: it fails instead.
#[derive(Debug)]
pub struct Gold {
    amount: u64,
}

/// Why a Gold operation failed.
#[derive(Debug, Clone, Copy, PartialEq, Eq, Structural)]
pub enum GoldError {
    /// The result would not fit in the amount type.
    Overflow,
    /// A debit larger than the balance.
    InsufficientFunds,
}

impl View for Gold {
    type V = nat;

    closed spec fn view(&self) -> nat {
        self.amount as nat
    }
}

impl Gold {
    pub fn from_u64(amount: u64) -> (g: Gold)
        ensures
            g@ == amount as nat,
    {
        Gold { amount }
    }

    pub fn amount(&self) -> (a: u64)
        ensures
            a as nat == self@,
    {
        self.amount
    }

    /// Adds `amount`; fails with `Overflow` when the sum exceeds `u64::MAX`.
    pub fn credit(self, amount: u64) -> (r: Result<Gold, GoldError>)
        ensures
            self@ + amount <= u64::MAX ==> (r matches Ok(g) && g@ == self@ + amount),
            self@ + amount > u64::MAX ==> r == Err::<Gold, GoldError>(GoldError::Overflow),
    {
        match self.amount.checked_add(amount) {
            Some(sum) => Ok(Gold { amount: sum }),
            None => Err(GoldError::Overflow),
        }
    }

    /// Subtracts `amount`; fails with `InsufficientFunds` rather than wrapping.
    pub fn debit(self, amount: u64) -> (r: Result<Gold, GoldError>)
        ensures
            amount <= self@ ==> (r matches Ok(g) && g@ == self@ - amount),
            amount > self@ ==> r == Err::<Gold, GoldError>(GoldError::InsufficientFunds),
    {
        if amount <= self.amount {
            Ok(Gold { amount: self.amount - amount })
        } else {
            Err(GoldError::InsufficientFunds)
        }
    }
}

/// The player-facing text of a Gold error.
pub open spec fn gold_error_text(err: GoldError) -> Seq<char> {
    match err {
        GoldError::Overflow => "gold overflow"@,
        GoldError::InsufficientFunds => "not enough gold"@,
    }
}

/// The message a reducer returns for `err`.
pub fn gold_err(err: GoldError) -> (s: String)
    ensures
        s@ == gold_error_text(err),
{
    proof {
        reveal_strlit("gold overflow");
        reveal_strlit("not enough gold");
    }
    match err {
        GoldError::Overflow => owned("gold overflow"),
        GoldError::InsufficientFunds => owned("not enough gold"),
    }
}

pub open spec fn zero_amount_text() -> Seq<char> {
    "amount must be greater than 0"@
}

/// A grant of `0` is refused so that a no-op cannot be mistaken for a grant.
pub fn grant_amount(amount: u64) -> (r: Result<u64, String>)
    ensures
        amount == 0 ==> (r matches Err(e) && e@ == zero_amount_text()),
        amount != 0 ==> r == Ok::<u64, String>(amount),
{
    if amount == 0 {
        proof {
            reveal_strlit("amount must be greater than 0");
        }
        return Err(owned("amount must be greater than 0"));
    }
    Ok(amount)
}

/// A character's Gold balance, keyed by the character's id.
#[derive(Debug, Clone, Copy, PartialEq, Eq, Structural)]
pub struct CharacterWallet {
    pub character_id: u128,
    pub gold: u64,
}

/// The wallet a character has before anything was ever credited to it.
pub fn empty_wallet(character_id: u128) -> (w: CharacterWallet)
    ensures
        w.character_id == character_id,
        w.gold == 0,
{
    CharacterWallet { character_id, gold: 0 }
}

/// The wallet after crediting `amount`, or `None` when the credit is refused
/// (a zero amount, or a balance past `u64::MAX`).
pub open spec fn credited(wallet: CharacterWallet, amount: u64) -> Option<CharacterWallet> {
    if amount == 0 || wallet.gold + amount > u64::MAX {
        None
    } else {
        Some(CharacterWallet { character_id: wallet.character_id, gold: (wallet.gold + amount) as u64 })
    }
}

/// The wallet after debiting `amount`, or `None` when the balance is short.
pub open spec fn debited(wallet: CharacterWallet, amount: u64) -> Option<CharacterWallet> {
    if amount > wallet.gold {
        None
    } else {
        Some(CharacterWallet { character_id: wallet.character_id, gold: (wallet.gold - amount) as u64 })
    }
}

/// Credits `amount` onto `wallet`. Zero is refused; so is a balance that
/// would overflow. On success only `gold` changes.
pub fn credit_gold(wallet: &CharacterWallet, amount: u64) -> (r: Result<CharacterWallet, String>)
    ensures
        r is Ok <==> credited(*wallet, amount) is Some,
        r is Ok ==> r->Ok_0 == credited(*wallet, amount)->0,
        amount == 0 ==> (r matches Err(e) && e@ == zero_amount_text()),
        amount != 0 && wallet.gold + amount > u64::MAX ==> (r matches Err(e) && e@
            == gold_error_text(GoldError::Overflow)),
{
    let amount = grant_amount(amount)?;
    match Gold::from_u64(wallet.gold).credit(amount) {
        Ok(gold) => Ok(CharacterWallet { character_id: wallet.character_id, gold: gold.amount() }),
        Err(err) => Err(gold_err(err)),
    }
}

/// Debits `amount` from `wallet`, failing with "not enough gold" rather than
/// wrapping. On success only `gold` changes.
pub fn debit_gold(wallet: &CharacterWallet, amount: u64) -> (r: Result<CharacterWallet, String>)
    ensures
        r is Ok <==> debited(*wallet, amount) is Some,
        r is Ok ==> r->Ok_0 == debited(*wallet, amount)->0,
        amount > wallet.gold ==> (r matches Err(e) && e@ == gold_error_text(
            GoldError::InsufficientFunds,
        )),
{
    match Gold::from_u64(wallet.gold).debit(amount) {
        Ok(gold) => Ok(CharacterWallet { character_id: wallet.character_id, gold: gold.amount() }),
        Err(err) => Err(gold_err(err)),
    }
}

/// A credit that succeeded is undone exactly by a debit of the same amount.
pub proof fn law_credit_then_debit_restores(wallet: CharacterWallet, amount: u64)
    requires
        credited(wallet, amount) is Some,
    ensures
        debited(credited(wallet, amount)->0, amount) == Some(wallet),
{
}

/// A debit of a non-zero amount is undone exactly by a credit of the same amount.
pub proof fn law_debit_then_credit_restores(wallet: CharacterWallet, amount: u64)
    requires
        amount != 0,
        debited(wallet, amount) is Some,
    ensures
        credited(debited(wallet, amount)->0, amount) == Some(wallet),
{
}

/// Moving Gold from one wallet to another (debit the payer, credit the payee
/// the same amount) neither creates nor destroys any.
pub proof fn law_transfer_conserves_gold(payer: CharacterWallet, payee: CharacterWallet, amount: u64)
    requires
        debited(payer, amount) is Some,
        credited(payee, amount) is Some,
    ensures
        debited(payer, amount)->0.gold + credited(payee, amount)->0.gold == payer.gold + payee.gold,
{
}

/// A GM grant as checked before the recipient is looked up: the amount, and
/// the lookup key of the recipient's name.
pub fn gm_grant_request(display_name: &str, amount: u64) -> (r: Result<(u64, String), String>)
    ensures
        amount == 0 ==> (r matches Err(e) && e@ == zero_amount_text()),
        amount != 0 && normalized(display_name@).len() == 0 ==> (r matches Err(e) && e@
            == "character name cannot be empty"@),
        amount != 0 && normalized(display_name@).len() != 0 ==> (r matches Ok((a, key)) && a == amount
            && key@ == normalized(display_name@)),
{
    let amount = grant_amount(amount)?;
    let key = normalize_name(display_name);
    if key.as_str().unicode_len() == 0 {
        proof {
            reveal_strlit("character name cannot be empty");
        }
        return Err(owned("character name cannot be empty"));
    }
    Ok((amount, key))
}

/// The refusal for a GM grant to a name no character has.
pub fn no_character_named(display_name: &str) -> (s: String)
    ensures
        s@ == "no character named "@ + debug_quoted(display_name@),
{
    proof {
        reveal_strlit("no character named ");
    }
    concat(owned("no character named "), debug_str(display_name).as_str())
}

} // verus!
