//! The pool: two assets, their reserves, a deposit ledger for each, and the
//! owner who alone adds liquidity.
use vstd::prelude::*;
use crate::account::{valid_account_id, is_valid_account_id};
use crate::error::AmmError;
use crate::ledger::Ledger;
use crate::pricing::{amount_out_of, numerator_fits, get_amount_out, lemma_amount_out_bounded};

verus! {

/// Descriptive data of a fungible token; never read by the pricing or the
/// ledgers.
pub struct TokenMetadata {
    pub spec: String,
    pub name: String,
    pub symbol: String,
    pub icon: Option<String>,
    pub reference: Option<String>,
    pub reference_hash: Option<Vec<u8>>,
    pub decimals: u8,
}

/// Relies on `near_contract_standards`' `FT_METADATA_SPEC`, the version
/// string of the fungible-token metadata standard, `"ft-1.0.0"`.
#[verifier::external_body]
fn ft_metadata_spec() -> (r: String)
    ensures
        r@ == "ft-1.0.0"@,
{
    near_contract_standards::fungible_token::metadata::FT_METADATA_SPEC.to_owned()
}

impl TokenMetadata {
    /// The two hold equal values in every field.
    pub open spec fn same_as(self, other: TokenMetadata) -> bool {
        &&& self.spec@ == other.spec@
        &&& self.name@ == other.name@
        &&& self.symbol@ == other.symbol@
        &&& (self.icon is Some <==> other.icon is Some)
        &&& (self.icon is Some ==> self.icon->0@ == other.icon->0@)
        &&& (self.reference is Some <==> other.reference is Some)
        &&& (self.reference is Some ==> self.reference->0@ == other.reference->0@)
        &&& (self.reference_hash is Some <==> other.reference_hash is Some)
        &&& (self.reference_hash is Some ==> self.reference_hash->0@
            == other.reference_hash->0@)
        &&& self.decimals == other.decimals
    }

    /// The metadata that the pool shows for a token until its contract
    /// reports its own: a generic name and symbol, 24 decimals.
    pub open spec fn is_placeholder(self) -> bool {
        &&& self.spec@ == "ft-1.0.0"@
        &&& self.name@ == "Example NEAR fungible token"@
        &&& self.symbol@ == "EXAMPLE"@
        &&& self.icon is None
        &&& self.reference is None
        &&& self.reference_hash is None
        &&& self.decimals == 24
    }

    /// The placeholder metadata.
    pub fn placeholder() -> (r: TokenMetadata)
        ensures
            r.is_placeholder(),
    {
        TokenMetadata {
            spec: ft_metadata_spec(),
            name: "Example NEAR fungible token".to_owned(),
            symbol: "EXAMPLE".to_owned(),
            icon: None,
            reference: None,
            reference_hash: None,
            decimals: 24,
        }
    }

    /// A field-by-field copy.
    pub fn duplicate(&self) -> (r: TokenMetadata)
        ensures
            r.same_as(*self),
    {
        let icon = match &self.icon {
            Some(s) => Some(s.clone()),
            None => None,
        };
        let reference = match &self.reference {
            Some(s) => Some(s.clone()),
            None => None,
        };
        let reference_hash = match &self.reference_hash {
            Some(h) => Some(h.clone()),
            None => None,
        };
        TokenMetadata {
            spec: self.spec.clone(),
            name: self.name.clone(),
            symbol: self.symbol.clone(),
            icon,
            reference,
            reference_hash,
            decimals: self.decimals,
        }
    }
}

/// An outbound payment that the pool owes: `amount` of the token `token_id`
/// to the account `receiver_id`, to be carried out by the token's contract.
pub struct Transfer {
    pub receiver_id: String,
    pub token_id: String,
    pub amount: u128,
}

/// The balance of `who` in `m`, zero where `m` holds no entry for it.
pub open spec fn balance_in(m: Map<Seq<char>, u128>, who: Seq<char>) -> u128 {
    if m.contains_key(who) {
        m[who]
    } else {
        0
    }
}

/// What the pool holds, seen as values.
pub struct PoolView {
    pub owner: Seq<char>,
    pub token0: Seq<char>,
    pub token1: Seq<char>,
    pub reserve0: u128,
    pub reserve1: u128,
    pub deposit0: Map<Seq<char>, u128>,
    pub deposit1: Map<Seq<char>, u128>,
}

impl PoolView {
    /// `t` is one of the two assets of the pool.
    pub open spec fn is_asset(self, t: Seq<char>) -> bool {
        t == self.token0 || t == self.token1
    }

    /// Both reserves are positive.
    pub open spec fn is_liquid(self) -> bool {
        self.reserve0 > 0 && self.reserve1 > 0
    }

    /// The reserve of asset `t`.
    pub open spec fn reserve_of(self, t: Seq<char>) -> u128 {
        if t == self.token0 {
            self.reserve0
        } else {
            self.reserve1
        }
    }

    /// The ledger balance of `who` in asset `t`.
    pub open spec fn balance(self, t: Seq<char>, who: Seq<char>) -> u128 {
        if t == self.token0 {
            balance_in(self.deposit0, who)
        } else {
            balance_in(self.deposit1, who)
        }
    }

    /// The pool with the balance of `who` in asset `t` set to `v`.
    pub open spec fn with_balance(self, t: Seq<char>, who: Seq<char>, v: int) -> PoolView {
        if t == self.token0 {
            PoolView { deposit0: self.deposit0.insert(who, v as u128), ..self }
        } else {
            PoolView { deposit1: self.deposit1.insert(who, v as u128), ..self }
        }
    }

    /// The pool after `amount` is added to the balance of `who` in `t`.
    pub open spec fn credit(self, t: Seq<char>, who: Seq<char>, amount: int) -> PoolView {
        self.with_balance(t, who, self.balance(t, who) + amount)
    }

    /// The pool after `amount` is taken from the balance of `who` in `t`.
    pub open spec fn debit(self, t: Seq<char>, who: Seq<char>, amount: int) -> PoolView {
        self.with_balance(t, who, self.balance(t, who) - amount)
    }

    /// The pool after the reserve of `a` is set to `ra`, then that of `b` to
    /// `rb`.
    pub open spec fn with_reserves(self, a: Seq<char>, ra: int, b: Seq<char>, rb: int) -> PoolView {
        let p = if a == self.token0 {
            PoolView { reserve0: ra as u128, ..self }
        } else {
            PoolView { reserve1: ra as u128, ..self }
        };
        if b == p.token0 {
            PoolView { reserve0: rb as u128, ..p }
        } else {
            PoolView { reserve1: rb as u128, ..p }
        }
    }

    /// Why a deposit of `amount` of `t` for `who` is refused, if it is.
    pub open spec fn deposit_error(self, t: Seq<char>, who: Seq<char>, amount: int) -> Option<
        AmmError,
    > {
        if !self.is_asset(t) {
            Some(AmmError::UnknownAsset)
        } else if self.balance(t, who) + amount > u128::MAX {
            Some(AmmError::Overflow)
        } else {
            None
        }
    }

    /// Why taking `amount` of `t` from `who` is refused, if it is.
    pub open spec fn withdraw_error(self, t: Seq<char>, who: Seq<char>, amount: int) -> Option<
        AmmError,
    > {
        if !self.is_asset(t) {
            Some(AmmError::UnknownAsset)
        } else if self.balance(t, who) < amount {
            Some(AmmError::InsufficientBalance)
        } else {
            None
        }
    }

    /// Why the owner's adding `x` of `a` and `y` of `b` is refused, if it is:
    /// the caller, then each debit in turn, then the new reserves.
    pub open spec fn add_liquidity_error(
        self,
        caller: Seq<char>,
        a: Seq<char>,
        x: int,
        b: Seq<char>,
        y: int,
    ) -> Option<AmmError> {
        if caller != self.owner {
            Some(AmmError::Unauthorized)
        } else if self.withdraw_error(a, caller, x).is_some() {
            self.withdraw_error(a, caller, x)
        } else if self.debit(a, caller, x).withdraw_error(b, caller, y).is_some() {
            self.debit(a, caller, x).withdraw_error(b, caller, y)
        } else if self.reserve_of(a) + x > u128::MAX || self.reserve_of(b) + y > u128::MAX {
            Some(AmmError::Overflow)
        } else {
            None
        }
    }

    /// The pool after a successful `add_liquidity`.
    pub open spec fn add_liquidity_result(
        self,
        caller: Seq<char>,
        a: Seq<char>,
        x: int,
        b: Seq<char>,
        y: int,
    ) -> PoolView {
        self.debit(a, caller, x).debit(b, caller, y).with_reserves(
            a,
            self.reserve_of(a) + x,
            b,
            self.reserve_of(b) + y,
        )
    }

    /// What a swap of `amount_in` of `tin` for `tout` pays out.
    pub open spec fn swap_amount_out(self, tin: Seq<char>, tout: Seq<char>, amount_in: int) -> int {
        amount_out_of(amount_in, self.reserve_of(tin) as int, self.reserve_of(tout) as int)
    }

    /// Why a swap is refused, if it is, in the order the steps run: the
    /// liquidity, the two assets, the pricing, the debit, the new reserve of
    /// `tin`, and the credit of the output.
    pub open spec fn swap_error(
        self,
        caller: Seq<char>,
        tin: Seq<char>,
        tout: Seq<char>,
        amount_in: int,
    ) -> Option<AmmError> {
        if !self.is_liquid() {
            Some(AmmError::InsufficientLiquidity)
        } else if !self.is_asset(tin) || !self.is_asset(tout) {
            Some(AmmError::UnknownAsset)
        } else if !numerator_fits(amount_in, self.reserve_of(tout) as int) {
            Some(AmmError::Overflow)
        } else if self.balance(tin, caller) < amount_in {
            Some(AmmError::InsufficientBalance)
        } else if self.reserve_of(tin) + amount_in > u128::MAX {
            Some(AmmError::Overflow)
        } else if self.debit(tin, caller, amount_in).balance(tout, caller) + self.swap_amount_out(
            tin,
            tout,
            amount_in,
        ) > u128::MAX {
            Some(AmmError::Overflow)
        } else {
            None
        }
    }

    /// The pool after a successful swap: the input debited, the output
    /// credited and at once debited again for the outbound transfer, and the
    /// reserves moved by the input and the output.
    pub open spec fn swap_result(
        self,
        caller: Seq<char>,
        tin: Seq<char>,
        tout: Seq<char>,
        amount_in: int,
    ) -> PoolView {
        let out = self.swap_amount_out(tin, tout, amount_in);
        self.debit(tin, caller, amount_in).credit(tout, caller, out).debit(tout, caller, out).with_reserves(
            tin,
            self.reserve_of(tin) + amount_in,
            tout,
            self.reserve_of(tout) - out,
        )
    }
}

/// A two-asset constant-product pool.
pub struct ToyAMM {
    /// The only account that may add liquidity.
    pub owner: String,
    pub token0: String,
    pub token1: String,
    pub meta0: TokenMetadata,
    pub meta1: TokenMetadata,
    pub reserve0: u128,
    pub reserve1: u128,
    /// Balances deposited in `token0`.
    pub deposit0: Ledger,
    /// Balances deposited in `token1`.
    pub deposit1: Ledger,
}

impl View for ToyAMM {
    type V = PoolView;

    open spec fn view(&self) -> PoolView {
        PoolView {
            owner: self.owner@,
            token0: self.token0@,
            token1: self.token1@,
            reserve0: self.reserve0,
            reserve1: self.reserve1,
            deposit0: self.deposit0@,
            deposit1: self.deposit1@,
        }
    }
}

impl ToyAMM {
    /// The two assets differ and both ledgers are well formed.
    pub open spec fn wf(self) -> bool {
        &&& self.token0@ != self.token1@
        &&& self.deposit0.wf()
        &&& self.deposit1.wf()
    }

    /// `other` holds the same token metadata as `self`.
    pub open spec fn same_metadata(self, other: ToyAMM) -> bool {
        self.meta0 == other.meta0 && self.meta1 == other.meta1
    }

    /// A pool of `token0` and `token1` owned by `owner`, with both reserves
    /// zero, empty ledgers and placeholder metadata. Refused with
    /// `InvalidOwner` where `owner` is not a well-formed account identity.
    pub fn new(owner: String, token0: String, token1: String) -> (r: Result<ToyAMM, AmmError>)
        requires
            token0@ != token1@,
        ensures
            !valid_account_id(owner@) ==> r.is_err() && r->Err_0 == AmmError::InvalidOwner,
            valid_account_id(owner@) ==> {
                &&& r.is_ok()
                &&& r->Ok_0.wf()
                &&& r->Ok_0@ == PoolView {
                    owner: owner@,
                    token0: token0@,
                    token1: token1@,
                    reserve0: 0,
                    reserve1: 0,
                    deposit0: Map::empty(),
                    deposit1: Map::empty(),
                }
                &&& r->Ok_0.meta0.is_placeholder()
                &&& r->Ok_0.meta1.is_placeholder()
            },
    {
        if !is_valid_account_id(&owner) {
            return Err(AmmError::InvalidOwner);
        }
        let meta0 = TokenMetadata::placeholder();
        let meta1 = meta0.duplicate();
        Ok(ToyAMM {
            owner,
            token0,
            token1,
            meta0,
            meta1,
            reserve0: 0,
            reserve1: 0,
            deposit0: Ledger::new(),
            deposit1: Ledger::new(),
        })
    }

    /// `new` for a host that reports whether the pool's state already
    /// exists: refused with `InvalidOwner` for a malformed owner, then with
    /// `AlreadyInitialized` where the state exists.
    pub fn initialize(state_exists: bool, owner: String, token0: String, token1: String) -> (r: Result<
        ToyAMM,
        AmmError,
    >)
        requires
            token0@ != token1@,
        ensures
            !valid_account_id(owner@) ==> r.is_err() && r->Err_0 == AmmError::InvalidOwner,
            valid_account_id(owner@) && state_exists ==> r.is_err() && r->Err_0
                == AmmError::AlreadyInitialized,
            valid_account_id(owner@) && !state_exists ==> {
                &&& r.is_ok()
                &&& r->Ok_0.wf()
                &&& r->Ok_0@ == PoolView {
                    owner: owner@,
                    token0: token0@,
                    token1: token1@,
                    reserve0: 0,
                    reserve1: 0,
                    deposit0: Map::empty(),
                    deposit1: Map::empty(),
                }
            },
    {
        if !is_valid_account_id(&owner) {
            return Err(AmmError::InvalidOwner);
        }
        if state_exists {
            return Err(AmmError::AlreadyInitialized);
        }
        ToyAMM::new(owner, token0, token1)
    }

    /// Records the metadata that the contract of `token` reported.
    pub fn metadata(&mut self, token: &String, token_meta: TokenMetadata) -> (r: Result<(), AmmError>)
        requires
            old(self).wf(),
        ensures
            final(self).wf(),
            final(self)@ == old(self)@,
            !old(self)@.is_asset(token@) ==> r == Err::<(), AmmError>(AmmError::UnknownAsset)
                && final(self).same_metadata(*old(self)),
            token@ == old(self).token0@ ==> r.is_ok() && final(self).meta0 == token_meta
                && final(self).meta1 == old(self).meta1,
            token@ == old(self).token1@ ==> r.is_ok() && final(self).meta1 == token_meta
                && final(self).meta0 == old(self).meta0,
    {
        if *token == self.token0 {
            self.meta0 = token_meta;
            Ok(())
        } else if *token == self.token1 {
            self.meta1 = token_meta;
            Ok(())
        } else {
            Err(AmmError::UnknownAsset)
        }
    }

    /// Copies of the metadata of `token0` and `token1`.
    pub fn get_metadata(&self) -> (r: (TokenMetadata, TokenMetadata))
        ensures
            r.0.same_as(self.meta0),
            r.1.same_as(self.meta1),
    {
        (self.meta0.duplicate(), self.meta1.duplicate())
    }

    /// The reserve of asset `t`.
    fn reserve_of(&self, t: &String) -> (r: u128)
        requires
            self@.is_asset(t@),
        ensures
            r == self@.reserve_of(t@),
    {
        if *t == self.token0 {
            self.reserve0
        } else {
            self.reserve1
        }
    }

    /// The ledger balance of `who` in asset `t`.
    fn balance_of(&self, t: &String, who: &String) -> (r: u128)
        requires
            self.wf(),
            self@.is_asset(t@),
        ensures
            r == self@.balance(t@, who@),
    {
        if *t == self.token0 {
            self.deposit0.balance_of(who)
        } else {
            self.deposit1.balance_of(who)
        }
    }

    /// Whether `t` is one of the two assets.
    fn is_asset(&self, t: &String) -> (r: bool)
        ensures
            r == self@.is_asset(t@),
    {
        *t == self.token0 || *t == self.token1
    }

    /// Refuses a swap unless both reserves are positive.
    pub fn assert_liquidity(&self) -> (r: Result<(), AmmError>)
        ensures
            self@.is_liquid() ==> r.is_ok(),
            !self@.is_liquid() ==> r == Err::<(), AmmError>(AmmError::InsufficientLiquidity),
    {
        if self.reserve0 > 0 && self.reserve1 > 0 {
            Ok(())
        } else {
            Err(AmmError::InsufficientLiquidity)
        }
    }

    /// Refuses any caller but the owner.
    pub fn assert_owner(&self, user: &String) -> (r: Result<(), AmmError>)
        ensures
            user@ == self.owner@ ==> r.is_ok(),
            user@ != self.owner@ ==> r == Err::<(), AmmError>(AmmError::Unauthorized),
    {
        if *user == self.owner {
            Ok(())
        } else {
            Err(AmmError::Unauthorized)
        }
    }

    /// The ledger balance of `user` in `token`.
    pub fn get_user_deposit(&self, token: &String, user: &String) -> (r: Result<u128, AmmError>)
        requires
            self.wf(),
        ensures
            self@.is_asset(token@) ==> r == Ok::<u128, AmmError>(self@.balance(token@, user@)),
            !self@.is_asset(token@) ==> r == Err::<u128, AmmError>(AmmError::UnknownAsset),
    {
        if self.is_asset(token) {
            Ok(self.balance_of(token, user))
        } else {
            Err(AmmError::UnknownAsset)
        }
    }

    /// The reserves of `token0` and `token1`.
    pub fn get_reserves(&self) -> (r: (u128, u128))
        ensures
            r == (self.reserve0, self.reserve1),
    {
        (self.reserve0, self.reserve1)
    }

    /// Adds `amount` to the balance of `sender_id` in `token_id`.
    pub fn deposit_token(&mut self, sender_id: &String, token_id: &String, amount: u128) -> (r: Result<
        (),
        AmmError,
    >)
        requires
            old(self).wf(),
        ensures
            final(self).wf(),
            final(self).same_metadata(*old(self)),
            old(self)@.deposit_error(token_id@, sender_id@, amount as int) is Some ==> r == Err::<
                (),
                AmmError,
            >(old(self)@.deposit_error(token_id@, sender_id@, amount as int).unwrap())
                && final(self)@ == old(self)@,
            old(self)@.deposit_error(token_id@, sender_id@, amount as int) is None ==> r.is_ok()
                && final(self)@ == old(self)@.credit(token_id@, sender_id@, amount as int),
    {
        if !self.is_asset(token_id) {
            return Err(AmmError::UnknownAsset);
        }
        let b = self.balance_of(token_id, sender_id);
        if b > u128::MAX - amount {
            return Err(AmmError::Overflow);
        }
        if *token_id == self.token0 {
            self.deposit0.credit(sender_id, amount);
        } else {
            self.deposit1.credit(sender_id, amount);
        }
        Ok(())
    }

    /// Takes `amount` from the balance of `account_id` in `token`, all or
    /// nothing.
    pub fn remove_deposit(&mut self, account_id: &String, token: &String, amount: u128) -> (r:
        Result<(), AmmError>)
        requires
            old(self).wf(),
        ensures
            final(self).wf(),
            final(self).same_metadata(*old(self)),
            old(self)@.withdraw_error(token@, account_id@, amount as int) is Some ==> r == Err::<
                (),
                AmmError,
            >(old(self)@.withdraw_error(token@, account_id@, amount as int).unwrap())
                && final(self)@ == old(self)@,
            old(self)@.withdraw_error(token@, account_id@, amount as int) is None ==> r.is_ok()
                && final(self)@ == old(self)@.debit(token@, account_id@, amount as int),
    {
        if !self.is_asset(token) {
            return Err(AmmError::UnknownAsset);
        }
        if *token == self.token0 {
            self.deposit0.debit(account_id, amount)
        } else {
            self.deposit1.debit(account_id, amount)
        }
    }

    /// Takes `amount` from the balance of `to` in `token_id` and returns the
    /// transfer that pays it out.
    pub fn withdraw_token(&mut self, to: &String, token_id: &String, amount: u128) -> (r: Result<
        Transfer,
        AmmError,
    >)
        requires
            old(self).wf(),
        ensures
            final(self).wf(),
            final(self).same_metadata(*old(self)),
            old(self)@.withdraw_error(token_id@, to@, amount as int) is Some ==> r.is_err()
                && r->Err_0 == old(self)@.withdraw_error(token_id@, to@, amount as int).unwrap()
                && final(self)@ == old(self)@,
            old(self)@.withdraw_error(token_id@, to@, amount as int) is None ==> r.is_ok()
                && r->Ok_0.receiver_id@ == to@ && r->Ok_0.token_id@ == token_id@
                && r->Ok_0.amount == amount
                && final(self)@ == old(self)@.debit(token_id@, to@, amount as int),
    {
        match self.remove_deposit(to, token_id, amount) {
            Ok(()) => Ok(Transfer { receiver_id: to.clone(), token_id: token_id.clone(), amount }),
            Err(e) => Err(e),
        }
    }

    /// Sets the reserve of `token_a` to `reserve_a`, then that of `token_b`
    /// to `reserve_b`.
    pub fn update(&mut self, token_a: &String, token_b: &String, reserve_a: u128, reserve_b: u128)
        requires
            old(self)@.is_asset(token_a@),
            old(self)@.is_asset(token_b@),
        ensures
            final(self).deposit0 == old(self).deposit0,
            final(self).deposit1 == old(self).deposit1,
            final(self).same_metadata(*old(self)),
            final(self)@ == old(self)@.with_reserves(
                token_a@,
                reserve_a as int,
                token_b@,
                reserve_b as int,
            ),
    {
        if *token_a == self.token0 {
            self.reserve0 = reserve_a;
        } else {
            self.reserve1 = reserve_a;
        }
        if *token_b == self.token0 {
            self.reserve0 = reserve_b;
        } else {
            self.reserve1 = reserve_b;
        }
    }

    /// Funds arriving from a token contract: credits `amount` of `token_id`
    /// to `sender_id` and returns the part not kept, which is none.
    pub fn ft_on_transfer(&mut self, token_id: &String, sender_id: &String, amount: u128) -> (r:
        Result<u128, AmmError>)
        requires
            old(self).wf(),
        ensures
            final(self).wf(),
            final(self).same_metadata(*old(self)),
            old(self)@.deposit_error(token_id@, sender_id@, amount as int) is Some ==> r.is_err()
                && r->Err_0 == old(self)@.deposit_error(token_id@, sender_id@, amount as int).unwrap()
                && final(self)@ == old(self)@,
            old(self)@.deposit_error(token_id@, sender_id@, amount as int) is None ==> r == Ok::<
                u128,
                AmmError,
            >(0) && final(self)@ == old(self)@.credit(token_id@, sender_id@, amount as int),
    {
        match self.deposit_token(sender_id, token_id, amount) {
            Ok(()) => Ok(0),
            Err(e) => Err(e),
        }
    }

    /// The owner moves `amount0_in` of `token0_account` and `amount1_in` of
    /// `token1_account` from its ledger balances into the reserves. All or
    /// nothing: any refusal leaves the pool as it was.
    pub fn add_liquidity(
        &mut self,
        caller: &String,
        token0_account: &String,
        amount0_in: u128,
        token1_account: &String,
        amount1_in: u128,
    ) -> (r: Result<(), AmmError>)
        requires
            old(self).wf(),
        ensures
            final(self).wf(),
            final(self).same_metadata(*old(self)),
            caller@ != old(self).owner@ ==> r == Err::<(), AmmError>(AmmError::Unauthorized)
                && final(self)@ == old(self)@,
            old(self)@.add_liquidity_error(
                caller@,
                token0_account@,
                amount0_in as int,
                token1_account@,
                amount1_in as int,
            ) is Some ==> r.is_err() && r->Err_0 == old(self)@.add_liquidity_error(
                caller@,
                token0_account@,
                amount0_in as int,
                token1_account@,
                amount1_in as int,
            ).unwrap() && final(self)@ == old(self)@,
            old(self)@.add_liquidity_error(
                caller@,
                token0_account@,
                amount0_in as int,
                token1_account@,
                amount1_in as int,
            ) is None ==> r.is_ok() && final(self)@ == old(self)@.add_liquidity_result(
                caller@,
                token0_account@,
                amount0_in as int,
                token1_account@,
                amount1_in as int,
            ),
    {
        if let Err(e) = self.assert_owner(caller) {
            return Err(e);
        }
        if !self.is_asset(token0_account) {
            return Err(AmmError::UnknownAsset);
        }
        let balance_a = self.balance_of(token0_account, caller);
        if balance_a < amount0_in {
            return Err(AmmError::InsufficientBalance);
        }
        if !self.is_asset(token1_account) {
            return Err(AmmError::UnknownAsset);
        }
        let balance_b = if *token0_account == *token1_account {
            balance_a - amount0_in
        } else {
            self.balance_of(token1_account, caller)
        };
        if balance_b < amount1_in {
            return Err(AmmError::InsufficientBalance);
        }
        let reserve_a = self.reserve_of(token0_account);
        let reserve_b = self.reserve_of(token1_account);
        if reserve_a > u128::MAX - amount0_in || reserve_b > u128::MAX - amount1_in {
            return Err(AmmError::Overflow);
        }
        let _ = self.remove_deposit(caller, token0_account, amount0_in);
        let _ = self.remove_deposit(caller, token1_account, amount1_in);
        self.update(token0_account, token1_account, reserve_a + amount0_in, reserve_b + amount1_in);
        Ok(())
    }

    /// Swaps `amount_in` of `token_in`, taken from the caller's ledger
    /// balance, for `token_out` at the constant-product price less the fee.
    /// Returns the output and the transfer that pays it out to the caller;
    /// the output passes through the caller's ledger on its way out. All or
    /// nothing: any refusal leaves the pool as it was.
    pub fn swap_for_token(
        &mut self,
        caller: &String,
        token_in: &String,
        token_out: &String,
        amount_in: u128,
    ) -> (r: Result<(u128, Transfer), AmmError>)
        requires
            old(self).wf(),
        ensures
            final(self).wf(),
            final(self).same_metadata(*old(self)),
            !old(self)@.is_liquid() ==> r.is_err() && r->Err_0 == AmmError::InsufficientLiquidity
                && final(self)@ == old(self)@,
            old(self)@.swap_error(caller@, token_in@, token_out@, amount_in as int) is Some
                ==> r.is_err() && r->Err_0 == old(self)@.swap_error(
                caller@,
                token_in@,
                token_out@,
                amount_in as int,
            ).unwrap() && final(self)@ == old(self)@,
            old(self)@.swap_error(caller@, token_in@, token_out@, amount_in as int) is None ==> {
                &&& r.is_ok()
                &&& r->Ok_0.0 == old(self)@.swap_amount_out(token_in@, token_out@, amount_in as int)
                &&& r->Ok_0.1.receiver_id@ == caller@
                &&& r->Ok_0.1.token_id@ == token_out@
                &&& r->Ok_0.1.amount == r->Ok_0.0
                &&& final(self)@ == old(self)@.swap_result(
                    caller@,
                    token_in@,
                    token_out@,
                    amount_in as int,
                )
            },
            r.is_ok() && token_in@ != token_out@ ==> {
                &&& final(self)@.reserve_of(token_out@) + r->Ok_0.0 == old(self)@.reserve_of(
                    token_out@,
                )
                &&& final(self)@.reserve_of(token_in@) - amount_in == old(self)@.reserve_of(
                    token_in@,
                )
            },
    {
        if let Err(e) = self.assert_liquidity() {
            return Err(e);
        }
        if !self.is_asset(token_in) || !self.is_asset(token_out) {
            return Err(AmmError::UnknownAsset);
        }
        let reserve_in = self.reserve_of(token_in);
        let reserve_out = self.reserve_of(token_out);
        let amount_out = match get_amount_out(amount_in, reserve_in, reserve_out) {
            Some(v) => v,
            None => {
                return Err(AmmError::Overflow);
            },
        };
        proof {
            lemma_amount_out_bounded(amount_in as int, reserve_in as int, reserve_out as int);
        }
        assert(amount_out == self@.swap_amount_out(token_in@, token_out@, amount_in as int));
        let balance_in = self.balance_of(token_in, caller);
        if balance_in < amount_in {
            return Err(AmmError::InsufficientBalance);
        }
        if reserve_in > u128::MAX - amount_in {
            return Err(AmmError::Overflow);
        }
        let balance_out = if *token_in == *token_out {
            balance_in - amount_in
        } else {
            self.balance_of(token_out, caller)
        };
        assert(balance_out == self@.debit(token_in@, caller@, amount_in as int).balance(
            token_out@,
            caller@,
        ));
        if balance_out > u128::MAX - amount_out {
            return Err(AmmError::Overflow);
        }
        let _ = self.remove_deposit(caller, token_in, amount_in);
        let _ = self.deposit_token(caller, token_out, amount_out);
        let transfer = match self.withdraw_token(caller, token_out, amount_out) {
            Ok(t) => t,
            Err(e) => {
                return Err(e);
            },
        };
        self.update(token_in, token_out, reserve_in + amount_in, reserve_out - amount_out);
        Ok((amount_out, transfer))
    }
}

} // verus!
