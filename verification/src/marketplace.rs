//! A Dutch auction of one token (tickets) for another (the reward token).
//!
//! The auction keeps track of the average price over all sales made (before
//! the first sale it is derived from the starting price given at
//! construction) and starts each auction at `average_price * sale_multiplier`.
//! From there the price decreases linearly with each block until it reaches
//! `min_price` after `auction_length` blocks, and stays there.
//!
//! Everything this module decides is verified here. What the contract learns
//! from the chain (the current block, the caller, the outcome of an access
//! check or of a call to a token contract) reaches these functions as plain
//! arguments.

use vstd::prelude::*;

use crate::arith::{lemma_sat_mul_monotone, max_int, max_u128, sat_mul, sat_sub, saturating_mul_u128};
use crate::types::{AccountId, Balance, BlockNumber, H256};

verus! {

/// A role that the access-control contract may grant to an account.
#[derive(Clone, Copy, Debug, PartialEq, Eq)]
pub enum Role {
    /// Owner of the given contract.
    Owner(AccountId),
    /// Administrator of the given contract.
    Admin(AccountId),
    /// Allowed to instantiate contracts with the given code hash.
    Initializer(H256),
}

/// The error a token contract answers a failed transfer with.
#[derive(Clone, Debug, PartialEq, Eq)]
pub enum PSP22Error {
    /// A token-specific failure, described by the text.
    Custom(String),
    /// The sender's balance is too low.
    InsufficientBalance,
    /// The spender's allowance is too low.
    InsufficientAllowance,
    /// The recipient is the zero address.
    ZeroRecipientAddress,
    /// The sender is the zero address.
    ZeroSenderAddress,
    /// The recipient contract refused the transfer, for the given reason.
    SafeTransferCheckFailed(String),
}

/// What can go wrong in a marketplace message.
#[derive(Clone, Debug, PartialEq, Eq)]
pub enum MarketplaceError {
    /// The caller lacks the role that the message requires.
    MissingRole(Role),
    /// A call into another contract failed; the text describes how.
    ContractCall(String),
    /// A token contract refused a transfer.
    PSP22TokenCall(PSP22Error),
    /// The current price is above the maximum the buyer accepts.
    MaxPriceExceeded,
    /// The marketplace holds no ticket.
    MarketplaceEmpty,
}

/// An error of the contract environment (`ink_env::Error`), as the
/// marketplace reads it: which failure it was, with the description of the
/// detail that two of the failures carry.
#[derive(Clone, Debug, PartialEq, Eq)]
pub enum EnvironmentError {
    /// A value could not be decoded; the text describes the decoding error.
    Decode(String),
    /// A failure of the off-chain test environment, described by the text.
    OffChain(String),
    /// The called contract trapped.
    CalleeTrapped,
    /// The called contract reverted.
    CalleeReverted,
    /// A storage entry is missing.
    KeyNotFound,
    /// Deprecated: the balance fell below the subsistence threshold.
    BelowSubsistenceThreshold,
    /// A transfer failed.
    TransferFailed,
    /// Deprecated: the endowment was too low.
    EndowmentTooLow,
    /// No code is stored under the given code hash.
    CodeNotFound,
    /// The callee is a plain account, not a contract.
    NotCallable,
    /// An unknown failure.
    Unknown,
    /// Debug message recording is disabled.
    LoggingDisabled,
    /// ECDSA public key recovery failed.
    EcdsaRecoveryFailed,
}

/// The description of an environment error: the variant's name, followed
/// by its detail in parentheses where it carries one.
pub open spec fn environment_error_text(e: EnvironmentError) -> Seq<char> {
    match e {
        EnvironmentError::Decode(d) => "Decode("@ + d@ + ")"@,
        EnvironmentError::OffChain(d) => "OffChain("@ + d@ + ")"@,
        EnvironmentError::CalleeTrapped => "CalleeTrapped"@,
        EnvironmentError::CalleeReverted => "CalleeReverted"@,
        EnvironmentError::KeyNotFound => "KeyNotFound"@,
        EnvironmentError::BelowSubsistenceThreshold => "_BelowSubsistenceThreshold"@,
        EnvironmentError::TransferFailed => "TransferFailed"@,
        EnvironmentError::EndowmentTooLow => "_EndowmentTooLow"@,
        EnvironmentError::CodeNotFound => "CodeNotFound"@,
        EnvironmentError::NotCallable => "NotCallable"@,
        EnvironmentError::Unknown => "Unknown"@,
        EnvironmentError::LoggingDisabled => "LoggingDisabled"@,
        EnvironmentError::EcdsaRecoveryFailed => "EcdsaRecoveryFailed"@,
    }
}

impl MarketplaceError {
    /// The marketplace error for a failed call into another contract: a
    /// `ContractCall` holding the description of the environment's error.
    pub fn from_environment_error(inner: &EnvironmentError) -> (r: MarketplaceError)
        ensures
            r matches MarketplaceError::ContractCall(t) && t@ == environment_error_text(*inner),
    {
        let text = match inner {
            EnvironmentError::Decode(d) => String::from_str("Decode(").concat(d.as_str()).concat(")"),
            EnvironmentError::OffChain(d) => String::from_str("OffChain(").concat(d.as_str()).concat(
                ")",
            ),
            EnvironmentError::CalleeTrapped => String::from_str("CalleeTrapped"),
            EnvironmentError::CalleeReverted => String::from_str("CalleeReverted"),
            EnvironmentError::KeyNotFound => String::from_str("KeyNotFound"),
            EnvironmentError::BelowSubsistenceThreshold => String::from_str("_BelowSubsistenceThreshold"),
            EnvironmentError::TransferFailed => String::from_str("TransferFailed"),
            EnvironmentError::EndowmentTooLow => String::from_str("_EndowmentTooLow"),
            EnvironmentError::CodeNotFound => String::from_str("CodeNotFound"),
            EnvironmentError::NotCallable => String::from_str("NotCallable"),
            EnvironmentError::Unknown => String::from_str("Unknown"),
            EnvironmentError::LoggingDisabled => String::from_str("LoggingDisabled"),
            EnvironmentError::EcdsaRecoveryFailed => String::from_str("EcdsaRecoveryFailed"),
        };
        MarketplaceError::ContractCall(text)
    }
}

impl MarketplaceError {
    /// The outcome of a transfer by a token contract, given what the call
    /// answered: the environment's failure of the call, the token contract's
    /// refusal, or success.
    pub fn transfer_outcome(answer: Result<Result<(), PSP22Error>, EnvironmentError>) -> (r: Result<
        (),
        MarketplaceError,
    >)
        ensures
            match answer {
                Err(e) => r matches Err(MarketplaceError::ContractCall(t)) && t@
                    == environment_error_text(e),
                Ok(Err(pe)) => r == Err::<(), MarketplaceError>(MarketplaceError::PSP22TokenCall(pe)),
                Ok(Ok(_)) => r == Ok::<(), MarketplaceError>(()),
            },
    {
        match answer {
            Err(e) => Err(MarketplaceError::from_environment_error(&e)),
            Ok(Err(pe)) => Err(MarketplaceError::PSP22TokenCall(pe)),
            Ok(Ok(())) => Ok(()),
        }
    }
}

impl From<PSP22Error> for MarketplaceError {
    fn from(inner: PSP22Error) -> (r: MarketplaceError) {
        MarketplaceError::PSP22TokenCall(inner)
    }
}

impl vstd::std_specs::convert::FromSpecImpl<PSP22Error> for MarketplaceError {
    open spec fn obeys_from_spec() -> bool {
        true
    }

    open spec fn from_spec(inner: PSP22Error) -> MarketplaceError {
        MarketplaceError::PSP22TokenCall(inner)
    }
}

/// The event of a sale.
#[derive(Clone, Copy, Debug, PartialEq, Eq)]
pub struct Bought {
    pub account_id: AccountId,
    pub price: Balance,
}

/// The event of an auction restart.
#[derive(Clone, Copy, Debug, PartialEq, Eq)]
pub struct Reset;

/// What a purchase is about: who buys, at what price, in which block.
pub struct PurchaseTerms {
    pub buyer: AccountId,
    pub price: nat,
    pub block: nat,
}

/// A purchase that passed the marketplace's checks and awaits payment.
pub struct Purchase {
    buyer: AccountId,
    price: Balance,
    block: BlockNumber,
}

/// A purchase whose payment went through and whose ticket is to be
/// delivered.
pub struct PaidPurchase {
    buyer: AccountId,
    price: Balance,
    block: BlockNumber,
}

impl View for Purchase {
    type V = PurchaseTerms;

    closed spec fn view(&self) -> PurchaseTerms {
        PurchaseTerms { buyer: self.buyer, price: self.price as nat, block: self.block as nat }
    }
}

impl View for PaidPurchase {
    type V = PurchaseTerms;

    closed spec fn view(&self) -> PurchaseTerms {
        PurchaseTerms { buyer: self.buyer, price: self.price as nat, block: self.block as nat }
    }
}

impl Purchase {
    /// The buyer.
    pub fn buyer(&self) -> (r: AccountId)
        ensures
            r == self@.buyer,
    {
        self.buyer
    }

    /// The price the buyer is to pay.
    pub fn price(&self) -> (r: Balance)
        ensures
            r == self@.price,
    {
        self.price
    }

    /// The step after the payment, where `payment` is the outcome of
    /// transferring `price()` reward tokens from the buyer to the
    /// marketplace: the ticket is to be delivered exactly when the payment
    /// succeeded; otherwise the purchase fails with the payment's error.
    pub fn paid(self, payment: Result<(), MarketplaceError>) -> (r: Result<
        PaidPurchase,
        MarketplaceError,
    >)
        ensures
            match payment {
                Err(e) => r == Err::<PaidPurchase, MarketplaceError>(e),
                Ok(_) => r matches Ok(p) && p@ == self@,
            },
    {
        match payment {
            Err(e) => Err(e),
            Ok(()) => Ok(PaidPurchase { buyer: self.buyer, price: self.price, block: self.block }),
        }
    }
}

impl PaidPurchase {
    /// The buyer, to whom the ticket goes.
    pub fn buyer(&self) -> (r: AccountId)
        ensures
            r == self@.buyer,
    {
        self.buyer
    }

    /// The price the buyer paid.
    pub fn price(&self) -> (r: Balance)
        ensures
            r == self@.price,
    {
        self.price
    }
}

/// The abstract state of the auction.
pub struct AuctionState {
    pub total_proceeds: nat,
    pub tickets_sold: nat,
    pub min_price: nat,
    pub current_start_block: nat,
    pub auction_length: nat,
    pub sale_multiplier: nat,
    pub ticket_token: AccountId,
    pub reward_token: AccountId,
}

impl AuctionState {
    /// The state every marketplace keeps: at least one sale is counted, so
    /// that the average price is defined.
    pub open spec fn valid(self) -> bool {
        &&& self.tickets_sold >= 1
        &&& self.total_proceeds <= u128::MAX
        &&& self.tickets_sold <= u128::MAX
        &&& self.min_price <= u128::MAX
        &&& self.sale_multiplier <= u128::MAX
        &&& self.current_start_block <= u32::MAX
        &&& self.auction_length <= u32::MAX
    }

    /// Average price over all sales.
    pub open spec fn average_price(self) -> int {
        self.total_proceeds as int / self.tickets_sold as int
    }

    /// The amount by which the price falls with each block of the auction:
    /// the distance from the opening price down to the minimal price, spread
    /// over the auction's length (at least one).
    pub open spec fn per_block_reduction(self) -> int {
        max_int(sat_sub(self.opening_price(), self.min_price as int) / self.auction_length as int, 1)
    }

    /// The price at the block at which the auction started, before the
    /// lower bound `min_price` is applied.
    pub open spec fn opening_price(self) -> int {
        sat_mul(self.average_price(), self.sale_multiplier as int)
    }

    /// The number of blocks since the auction started (zero before).
    pub open spec fn elapsed(self, block: int) -> int {
        sat_sub(block, self.current_start_block as int)
    }

    /// The price the marketplace charges at `block`: from the opening price
    /// it falls by `per_block_reduction()` with each block, never below the
    /// minimal price, and is the minimal price once `auction_length` blocks
    /// have passed.
    pub open spec fn price_at(self, block: int) -> int {
        if self.elapsed(block) >= self.auction_length {
            self.min_price as int
        } else {
            max_int(
                sat_sub(self.opening_price(), sat_mul(self.per_block_reduction(), self.elapsed(block))),
                self.min_price as int,
            )
        }
    }

    /// The outcome of the checks `buy` makes before any transfer: the
    /// price to charge, or why the purchase is refused.
    pub open spec fn quote(
        self,
        max_price: Option<Balance>,
        ticket_balance: Result<Balance, MarketplaceError>,
        block: int,
    ) -> Result<Balance, MarketplaceError> {
        match ticket_balance {
            Err(e) => Err(e),
            Ok(available) => if available == 0 {
                Err(MarketplaceError::MarketplaceEmpty)
            } else if max_price is Some && self.price_at(block) > max_price->0 {
                Err(MarketplaceError::MaxPriceExceeded)
            } else {
                Ok(self.price_at(block) as Balance)
            },
        }
    }

    /// The state after a sale at `price` in `block`.
    pub open spec fn after_sale(self, price: int, block: int) -> AuctionState {
        AuctionState {
            total_proceeds: sat_add_u128(self.total_proceeds as int, price) as nat,
            tickets_sold: sat_add_u128(self.tickets_sold as int, 1) as nat,
            current_start_block: block as nat,
            ..self
        }
    }
}

/// The mathematical value of `a.saturating_add(b)` on `u128`.
pub open spec fn sat_add_u128(a: int, b: int) -> int {
    if a + b > u128::MAX {
        u128::MAX as int
    } else {
        a + b
    }
}

/// The marketplace contract's storage.
pub struct Marketplace {
    total_proceeds: Balance,
    tickets_sold: Balance,
    min_price: Balance,
    current_start_block: BlockNumber,
    auction_length: BlockNumber,
    sale_multiplier: Balance,
    ticket_token: AccountId,
    reward_token: AccountId,
}

impl View for Marketplace {
    type V = AuctionState;

    closed spec fn view(&self) -> AuctionState {
        AuctionState {
            total_proceeds: self.total_proceeds as nat,
            tickets_sold: self.tickets_sold as nat,
            min_price: self.min_price as nat,
            current_start_block: self.current_start_block as nat,
            auction_length: self.auction_length as nat,
            sale_multiplier: self.sale_multiplier as nat,
            ticket_token: self.ticket_token,
            reward_token: self.reward_token,
        }
    }
}

impl Marketplace {
    /// The average price over all sales the contract made.
    pub fn average_price(&self) -> (r: Balance)
        requires
            self@.valid(),
        ensures
            r == self@.average_price(),
    {
        self.total_proceeds / self.tickets_sold
    }

    /// The price at which the current auction opens, before the minimal
    /// price is applied: the average price times the multiplier (saturating).
    fn opening_price(&self) -> (r: Balance)
        requires
            self@.valid(),
        ensures
            r == self@.opening_price(),
    {
        saturating_mul_u128(self.average_price(), self.sale_multiplier)
    }

    /// The amount by which the price falls with each block of the auction.
    pub fn per_block_reduction(&self) -> (r: Balance)
        requires
            self@.valid(),
            self@.auction_length > 0,
        ensures
            r == self@.per_block_reduction(),
    {
        let spread = self.opening_price().saturating_sub(self.min_price);
        max_u128(spread / (self.auction_length as u128), 1)
    }

    /// The price the contract charges when buying at `block`.
    pub fn current_price(&self, block: BlockNumber) -> (r: Balance)
        requires
            self@.valid(),
            self@.auction_length > 0,
        ensures
            r == self@.price_at(block as int),
    {
        let elapsed = block.saturating_sub(self.current_start_block);
        if elapsed >= self.auction_length {
            return self.min_price;
        }
        let opening = self.opening_price();
        let reduction = saturating_mul_u128(self.per_block_reduction(), elapsed as u128);
        max_u128(opening.saturating_sub(reduction), self.min_price)
    }

    /// Creates a marketplace whose first auction starts at `current_block`.
    ///
    /// The average price starts at `starting_price / sale_multiplier`, so the
    /// first auction opens at about `starting_price`.
    pub fn new(
        ticket_token: AccountId,
        reward_token: AccountId,
        starting_price: Balance,
        min_price: Balance,
        sale_multiplier: Balance,
        auction_length: BlockNumber,
        current_block: BlockNumber,
    ) -> (r: Self)
        requires
            sale_multiplier > 0,
        ensures
            r@.valid(),
            r@ == (AuctionState {
                total_proceeds: (starting_price / sale_multiplier) as nat,
                tickets_sold: 1,
                min_price: min_price as nat,
                current_start_block: current_block as nat,
                auction_length: auction_length as nat,
                sale_multiplier: sale_multiplier as nat,
                ticket_token,
                reward_token,
            }),
    {
        Marketplace {
            ticket_token,
            reward_token,
            min_price,
            sale_multiplier,
            auction_length,
            current_start_block: current_block,
            total_proceeds: starting_price / sale_multiplier,
            tickets_sold: 1,
        }
    }

    /// Instantiates the marketplace, where `authorization` is the outcome of
    /// checking that the caller holds the role `initializer` for this
    /// contract's code (see `ensure_role`): a caller without it is refused
    /// with that outcome's error; otherwise the marketplace is the one `new`
    /// creates.
    pub fn instantiate(
        authorization: Result<(), MarketplaceError>,
        ticket_token: AccountId,
        reward_token: AccountId,
        starting_price: Balance,
        min_price: Balance,
        sale_multiplier: Balance,
        auction_length: BlockNumber,
        current_block: BlockNumber,
    ) -> (r: Result<Self, MarketplaceError>)
        requires
            authorization is Ok ==> sale_multiplier > 0,
        ensures
            match authorization {
                Err(e) => r == Err::<Self, MarketplaceError>(e),
                Ok(_) => r matches Ok(m) && m@.valid() && m@ == (AuctionState {
                    total_proceeds: (starting_price / sale_multiplier) as nat,
                    tickets_sold: 1,
                    min_price: min_price as nat,
                    current_start_block: current_block as nat,
                    auction_length: auction_length as nat,
                    sale_multiplier: sale_multiplier as nat,
                    ticket_token,
                    reward_token,
                }),
            },
    {
        match authorization {
            Err(e) => Err(e),
            Ok(()) => Ok(
                Marketplace::new(
                    ticket_token,
                    reward_token,
                    starting_price,
                    min_price,
                    sale_multiplier,
                    auction_length,
                    current_block,
                ),
            ),
        }
    }

    /// The role that instantiating the marketplace asks of its caller: to be
    /// an initializer of the contract code with hash `code_hash`.
    pub fn initializer(code_hash: H256) -> (r: Role)
        ensures
            r == Role::Initializer(code_hash),
    {
        Role::Initializer(code_hash)
    }

    /// The length of each auction of a single ticket in blocks.
    pub fn auction_length(&self) -> (r: BlockNumber)
        ensures
            r == self@.auction_length,
    {
        self.auction_length
    }

    /// The block at which the auction of the current ticket started.
    pub fn current_start_block(&self) -> (r: BlockNumber)
        ensures
            r == self@.current_start_block,
    {
        self.current_start_block
    }

    /// The price the contract would charge when buying at `block`.
    pub fn price(&self, block: BlockNumber) -> (r: Balance)
        requires
            self@.valid(),
            self@.auction_length > 0,
        ensures
            r == self@.price_at(block as int),
    {
        self.current_price(block)
    }

    /// The multiplier applied to the average price at the start of each auction.
    pub fn sale_multiplier(&self) -> (r: Balance)
        ensures
            r == self@.sale_multiplier,
    {
        self.sale_multiplier
    }

    /// The minimal price the contract allows.
    pub fn min_price(&self) -> (r: Balance)
        ensures
            r == self@.min_price,
    {
        self.min_price
    }

    /// Address of the reward token contract accepted as payment.
    pub fn reward_token(&self) -> (r: AccountId)
        ensures
            r == self@.reward_token,
    {
        self.reward_token
    }

    /// Address of the ticket token contract auctioned off.
    pub fn ticket_token(&self) -> (r: AccountId)
        ensures
            r == self@.ticket_token,
    {
        self.ticket_token
    }

    /// The role that `set_min_price` and `reset` ask of their caller, for the
    /// marketplace deployed at `this`.
    pub fn admin(this: AccountId) -> (r: Role)
        ensures
            r == Role::Admin(this),
    {
        Role::Admin(this)
    }

    /// The outcome of checking that the caller holds `role`, given the
    /// access-control contract's answer to whether it does: allowed when it
    /// answered yes, `MissingRole(role)` when it answered no, and the call's
    /// failure when the call failed.
    pub fn ensure_role(role: Role, has_role: Result<bool, EnvironmentError>) -> (r: Result<
        (),
        MarketplaceError,
    >)
        ensures
            match has_role {
                Ok(true) => r == Ok::<(), MarketplaceError>(()),
                Ok(false) => r == Err::<(), MarketplaceError>(MarketplaceError::MissingRole(role)),
                Err(e) => r matches Err(MarketplaceError::ContractCall(t)) && t@
                    == environment_error_text(e),
            },
    {
        match has_role {
            Ok(true) => Ok(()),
            Ok(false) => Err(MarketplaceError::MissingRole(role)),
            Err(e) => Err(MarketplaceError::from_environment_error(&e)),
        }
    }

    /// Updates the minimal price, where `authorization` is the outcome of
    /// checking that the caller holds the role `admin` (see `ensure_role`).
    pub fn set_min_price(&mut self, authorization: Result<(), MarketplaceError>, value: Balance) -> (r: Result<
        (),
        MarketplaceError,
    >)
        requires
            old(self)@.valid(),
        ensures
            final(self)@.valid(),
            match authorization {
                Err(e) => r == Err::<(), MarketplaceError>(e) && final(self)@ == old(self)@,
                Ok(_) => r == Ok::<(), MarketplaceError>(()) && final(self)@ == (AuctionState {
                    min_price: value as nat,
                    ..old(self)@
                }),
            },
    {
        match authorization {
            Err(e) => Err(e),
            Ok(()) => {
                self.min_price = value;
                Ok(())
            },
        }
    }

    /// Restarts the auction from `block`, keeping the average price of
    /// earlier sales; `authorization` is the outcome of checking that the
    /// caller holds the role `admin` (see `ensure_role`). Returns the event to emit.
    pub fn reset(&mut self, authorization: Result<(), MarketplaceError>, block: BlockNumber) -> (r: Result<
        Reset,
        MarketplaceError,
    >)
        requires
            old(self)@.valid(),
        ensures
            final(self)@.valid(),
            match authorization {
                Err(e) => r == Err::<Reset, MarketplaceError>(e) && final(self)@ == old(self)@,
                Ok(_) => r == Ok::<Reset, MarketplaceError>(Reset) && final(self)@ == (AuctionState {
                    current_start_block: block as nat,
                    ..old(self)@
                }),
            },
    {
        match authorization {
            Err(e) => Err(e),
            Ok(()) => {
                self.current_start_block = block;
                Ok(Reset)
            },
        }
    }

    /// The checks `buy` makes before any transfer: given the marketplace's
    /// ticket balance (or the error the ticket contract answered), the
    /// buyer's limit and the current block, the price to charge or why the
    /// purchase is refused.
    pub fn quote(
        &self,
        max_price: Option<Balance>,
        ticket_balance: Result<Balance, MarketplaceError>,
        block: BlockNumber,
    ) -> (r: Result<Balance, MarketplaceError>)
        requires
            self@.valid(),
            ticket_balance matches Ok(b) && b > 0 ==> self@.auction_length > 0,
        ensures
            r == self@.quote(max_price, ticket_balance, block as int),
    {
        let available = match ticket_balance {
            Err(e) => {
                return Err(e);
            },
            Ok(b) => b,
        };
        if available == 0 {
            return Err(MarketplaceError::MarketplaceEmpty);
        }
        let price = self.current_price(block);
        if let Some(max_price) = max_price {
            if price > max_price {
                return Err(MarketplaceError::MaxPriceExceeded);
            }
        }
        Ok(price)
    }

    /// The first step of buying a ticket for `buyer` in `block`: the checks
    /// made before any transfer (see `quote`). On success the purchase says
    /// what `buyer` is to pay; the payment is the next step.
    pub fn begin_purchase(
        &self,
        max_price: Option<Balance>,
        ticket_balance: Result<Balance, MarketplaceError>,
        buyer: AccountId,
        block: BlockNumber,
    ) -> (r: Result<Purchase, MarketplaceError>)
        requires
            self@.valid(),
            ticket_balance matches Ok(b) && b > 0 ==> self@.auction_length > 0,
        ensures
            match self@.quote(max_price, ticket_balance, block as int) {
                Err(e) => r == Err::<Purchase, MarketplaceError>(e),
                Ok(price) => r matches Ok(p) && p@ == (PurchaseTerms {
                    buyer,
                    price: price as nat,
                    block: block as nat,
                }),
            },
    {
        match self.quote(max_price, ticket_balance, block) {
            Err(e) => Err(e),
            Ok(price) => Ok(Purchase { buyer, price, block }),
        }
    }

    /// The last step of buying a ticket: `delivery` is the outcome of
    /// transferring the ticket of a paid purchase to its buyer. When it
    /// succeeded the sale counts towards the average price and the next
    /// auction starts at the purchase's block; otherwise nothing changes.
    pub fn buy(&mut self, purchase: PaidPurchase, delivery: Result<(), MarketplaceError>) -> (r:
        Result<Bought, MarketplaceError>)
        requires
            old(self)@.valid(),
        ensures
            final(self)@.valid(),
            match delivery {
                Err(e) => r == Err::<Bought, MarketplaceError>(e) && final(self)@ == old(self)@,
                Ok(_) => r == Ok::<Bought, MarketplaceError>(
                    Bought { account_id: purchase@.buyer, price: purchase@.price as Balance },
                ) && final(self)@ == old(self)@.after_sale(
                    purchase@.price as int,
                    purchase@.block as int,
                ),
            },
    {
        if let Err(e) = delivery {
            return Err(e);
        }
        self.total_proceeds = self.total_proceeds.saturating_add(purchase.price);
        self.tickets_sold = self.tickets_sold.saturating_add(1);
        self.current_start_block = purchase.block;
        Ok(Bought { account_id: purchase.buyer, price: purchase.price })
    }
}

/// The price never falls below the minimal price.
pub proof fn lemma_price_at_least_min(s: AuctionState, block: int)
    ensures
        s.price_at(block) >= s.min_price,
{
}

/// Within one auction the price never rises: a later block is never
/// charged more than an earlier one.
pub proof fn lemma_price_non_increasing(s: AuctionState, earlier: int, later: int)
    requires
        s.valid(),
        earlier <= later,
    ensures
        s.price_at(later) <= s.price_at(earlier),
{
    assert(s.elapsed(earlier) <= s.elapsed(later));
    if s.elapsed(later) < s.auction_length {
        assert(s.per_block_reduction() >= 1);
        lemma_sat_mul_monotone(s.per_block_reduction(), s.elapsed(earlier), s.elapsed(later));
    }
}

/// An auction opens at `average_price() * sale_multiplier()` (saturating),
/// or at the minimal price if that is higher; so does any block up to the
/// auction's start.
pub proof fn lemma_price_at_opening(s: AuctionState, block: int)
    requires
        s.valid(),
        s.auction_length > 0,
        block <= s.current_start_block,
    ensures
        s.price_at(block) == max_int(
            sat_mul(s.average_price(), s.sale_multiplier as int),
            s.min_price as int,
        ),
{
    assert(s.elapsed(block) == 0);
    assert(s.per_block_reduction() * 0 == 0) by (nonlinear_arith);
}

/// Once `auction_length()` blocks have passed since the auction started,
/// the price is the minimal price.
pub proof fn lemma_price_reaches_min(s: AuctionState, block: int)
    requires
        block - s.current_start_block >= s.auction_length,
    ensures
        s.price_at(block) == s.min_price,
{
}

/// Before the auction's end, each block lowers the price by exactly
/// `per_block_reduction()`, as long as the lowered price stays at or above
/// the minimal price.
pub proof fn lemma_price_falls_linearly(s: AuctionState, block: int)
    requires
        s.valid(),
        block >= s.current_start_block,
        block + 1 - s.current_start_block < s.auction_length,
        s.per_block_reduction() * (block + 1 - s.current_start_block) <= s.opening_price() - s.min_price,
    ensures
        s.price_at(block) - s.price_at(block + 1) == s.per_block_reduction(),
{
    let r = s.per_block_reduction();
    let e = block - s.current_start_block;
    assert(s.elapsed(block) == e);
    assert(s.elapsed(block + 1) == e + 1);
    assert(r * (e + 1) == r * e + r) by (nonlinear_arith);
    assert(r * e >= 0) by (nonlinear_arith)
        requires
            r >= 1,
            e >= 0,
    ;
    assert(s.opening_price() <= u128::MAX);
}

/// Over the auction the price falls from the opening price to the minimal
/// price: it opens at `max(average_price() * sale_multiplier(), min_price())`,
/// never rises, and is `min_price()` from `auction_length()` blocks on.
pub proof fn lemma_price_schedule(s: AuctionState, block: int)
    requires
        s.valid(),
        s.auction_length > 0,
    ensures
        s.price_at(s.current_start_block as int) == max_int(s.opening_price(), s.min_price as int),
        s.current_start_block <= block ==> s.price_at(block) <= s.price_at(
            s.current_start_block as int,
        ),
        s.current_start_block + s.auction_length <= block ==> s.price_at(block) == s.min_price,
{
    lemma_price_at_opening(s, s.current_start_block as int);
    if s.current_start_block <= block {
        lemma_price_non_increasing(s, s.current_start_block as int, block);
    }
}

/// A purchase that `quote` admits is charged the price of the block, and
/// never more than the buyer's limit.
pub proof fn lemma_quote_respects_limit(
    s: AuctionState,
    max_price: Option<Balance>,
    ticket_balance: Result<Balance, MarketplaceError>,
    block: int,
)
    requires
        s.valid(),
        s.quote(max_price, ticket_balance, block) is Ok,
    ensures
        s.quote(max_price, ticket_balance, block)->Ok_0 == s.price_at(block),
        max_price matches Some(m) ==> s.quote(max_price, ticket_balance, block)->Ok_0 <= m,
{
    lemma_price_at_least_min(s, block);
    assert(s.price_at(block) <= u128::MAX) by {
        assert(s.opening_price() <= u128::MAX);
    }
}

/// A fresh marketplace opens its first auction at `starting_price` (or at
/// the minimal price if that is higher) when `sale_multiplier` divides the
/// starting price.
pub proof fn lemma_first_auction_opens_at_starting_price(
    starting_price: Balance,
    min_price: Balance,
    sale_multiplier: Balance,
    s: AuctionState,
)
    requires
        sale_multiplier > 0,
        starting_price % sale_multiplier == 0,
        s.valid(),
        s.auction_length > 0,
        s.tickets_sold == 1,
        s.total_proceeds == starting_price / sale_multiplier,
        s.sale_multiplier == sale_multiplier,
        s.min_price == min_price,
    ensures
        s.price_at(s.current_start_block as int) == max_int(starting_price as int, min_price as int),
{
    lemma_price_at_opening(s, s.current_start_block as int);
    let q = starting_price as int / sale_multiplier as int;
    assert(q * sale_multiplier == starting_price) by (nonlinear_arith)
        requires
            sale_multiplier > 0,
            starting_price % sale_multiplier == 0,
            q == starting_price as int / sale_multiplier as int,
    ;
    assert(s.average_price() == q);
}

/// A restart keeps the average price of earlier sales: the new auction
/// opens where an auction over the same sales would.
pub proof fn lemma_restart_keeps_average(s: AuctionState, block: nat)
    requires
        s.valid(),
        s.auction_length > 0,
        block <= u32::MAX,
    ensures
        (AuctionState { current_start_block: block, ..s }).valid(),
        (AuctionState { current_start_block: block, ..s }).average_price() == s.average_price(),
        (AuctionState { current_start_block: block, ..s }).price_at(block as int) == max_int(
            sat_mul(s.average_price(), s.sale_multiplier as int),
            s.min_price as int,
        ),
{
    lemma_price_at_opening(AuctionState { current_start_block: block, ..s }, block as int);
}

/// A sale counts towards the average: unless the counters saturate, the
/// new average is the total of all proceeds, this sale's price included,
/// over the number of sales, and the next auction opens at that average
/// times the multiplier.
pub proof fn lemma_sale_updates_average(s: AuctionState, price: Balance, block: BlockNumber)
    requires
        s.valid(),
        s.auction_length > 0,
        s.total_proceeds + price <= u128::MAX,
        s.tickets_sold + 1 <= u128::MAX,
    ensures
        s.after_sale(price as int, block as int).valid(),
        s.after_sale(price as int, block as int).average_price() == (s.total_proceeds + price) as int / (
        s.tickets_sold + 1) as int,
        s.after_sale(price as int, block as int).price_at(block as int) == max_int(
            sat_mul(
                (s.total_proceeds + price) as int / (s.tickets_sold + 1) as int,
                s.sale_multiplier as int,
            ),
            s.min_price as int,
        ),
{
    lemma_price_at_opening(s.after_sale(price as int, block as int), block as int);
}

/// The price of a block within an auction, in terms of the stored state:
/// `e` blocks after the start (`e < auction_length`) the price is the opening
/// price `(total_proceeds / tickets_sold) * sale_multiplier` (saturating)
/// lowered by `e` times the per-block step `(opening - min_price) /
/// auction_length` (at least 1), and never below `min_price`.
pub proof fn lemma_price_within_auction(s: AuctionState, e: int)
    requires
        s.valid(),
        0 <= e < s.auction_length,
    ensures
        s.price_at(s.current_start_block + e) == ({
            let opening = sat_mul(
                s.total_proceeds as int / s.tickets_sold as int,
                s.sale_multiplier as int,
            );
            let step = max_int(sat_sub(opening, s.min_price as int) / s.auction_length as int, 1);
            max_int(sat_sub(opening, sat_mul(step, e)), s.min_price as int)
        }),
        s.per_block_reduction() == max_int(
            sat_sub(
                sat_mul(s.total_proceeds as int / s.tickets_sold as int, s.sale_multiplier as int),
                s.min_price as int,
            ) / s.auction_length as int,
            1,
        ),
{
    assert(s.elapsed(s.current_start_block + e) == e);
}

/// A purchase goes ahead at the block's price exactly when tickets are
/// available and the price is within the buyer's limit (if any): the
/// purchase is refused for its price only when that price exceeds the
/// limit, and for emptiness only when no ticket is left.
pub proof fn lemma_quote_admits_within_limit(
    s: AuctionState,
    max_price: Option<Balance>,
    available: Balance,
    block: int,
)
    requires
        s.valid(),
    ensures
        (available > 0 && (max_price is Some ==> s.price_at(block) <= max_price->0)) ==> s.quote(
            max_price,
            Ok(available),
            block,
        ) == Ok::<Balance, MarketplaceError>(s.price_at(block) as Balance),
        s.quote(max_price, Ok(available), block) == Err::<Balance, MarketplaceError>(
            MarketplaceError::MaxPriceExceeded,
        ) ==> available > 0 && max_price is Some && s.price_at(block) > max_price->0,
        s.quote(max_price, Ok(available), block) == Err::<Balance, MarketplaceError>(
            MarketplaceError::MarketplaceEmpty,
        ) <==> available == 0,
{
}

} // verus!
