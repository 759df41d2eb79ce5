//! The gateway itself: its configuration, the rule that admits a
//! deposit, and the split of an admitted one.

use vstd::prelude::*;
use crate::fees::{covers_fee, fee_is_covered, fee_share, rest_share, split_amount, Split};
use crate::token::{native_token_name, Address, TokenId};

verus! {

/// Why the gateway refused a configuration or a deposit.
#[derive(Debug, Clone, Copy, PartialEq, Eq, Structural)]
pub enum GatewayError {
    /// The minimum amount is negative, or the fee is not above zero.
    InvalidConfiguration,
    /// The deposit is not in the token that the gateway accepts.
    WrongToken,
    /// The deposit does not exceed the minimum amount.
    BelowMinimum,
}

/// What a gateway is configured with, as mathematical values.
pub struct Settings {
    pub min_amount: nat,
    pub fees_percent: nat,
    pub fees_addr: Seq<u8>,
    pub rest_addr: Seq<u8>,
    pub token: Seq<u8>,
}

/// Whether a minimum amount and a fee make a configuration: the minimum
/// is not negative and the fee is above zero.
pub open spec fn valid_configuration(min_amount: int, fees_in_percent: int) -> bool {
    min_amount >= 0 && fees_in_percent > 0
}

/// The token that a gateway accepts when it is configured with
/// `opt_token`: the native token where none is given.
pub open spec fn configured_token(opt_token: Option<Seq<u8>>) -> Seq<u8> {
    match opt_token {
        Some(token) => token,
        None => native_token_name(),
    }
}

/// Why a deposit of `amount` in `token` is refused under `settings`, or
/// `None` where it is accepted. The token is looked at first, so a
/// deposit in another token is a `WrongToken` whatever its amount.
pub open spec fn refusal(settings: Settings, token: Seq<u8>, amount: nat) -> Option<GatewayError> {
    if token != settings.token {
        Some(GatewayError::WrongToken)
    } else if amount <= settings.min_amount {
        Some(GatewayError::BelowMinimum)
    } else {
        None
    }
}

/// Whether a gateway can answer a deposit of `amount` in `token`: it
/// refuses the deposit, or the fee on it can be paid out of it. The fee
/// on a deposit can always be paid where it is 100 per cent or less.
pub open spec fn answerable(settings: Settings, token: Seq<u8>, amount: nat) -> bool {
    refusal(settings, token, amount) is None ==> covers_fee(amount, settings.fees_percent)
}

/// Whether `outcome` is what a deposit of `amount` in `token` comes to
/// under `settings`: the reason why it is refused, or the fee, rounded
/// down, and the rest.
pub open spec fn is_outcome(
    settings: Settings,
    token: Seq<u8>,
    amount: nat,
    outcome: Result<Split, GatewayError>,
) -> bool {
    match refusal(settings, token, amount) {
        Some(reason) => outcome == Err::<Split, GatewayError>(reason),
        None => outcome matches Ok(split) && split.fees_amount == fee_share(
            amount,
            settings.fees_percent,
        ) && split.rest_amount == rest_share(amount, settings.fees_percent)
            && split.fees_amount + split.rest_amount == amount,
    }
}

/// A gateway that takes deposits in one token and splits each between a
/// fees account and a rest account.
pub trait GtwFees1: Sized {
    /// The configuration that the gateway holds.
    spec fn settings(&self) -> Settings;

    /// Configures a gateway. The minimum amount must not be negative and
    /// the fee must be above zero; without a token the gateway accepts
    /// the native token.
    fn init(
        min_amount: i128,
        fees_in_percent: i128,
        fees_addr: Address,
        rest_addr: Address,
        opt_token_id: Option<TokenId>,
    ) -> (configured: Result<Self, GatewayError>)
        ensures
            configured is Ok <==> valid_configuration(min_amount as int, fees_in_percent as int),
            configured is Err ==> configured == Err::<Self, GatewayError>(
                GatewayError::InvalidConfiguration,
            ),
            configured matches Ok(gateway) ==> gateway.settings() == (Settings {
                min_amount: min_amount as nat,
                fees_percent: fees_in_percent as nat,
                fees_addr: fees_addr@,
                rest_addr: rest_addr@,
                token: configured_token(
                    match opt_token_id {
                        Some(token) => Some(token@),
                        None => None,
                    },
                ),
            }),
    ;

    /// Takes a deposit of `payment_amount` in `payment_token`: refuses
    /// it, or cuts it into the fee and the rest. The fee on an accepted
    /// deposit must not exceed the deposit, which holds of every deposit
    /// where the fee is 100 per cent or less.
    #[allow(non_snake_case)]
    fn sendToken(&self, payment_token: &TokenId, payment_amount: u128) -> (outcome: Result<
        Split,
        GatewayError,
    >)
        requires
            answerable(self.settings(), payment_token@, payment_amount as nat),
        ensures
            is_outcome(self.settings(), payment_token@, payment_amount as nat, outcome),
    ;

    /// The token in which the gateway takes deposits.
    fn accepted_payment_token_id(&self) -> (token: &TokenId)
        ensures
            token@ == self.settings().token,
    ;

    /// The account that receives the fees.
    fn accepted_fees_addr_id(&self) -> (address: Address)
        ensures
            address@ == self.settings().fees_addr,
    ;

    /// The account that receives the rest.
    fn accepted_rest_addr_id(&self) -> (address: Address)
        ensures
            address@ == self.settings().rest_addr,
    ;

    /// The amount that a deposit must exceed.
    fn min_amount(&self) -> (amount: u128)
        ensures
            amount == self.settings().min_amount,
    ;

    /// The fee, in whole percent of a deposit. It is above zero: no
    /// gateway is configured otherwise.
    fn fees_in_percent(&self) -> (percent: u128)
        ensures
            percent == self.settings().fees_percent,
            percent > 0,
    ;
}

/// A gateway that keeps its configuration in memory. It is configured
/// once, by `init`, and nothing changes it afterwards.
#[derive(Debug)]
pub struct DepositSplitter {
    min_amount: u128,
    fees_percent: u128,
    fees_addr: Address,
    rest_addr: Address,
    token: TokenId,
}

impl View for DepositSplitter {
    type V = Settings;

    closed spec fn view(&self) -> Settings {
        Settings {
            min_amount: self.min_amount as nat,
            fees_percent: self.fees_percent as nat,
            fees_addr: self.fees_addr@,
            rest_addr: self.rest_addr@,
            token: self.token@,
        }
    }
}

impl DepositSplitter {
    /// The fee that a gateway holds is above zero.
    #[verifier::type_invariant]
    closed spec fn fee_is_positive(self) -> bool {
        self.fees_percent > 0
    }
}

impl GtwFees1 for DepositSplitter {
    closed spec fn settings(&self) -> Settings {
        self@
    }

    fn init(
        min_amount: i128,
        fees_in_percent: i128,
        fees_addr: Address,
        rest_addr: Address,
        opt_token_id: Option<TokenId>,
    ) -> (configured: Result<Self, GatewayError>) {
        if min_amount < 0 || fees_in_percent <= 0 {
            return Err(GatewayError::InvalidConfiguration);
        }
        let token = match opt_token_id {
            Some(token) => token,
            None => TokenId::egld(),
        };
        Ok(
            DepositSplitter {
                min_amount: min_amount as u128,
                fees_percent: fees_in_percent as u128,
                fees_addr,
                rest_addr,
                token,
            },
        )
    }

    #[allow(non_snake_case)]
    fn sendToken(&self, payment_token: &TokenId, payment_amount: u128) -> (outcome: Result<
        Split,
        GatewayError,
    >) {
        if !payment_token.same_token(&self.token) {
            return Err(GatewayError::WrongToken);
        }
        if payment_amount <= self.min_amount {
            return Err(GatewayError::BelowMinimum);
        }
        Ok(split_amount(payment_amount, self.fees_percent))
    }

    fn accepted_payment_token_id(&self) -> (token: &TokenId) {
        &self.token
    }

    fn accepted_fees_addr_id(&self) -> (address: Address) {
        self.fees_addr
    }

    fn accepted_rest_addr_id(&self) -> (address: Address) {
        self.rest_addr
    }

    fn min_amount(&self) -> (amount: u128) {
        self.min_amount
    }

    fn fees_in_percent(&self) -> (percent: u128) {
        proof {
            use_type_invariant(self);
        }
        self.fees_percent
    }
}

/// Takes a deposit wherever `gateway` can answer it, and gives `None`
/// where the fee on an accepted deposit would exceed the deposit.
pub fn try_send_token<G: GtwFees1>(
    gateway: &G,
    payment_token: &TokenId,
    payment_amount: u128,
) -> (answer: Option<Result<Split, GatewayError>>)
    ensures
        answer is Some <==> answerable(gateway.settings(), payment_token@, payment_amount as nat),
        answer matches Some(outcome) ==> is_outcome(
            gateway.settings(),
            payment_token@,
            payment_amount as nat,
            outcome,
        ),
{
    let accepted = payment_token.same_token(gateway.accepted_payment_token_id())
        && payment_amount > gateway.min_amount();
    if accepted && !fee_is_covered(payment_amount, gateway.fees_in_percent()) {
        None
    } else {
        Some(gateway.sendToken(payment_token, payment_amount))
    }
}

} // verus!
