//! What holds of every configuration and every deposit.

use vstd::prelude::*;
use crate::fees::{covers_fee, fee_share, rest_share, Split};
use crate::gateway::{
    configured_token, refusal, valid_configuration, GatewayError, GtwFees1, Settings,
};
use crate::token::{Address, TokenId};

verus! {

/// Nothing is created and nothing is lost: the fee and the rest of a
/// deposit add up to the deposit, and where the fee does not exceed the
/// deposit neither part is negative.
pub proof fn lemma_split_conserves(amount: nat, percent: nat)
    ensures
        fee_share(amount, percent) + rest_share(amount, percent) == amount,
        covers_fee(amount, percent) ==> 0 <= rest_share(amount, percent) <= amount,
{
}

/// A deposit of exactly the minimum amount in the accepted token is
/// refused as below the minimum, and one of a unit more is accepted.
pub proof fn lemma_minimum_is_excluded(settings: Settings)
    ensures
        refusal(settings, settings.token, settings.min_amount) == Some(
            GatewayError::BelowMinimum,
        ),
        refusal(settings, settings.token, settings.min_amount + 1) is None,
{
}

/// A deposit in the accepted token is accepted exactly when its amount
/// exceeds the minimum.
pub proof fn lemma_accepted_above_minimum(settings: Settings, amount: nat)
    ensures
        refusal(settings, settings.token, amount) is None <==> amount > settings.min_amount,
{
}

/// A deposit in any other token than the accepted one is refused as in
/// the wrong token, whatever its amount.
pub proof fn lemma_other_token_refused(settings: Settings, token: Seq<u8>, amount: nat)
    requires
        token != settings.token,
    ensures
        refusal(settings, token, amount) == Some(GatewayError::WrongToken),
{
}

/// No configuration has a fee of zero or less, and none has a negative
/// minimum amount.
pub proof fn lemma_configuration_bounds(min_amount: int, fees_in_percent: int)
    ensures
        fees_in_percent <= 0 ==> !valid_configuration(min_amount, fees_in_percent),
        min_amount < 0 ==> !valid_configuration(min_amount, fees_in_percent),
        min_amount >= 0 && fees_in_percent > 0 ==> valid_configuration(
            min_amount,
            fees_in_percent,
        ),
{
}

/// Reading the minimum amount or the fee of one gateway twice gives the
/// same value twice, and both are those of its configuration. A deposit
/// borrows the gateway without changing it, so this holds however many
/// deposits were made between the two reads.
pub proof fn lemma_amount_reads_agree<G: GtwFees1>(
    gateway: &G,
    first_min: u128,
    second_min: u128,
    first_percent: u128,
    second_percent: u128,
)
    requires
        call_ensures(G::min_amount, (gateway,), first_min),
        call_ensures(G::min_amount, (gateway,), second_min),
        call_ensures(G::fees_in_percent, (gateway,), first_percent),
        call_ensures(G::fees_in_percent, (gateway,), second_percent),
    ensures
        first_min == second_min,
        first_min == gateway.settings().min_amount,
        first_percent == second_percent,
        first_percent == gateway.settings().fees_percent,
{
}

/// Reading the accepted token or one of the two accounts of one gateway
/// twice gives the same token and the same account twice, those of its
/// configuration.
pub proof fn lemma_identifier_reads_agree<G: GtwFees1>(
    gateway: &G,
    first_token: &TokenId,
    second_token: &TokenId,
    first_fees_addr: Address,
    second_fees_addr: Address,
    first_rest_addr: Address,
    second_rest_addr: Address,
)
    requires
        call_ensures(G::accepted_payment_token_id, (gateway,), first_token),
        call_ensures(G::accepted_payment_token_id, (gateway,), second_token),
        call_ensures(G::accepted_fees_addr_id, (gateway,), first_fees_addr),
        call_ensures(G::accepted_fees_addr_id, (gateway,), second_fees_addr),
        call_ensures(G::accepted_rest_addr_id, (gateway,), first_rest_addr),
        call_ensures(G::accepted_rest_addr_id, (gateway,), second_rest_addr),
    ensures
        first_token@ == second_token@,
        first_token@ == gateway.settings().token,
        first_fees_addr@ == second_fees_addr@,
        first_fees_addr@ == gateway.settings().fees_addr,
        first_rest_addr@ == second_rest_addr@,
        first_rest_addr@ == gateway.settings().rest_addr,
{
}

/// A gateway that `init` has configured gives back, read by read, what
/// it was configured with, and the native token where none was named.
pub proof fn lemma_reads_give_what_was_configured<G: GtwFees1>(
    min_amount: i128,
    fees_in_percent: i128,
    fees_addr: Address,
    rest_addr: Address,
    opt_token_id: Option<TokenId>,
    gateway: G,
    read_min: u128,
    read_percent: u128,
    read_fees_addr: Address,
    read_rest_addr: Address,
    read_token: &TokenId,
)
    requires
        call_ensures(
            G::init,
            (min_amount, fees_in_percent, fees_addr, rest_addr, opt_token_id),
            Ok::<G, GatewayError>(gateway),
        ),
        call_ensures(G::min_amount, (&gateway,), read_min),
        call_ensures(G::fees_in_percent, (&gateway,), read_percent),
        call_ensures(G::accepted_fees_addr_id, (&gateway,), read_fees_addr),
        call_ensures(G::accepted_rest_addr_id, (&gateway,), read_rest_addr),
        call_ensures(G::accepted_payment_token_id, (&gateway,), read_token),
    ensures
        read_min == min_amount,
        read_percent == fees_in_percent,
        read_fees_addr@ == fees_addr@,
        read_rest_addr@ == rest_addr@,
        read_token@ == configured_token(
            match opt_token_id {
                Some(token) => Some(token@),
                None => None,
            },
        ),
{
}

/// The same deposit at the same gateway has the same outcome each time.
pub proof fn lemma_outcomes_agree<G: GtwFees1>(
    gateway: &G,
    token: &TokenId,
    amount: u128,
    first: Result<Split, GatewayError>,
    second: Result<Split, GatewayError>,
)
    requires
        call_ensures(G::sendToken, (gateway, token, amount), first),
        call_ensures(G::sendToken, (gateway, token, amount), second),
    ensures
        first == second,
{
}

} // verus!
