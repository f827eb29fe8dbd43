//! What holds of the escrow over whole histories of calls.

use crate::asset::{AssetKind, TransferView};
use crate::error::Error;
use crate::escrow::{goes_through, step, Call};
use crate::hashing::spec_generate_hash;
use crate::identity::Key;
use crate::record::EscrowState;
use crate::transfers::spec_release;
use crate::uint::pow2_256;
use vstd::prelude::*;

verus! {

/// The record after the first `n` of `calls` were made in turn, starting
/// from `start`.
pub open spec fn state_before(start: EscrowState, calls: Seq<Call>, n: int) -> EscrowState
    decreases n,
{
    if n <= 0 {
        start
    } else {
        step(state_before(start, calls, n - 1), calls[n - 1])
    }
}

/// Whether call number `i` of `calls` is a claim or a refund that goes
/// through.
pub open spec fn pays_out(start: EscrowState, calls: Seq<Call>, i: int) -> bool {
    calls[i].is_pay_out() && goes_through(state_before(start, calls, i), calls[i])
}

/// Whether call number `i` of `calls` is a setup that goes through.
pub open spec fn sets_up(start: EscrowState, calls: Seq<Call>, i: int) -> bool {
    calls[i] is Setup && goes_through(state_before(start, calls, i), calls[i])
}

/// After a pay-out, and as long as no setup goes through, no commitment is
/// active.
proof fn stays_inactive(start: EscrowState, calls: Seq<Call>, i: int, m: int)
    requires
        0 <= i < m <= calls.len(),
        pays_out(start, calls, i),
        forall|k: int| i < k < m ==> !sets_up(start, calls, k),
    ensures
        !state_before(start, calls, m).is_active(),
    decreases m - i,
{
    if m > i + 1 {
        stays_inactive(start, calls, i, m - 1);
        assert(!sets_up(start, calls, m - 1));
    }
}

/// Exclusivity. In every history of calls, whatever the state it starts
/// from, two pay-outs never follow one another within one commitment: if a
/// claim or refund goes through, and later another claim or refund goes
/// through, then a setup went through in between. So each setup leads to at
/// most one pay-out, be it the claim or the refund.
pub proof fn exclusivity(start: EscrowState, calls: Seq<Call>, i: int, j: int)
    requires
        0 <= i < j < calls.len(),
        pays_out(start, calls, i),
        pays_out(start, calls, j),
    ensures
        exists|k: int| i < k < j && sets_up(start, calls, k),
{
    if forall|k: int| i < k < j ==> !sets_up(start, calls, k) {
        stays_inactive(start, calls, i, j);
    }
}

/// Once a claim or a refund has gone through, which leaves the record
/// cleared, every further claim and every further refund is refused,
/// whoever makes it and whenever: the owner's refund and a stranger's claim
/// because no commitment is active, the others because the caller may not
/// make that call at all.
pub proof fn nothing_after_a_pay_out(
    state: EscrowState,
    caller: Key,
    now: u64,
    secret_hash: Seq<char>,
)
    ensures
        state.cleared().claim_outcome(caller, now, secret_hash) == Err::<TransferView, Error>(
            if caller == state.owner {
                Error::AccessDenied
            } else {
                Error::HashNotSet
            },
        ),
        state.cleared().refund_outcome(caller, now) == Err::<TransferView, Error>(
            if caller == state.owner {
                Error::HashNotSet
            } else {
                Error::AccessDenied
            },
        ),
{
}

/// Whether the asset of the record can be paid to `to` at all: native
/// currency can be paid to accounts only.
pub open spec fn payable_to(state: EscrowState, to: Key) -> bool {
    state.kind is Native ==> to is Account
}

/// Hash integrity. No claim goes through on a hash other than the stored
/// commitment. And where nothing else stands in the way (a commitment is
/// active, the caller is not the owner, the deadline has not passed, the
/// receiver can be paid), a claim goes through if and only if the presented
/// hash is the commitment, and is refused as a mismatch if it is not.
pub proof fn claim_follows_the_hash(
    state: EscrowState,
    caller: Key,
    now: u64,
    secret_hash: Seq<char>,
)
    ensures
        state.claim_outcome(caller, now, secret_hash) is Ok ==> secret_hash == state.hash,
        state.is_active() && caller != state.owner && now <= state.end_time && payable_to(
            state,
            state.receiver,
        ) ==> {
            &&& state.claim_outcome(caller, now, secret_hash) is Ok <==> secret_hash == state.hash
            &&& secret_hash != state.hash ==> state.claim_outcome(caller, now, secret_hash)
                == Err::<TransferView, Error>(Error::HashMismatch)
        },
{
}

/// Hash integrity, for the secret itself: under the same conditions a claim
/// with a secret goes through if and only if the secret hashes, under the
/// algorithm of the commitment, to the commitment.
pub proof fn claim_follows_the_secret(
    state: EscrowState,
    caller: Key,
    now: u64,
    secret: Seq<char>,
)
    requires
        state.is_active(),
        caller != state.owner,
        now <= state.end_time,
        payable_to(state, state.receiver),
    ensures
        state.claim_outcome(caller, now, spec_generate_hash(state.hash_type, secret)) is Ok
            <==> spec_generate_hash(state.hash_type, secret) == state.hash,
{
}

/// The time boundary. The deadline itself still belongs to the claim: at
/// `end_time` a rightful claim goes through and the owner's refund is
/// refused as too early. One tick later, and from then on, the claim is
/// refused as too late and the owner's refund goes through.
pub proof fn deadline_is_the_last_moment_to_claim(state: EscrowState, claimer: Key, now: u64)
    requires
        state.is_active(),
        claimer != state.owner,
        payable_to(state, state.receiver),
        payable_to(state, state.owner),
    ensures
        now <= state.end_time ==> state.claim_outcome(claimer, now, state.hash) is Ok
            && state.refund_outcome(state.owner, now) == Err::<TransferView, Error>(
            Error::EndTimeNotReached,
        ),
        now > state.end_time ==> state.claim_outcome(claimer, now, state.hash) == Err::<
            TransferView,
            Error,
        >(Error::EndTimePassed) && state.refund_outcome(state.owner, now) is Ok,
{
}

/// Reuse. A setup followed by its claim or refund leaves the record exactly
/// as it was before the setup. So the next setup goes through under the same
/// conditions as the one before, and what it stores depends on its own
/// arguments and on the installation alone: nothing of the earlier
/// commitment, neither its hash nor anything else, is left behind.
pub proof fn a_finished_commitment_leaves_no_trace(
    state: EscrowState,
    setup: Call,
    pay_out: Call,
    next: Call,
)
    requires
        state.well_formed(),
        setup is Setup,
        pay_out.is_pay_out(),
        goes_through(state, setup),
        goes_through(step(state, setup), pay_out),
    ensures
        step(step(state, setup), pay_out) == state,
        state == EscrowState::installed(
            state.owner,
            state.kind,
            state.purse,
            state.own_contract_package_hash,
            state.own_contract_hash,
        ),
        goes_through(step(step(state, setup), pay_out), next) == goes_through(state, next),
        step(step(step(state, setup), pay_out), next) == step(state, next),
        next matches Call::Setup { hash, .. } ==> (goes_through(state, next) ==> step(
            state,
            next,
        ).hash == hash),
{
}

/// No double setup. After a setup has gone through, every further setup is
/// refused until a claim or a refund has gone through: the owner's because a
/// commitment is active, anybody else's because only the owner sets up. The
/// refused call changes nothing, so the first commitment stands.
pub proof fn no_second_setup(state: EscrowState, first: Call, second: Call)
    requires
        first is Setup,
        second is Setup,
        goes_through(state, first),
    ensures
        step(state, first).is_active(),
        !goes_through(step(state, first), second),
        second matches Call::Setup { caller, now, hash, hash_type, timeout, deposit, .. }
            && step(state, first).setup_refusal(caller, now, hash, hash_type, timeout, deposit)
            == Some(
            if caller == state.owner {
                Error::ContractAlreadyInitialized
            } else {
                Error::AccessDenied
            },
        ),
        step(step(state, first), second) == step(state, first),
{
}

/// Installation leaves a well-formed record, and every call that goes
/// through leaves a well-formed record well-formed.
pub proof fn calls_keep_the_record_well_formed(state: EscrowState, call: Call)
    requires
        state.well_formed(),
        call matches Call::Setup { deposit, .. } ==> deposit.in_range(),
    ensures
        step(state, call).well_formed(),
        EscrowState::installed(
            state.owner,
            state.kind,
            state.purse,
            state.own_contract_package_hash,
            state.own_contract_hash,
        ).well_formed(),
{
}

/// Every record that a history of calls leads to from a well-formed record,
/// such as the one that installation leaves, is well-formed.
pub proof fn histories_keep_the_record_well_formed(start: EscrowState, calls: Seq<Call>, n: int)
    requires
        start.well_formed(),
        0 <= n <= calls.len(),
        forall|k: int|
            0 <= k < n ==> (#[trigger] calls[k] matches Call::Setup { deposit, .. }
                ==> deposit.in_range()),
    ensures
        state_before(start, calls, n).well_formed(),
    decreases n,
{
    if n > 0 {
        histories_keep_the_record_well_formed(start, calls, n - 1);
        calls_keep_the_record_well_formed(state_before(start, calls, n - 1), calls[n - 1]);
    }
}

/// What is paid out is what was locked: for a well-formed record the
/// pay-out names the whole stored amount, or all of the stored tokens.
pub proof fn whole_asset_is_paid_out(state: EscrowState, to: Key)
    requires
        state.well_formed(),
    ensures
        match spec_release(state, to) {
            Ok(TransferView::Native { amount, purse, target }) => amount == state.amount && purse
                == state.purse && to == Key::Account(target),
            Ok(TransferView::FungibleToken { amount, recipient, registry }) => amount
                == state.amount && recipient == to && state.kind == (AssetKind::FungibleToken {
                registry,
            }),
            Ok(TransferView::NonFungibleTokenSet { token_ids, recipient, registry }) => token_ids
                == state.token_ids && recipient == to && state.kind
                == (AssetKind::NonFungibleTokenSet { registry }),
            Ok(TransferView::Nothing) => state.kind is Custom,
            Err(error) => error == Error::ReciverNotAnAccount && state.kind is Native && !(to
                is Account),
        },
{
    if state.kind is FungibleToken {
        vstd::arithmetic::div_mod::lemma_small_mod(state.amount, pow2_256());
    }
}

} // verus!
