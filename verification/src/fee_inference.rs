//! Fee-token resolution for a transaction: the explicit `feeToken` field, then direct
//! MIP-20 inference, then the router selector registry.
use crate::error::{FeeManagerError, MagnusPrecompileError};
use crate::hashing::{function_selector, selector_of};
use crate::primitives::Address;
use vstd::prelude::*;

verus! {

/// One call of a transaction: its target (`None` for a contract creation) and its input.
#[derive(Clone, Debug)]
pub struct TxCall {
    pub to: Option<Address>,
    pub input: Vec<u8>,
}

/// What fee-token resolution reads of a Magnus transaction.
#[derive(Clone, Debug)]
pub struct MagnusTx {
    /// The transaction's `feeToken` field, if configured.
    pub fee_token: Option<Address>,
    /// Whether this is an account-abstraction transaction.
    pub is_aa: bool,
    /// The transaction's caller address.
    pub caller: Address,
    /// The transaction's calls, in order (exactly one for a non-AA transaction).
    pub calls: Vec<TxCall>,
}

/// The calldata starts with the selector of `transfer`, `transferWithMemo` or
/// `distributeReward` of the MIP-20 interface.
pub open spec fn spec_is_fee_inference_call(input: Seq<u8>) -> bool {
    &&& input.len() >= 4
    &&& {
        let s = input.take(4);
        ||| s == selector_of("transfer(address,uint256)")
        ||| s == selector_of("transferWithMemo(address,uint256,bytes32)")
        ||| s == selector_of("distributeReward(uint256)")
    }
}

/// Byte-wise comparison of the first four bytes of `input` with `selector`.
fn starts_with_selector(input: &[u8], selector: [u8; 4]) -> (r: bool)
    requires
        input@.len() >= 4,
    ensures
        r == (input@.take(4) == selector@),
{
    if input[0] == selector[0] && input[1] == selector[1] && input[2] == selector[2]
        && input[3] == selector[3] {
        assert(input@.take(4) =~= selector@);
        true
    } else {
        false
    }
}

/// Returns true if the calldata is for a MIP-20 function that should trigger fee token
/// inference. Only `transfer`, `transferWithMemo`, and `distributeReward` qualify.
pub fn is_tip20_fee_inference_call(input: &[u8]) -> (r: bool)
    ensures
        r == spec_is_fee_inference_call(input@),
{
    if input.len() < 4 {
        return false;
    }
    let transfer = function_selector("transfer(address,uint256)");
    let with_memo = function_selector("transferWithMemo(address,uint256,bytes32)");
    let reward = function_selector("distributeReward(uint256)");
    starts_with_selector(input, transfer) || starts_with_selector(input, with_memo)
        || starts_with_selector(input, reward)
}

/// The MIP-20 counterpart of [`is_tip20_fee_inference_call`], under its MIP-20 name.
pub fn is_mip20_fee_inference_call(input: &[u8]) -> (r: bool)
    ensures
        r == spec_is_fee_inference_call(input@),
{
    is_tip20_fee_inference_call(input)
}

/// Every call targets `to` with a fee-inference selector, and the fee payer may infer:
/// an AA transaction only infers when its fee payer is its caller.
pub open spec fn spec_can_infer_tip20(tx: MagnusTx, fee_payer: Address, to: Address) -> bool {
    &&& !(tx.is_aa && fee_payer != tx.caller)
    &&& forall|i: int| 0 <= i < tx.calls@.len() ==> {
        &&& (#[trigger] tx.calls@[i]).to == Some(to)
        &&& spec_is_fee_inference_call(tx.calls@[i].input@)
    }
}

/// The token that direct MIP-20 inference proposes: the first call's target, when
/// the whole batch is a same-token transfer batch.
pub open spec fn spec_tip20_target(tx: MagnusTx, fee_payer: Address) -> Option<Address> {
    if tx.calls@.len() > 0 && tx.calls@[0].to is Some && spec_can_infer_tip20(
        tx,
        fee_payer,
        tx.calls@[0].to->0,
    ) {
        tx.calls@[0].to
    } else {
        None
    }
}

/// The transaction is a single call (or an AA single call) to a router, with a selector.
pub open spec fn spec_router_candidate(tx: MagnusTx) -> bool {
    &&& tx.calls@.len() > 0
    &&& (!tx.is_aa || tx.calls@.len() == 1)
    &&& tx.calls@[0].to is Some
    &&& tx.calls@[0].input@.len() >= 4
}

/// The router, selector and calldata handed to the router registry lookup.
pub open spec fn spec_router_query(tx: MagnusTx, selector: [u8; 4]) -> bool {
    selector@ == tx.calls@[0].input@.take(4)
}

/// Whether every call targets `to` with a fee-inference selector (the `all` of the batch).
fn all_calls_infer(calls: &Vec<TxCall>, to: &Address) -> (r: bool)
    ensures
        r == forall|i: int| 0 <= i < calls@.len() ==> {
            &&& (#[trigger] calls@[i]).to == Some(*to)
            &&& spec_is_fee_inference_call(calls@[i].input@)
        },
{
    let mut i: usize = 0;
    while i < calls.len()
        invariant
            i <= calls.len(),
            forall|j: int| 0 <= j < i ==> {
                &&& (#[trigger] calls@[j]).to == Some(*to)
                &&& spec_is_fee_inference_call(calls@[j].input@)
            },
        decreases calls.len() - i,
    {
        let call = &calls[i];
        let same_target = match &call.to {
            Some(t) => t.same(to),
            None => false,
        };
        if !same_target || !is_tip20_fee_inference_call(call.input.as_slice()) {
            return false;
        }
        i = i + 1;
    }
    true
}

/// Resolves the fee token. There is no per-user preference and no default fallback:
/// `tx.fee_token` wins, then direct MIP-20 inference (validated by `is_valid_fee_token`),
/// then the router selector registry (`lookup_router_fee_token`, given the router, the
/// selector and the calldata); anything else is `FeeTokenNotInferable`. Errors of either
/// lookup propagate.
pub fn get_fee_token<V, L>(
    tx: &MagnusTx,
    fee_payer: Address,
    is_valid_fee_token: V,
    lookup_router_fee_token: L,
) -> (r: Result<Address, MagnusPrecompileError>) where
    V: FnOnce(Address) -> Result<bool, MagnusPrecompileError>,
    L: FnOnce(Address, [u8; 4], &Vec<u8>) -> Result<Option<Address>, MagnusPrecompileError>,

    requires
        forall|a: Address| call_requires(is_valid_fee_token, (a,)),
        forall|a: Address, s: [u8; 4], d: &Vec<u8>| call_requires(lookup_router_fee_token, (a, s, d)),
    ensures
        tx.fee_token is Some ==> r == Ok::<Address, MagnusPrecompileError>(tx.fee_token->0),
        tx.fee_token is None ==> {
            let target = spec_tip20_target(*tx, fee_payer);
            let declined = target is None || call_ensures(
                is_valid_fee_token,
                (target->0,),
                Ok(false),
            );
            let router_answer = |res: Result<Option<Address>, MagnusPrecompileError>|
                exists|s: [u8; 4]|
                    spec_router_query(*tx, s) && call_ensures(
                        lookup_router_fee_token,
                        (tx.calls@[0].to->0, s, &tx.calls@[0].input),
                        res,
                    );
            match r {
                Ok(token) => {
                    ||| (target == Some(token) && call_ensures(is_valid_fee_token, (token,), Ok(true)))
                    ||| (declined && spec_router_candidate(*tx) && router_answer(Ok(Some(token))))
                },
                Err(e) => {
                    ||| (target is Some && call_ensures(is_valid_fee_token, (target->0,), Err(e)))
                    ||| (declined && spec_router_candidate(*tx) && router_answer(Err(e)))
                    ||| (declined && (!spec_router_candidate(*tx) || router_answer(Ok(None)))
                        && e == MagnusPrecompileError::FeeManagerError(
                        FeeManagerError::FeeTokenNotInferable,
                    ))
                },
            }
        },
{
    if let Some(fee_token) = tx.fee_token {
        return Ok(fee_token);
    }
    // Direct MIP-20 inference from a same-token transfer/transferWithMemo/distributeReward batch.
    let mut target: Option<Address> = None;
    if tx.calls.len() > 0 {
        if let Some(to) = tx.calls[0].to {
            let can_infer = if tx.is_aa && !fee_payer.same(&tx.caller) {
                false
            } else {
                all_calls_infer(&tx.calls, &to)
            };
            if can_infer {
                target = Some(to);
            }
        }
    }
    assert(target == spec_tip20_target(*tx, fee_payer));
    if let Some(to) = target {
        let valid = is_valid_fee_token(to);
        match valid {
            Err(e) => {
                return Err(e);
            },
            Ok(true) => {
                return Ok(to);
            },
            Ok(false) => {},
        }
    }
    // Router selector registry: single-call (or AA single-call) transactions resolve their
    // fee token via the descriptor's argument index.
    if tx.calls.len() > 0 && (!tx.is_aa || tx.calls.len() == 1) {
        let first = &tx.calls[0];
        if let Some(router) = first.to {
            if first.input.len() >= 4 {
                let selector = [first.input[0], first.input[1], first.input[2], first.input[3]];
                assert(selector@ =~= tx.calls@[0].input@.take(4));
                let found = lookup_router_fee_token(router, selector, &first.input);
                assert(spec_router_query(*tx, selector));
                match found {
                    Err(e) => {
                        return Err(e);
                    },
                    Ok(Some(token)) => {
                        return Ok(token);
                    },
                    Ok(None) => {},
                }
            }
        }
    }
    Err(MagnusPrecompileError::FeeManagerError(FeeManagerError::FeeTokenNotInferable))
}

} // verus!
