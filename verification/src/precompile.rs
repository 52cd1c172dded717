//! Precompile plumbing: calldata pricing and hardfork-gated selector dispatch.
use crate::error::MagnusPrecompileError;
use crate::hardfork::MagnusHardfork;
use vstd::prelude::*;

verus! {

/// Input per word cost. It covers ABI decoding and cloning of input into call data.
///
/// Priced at twice the copy cost to cover the different ABI decodings.
pub const INPUT_PER_WORD_COST: u64 = 6;

/// Gas cost for `ecrecover` signature verification (used by key authorization and permit).
pub const ECRECOVER_GAS: u64 = 3_000;

/// Number of 32-byte words needed to hold `len` bytes (rounded up).
pub open spec fn words_for(len: nat) -> nat {
    (len + 31) / 32
}

/// The gas cost of decoding `len` bytes of calldata.
pub open spec fn spec_input_cost(len: nat) -> nat {
    words_for(len) * (INPUT_PER_WORD_COST as nat)
}

/// Returns the gas cost for decoding calldata of the given length, rounded up to word boundaries.
pub fn input_cost(calldata_len: usize) -> (r: u64)
    ensures
        r == spec_input_cost(calldata_len as nat),
{
    let words: usize = calldata_len / 32 + if calldata_len % 32 != 0 { 1 } else { 0 };
    assert(words == words_for(calldata_len as nat));
    let w: u64 = words as u64;
    w * INPUT_PER_WORD_COST
}

/// Deducts the calldata input cost through `deduct_gas`; returns the out-of-gas halt
/// when the deduction is refused, and `None` when it went through.
pub fn charge_input_cost<F: FnOnce(u64) -> Result<(), MagnusPrecompileError>>(
    deduct_gas: F,
    calldata: &[u8],
) -> (r: Option<MagnusPrecompileError>)
    requires
        forall|c: u64| c == spec_input_cost(calldata@.len()) ==> call_requires(deduct_gas, (c,)),
    ensures
        r is None ==> exists|c: u64|
            c == spec_input_cost(calldata@.len()) && call_ensures(deduct_gas, (c,), Ok(())),
        r is Some ==> r == Some(MagnusPrecompileError::OutOfGas) && exists|c: u64, e: MagnusPrecompileError|
            c == spec_input_cost(calldata@.len()) && call_ensures(deduct_gas, (c,), Err(e)),
{
    let cost = input_cost(calldata.len());
    let outcome = deduct_gas(cost);
    assert(call_ensures(deduct_gas, (cost,), outcome));
    match outcome {
        Ok(unit) => {
            assert(unit == ());
            None
        },
        Err(e) => {
            assert(call_ensures(deduct_gas, (cost,), Err(e)));
            Some(MagnusPrecompileError::OutOfGas)
        },
    }
}

/// A selector schedule at a given hardfork boundary.
///
/// Before the hardfork activates, selectors in `added` are treated as unknown.
/// After it activates, selectors in `dropped` are treated as unknown.
#[derive(Clone, Debug)]
pub struct SelectorSchedule {
    pub hardfork: MagnusHardfork,
    pub added: Vec<[u8; 4]>,
    pub dropped: Vec<[u8; 4]>,
}

impl SelectorSchedule {
    /// Whether this schedule gates `selector` out under the `active` hardfork.
    pub open spec fn spec_rejects(&self, selector: [u8; 4], active: MagnusHardfork) -> bool {
        if self.hardfork.rank() <= active.rank() {
            self.dropped@.contains(selector)
        } else {
            self.added@.contains(selector)
        }
    }

    /// Creates a new schedule anchored at `hardfork` with no selectors registered yet.
    pub fn new(hardfork: MagnusHardfork) -> (r: SelectorSchedule)
        ensures
            r.hardfork == hardfork,
            r.added@ == Seq::<[u8; 4]>::empty(),
            r.dropped@ == Seq::<[u8; 4]>::empty(),
    {
        SelectorSchedule { hardfork, added: Vec::new(), dropped: Vec::new() }
    }

    /// Registers selectors that are introduced at this hardfork boundary.
    ///
    /// These selectors are treated as unknown before `hardfork` activates.
    pub fn with_added(self, selectors: Vec<[u8; 4]>) -> (r: SelectorSchedule)
        ensures
            r.hardfork == self.hardfork,
            r.added@ == selectors@,
            r.dropped@ == self.dropped@,
    {
        SelectorSchedule { hardfork: self.hardfork, added: selectors, dropped: self.dropped }
    }

    /// Registers selectors that are removed at this hardfork boundary.
    ///
    /// These selectors are treated as unknown once `hardfork` activates.
    pub fn with_dropped(self, selectors: Vec<[u8; 4]>) -> (r: SelectorSchedule)
        ensures
            r.hardfork == self.hardfork,
            r.added@ == self.added@,
            r.dropped@ == selectors@,
    {
        SelectorSchedule { hardfork: self.hardfork, added: self.added, dropped: selectors }
    }

    /// Returns `true` if this schedule gates out `selector` under the `active` hardfork.
    pub fn rejects(&self, selector: [u8; 4], active: MagnusHardfork) -> (r: bool)
        ensures
            r == self.spec_rejects(selector, active),
    {
        if self.hardfork.activates_no_later_than(&active) {
            selector_listed(&self.dropped, selector)
        } else {
            selector_listed(&self.added, selector)
        }
    }
}

/// Byte-wise equality of two selectors.
fn same_selector(a: [u8; 4], b: [u8; 4]) -> (r: bool)
    ensures
        r == (a == b),
{
    if a[0] == b[0] && a[1] == b[1] && a[2] == b[2] && a[3] == b[3] {
        assert(a =~= b);
        true
    } else {
        false
    }
}

/// Whether `selector` occurs in `list`.
fn selector_listed(list: &Vec<[u8; 4]>, selector: [u8; 4]) -> (r: bool)
    ensures
        r == list@.contains(selector),
{
    let mut i: usize = 0;
    while i < list.len()
        invariant
            i <= list.len(),
            forall|j: int| 0 <= j < i ==> list@[j] != selector,
        decreases list.len() - i,
    {
        if same_selector(list[i], selector) {
            return true;
        }
        i = i + 1;
    }
    false
}

/// Whether some schedule gates out `selector` under `active`.
pub open spec fn gated(schedules: Seq<SelectorSchedule>, selector: [u8; 4], active: MagnusHardfork) -> bool {
    exists|i: int| 0 <= i < schedules.len() && #[trigger] schedules[i].spec_rejects(selector, active)
}

/// Why calldata could not be decoded into a call.
#[derive(Clone, Copy, Debug, PartialEq, Eq)]
pub enum DecodeError {
    /// The selector names no function of the interface.
    UnknownSelector([u8; 4]),
    /// The arguments are not valid ABI encoding.
    Malformed,
}

/// How a dispatched call ended.
#[derive(Clone, Debug)]
pub enum DispatchOutcome<R> {
    /// Fewer than four bytes of calldata: there is no selector.
    MissingSelector,
    /// The selector is gated out or unknown to the interface.
    UnknownFunctionSelector([u8; 4]),
    /// The arguments could not be decoded (answered with an empty revert).
    MalformedInput,
    /// The decoded call was handled with this result.
    Handled(R),
}

/// Copies the first four bytes of `calldata`.
fn first_four(calldata: &[u8]) -> (r: [u8; 4])
    requires
        calldata@.len() >= 4,
    ensures
        r@ == calldata@.subrange(0, 4),
{
    let r = [calldata[0], calldata[1], calldata[2], calldata[3]];
    assert(r@ =~= calldata@.subrange(0, 4));
    r
}

/// Applies hardfork selector schedules, decodes calldata via `decode`, then dispatches to `f`.
///
/// Missing selectors, hardfork-gated selectors, selectors unknown to the interface and
/// malformed ABI data each end in their own outcome; only a decoded call reaches `f`.
pub fn dispatch_call<T, R, D, F>(
    calldata: &[u8],
    schedules: &Vec<SelectorSchedule>,
    active: MagnusHardfork,
    decode: D,
    f: F,
) -> (r: DispatchOutcome<R>) where
    D: FnOnce(&[u8]) -> Result<T, DecodeError>,
    F: FnOnce(T) -> R,

    requires
        call_requires(decode, (calldata,)),
        forall|t: T| call_requires(f, (t,)),
    ensures
        calldata@.len() < 4 ==> r is MissingSelector,
        calldata@.len() >= 4 ==> {
            let sel = calldata@.subrange(0, 4);
            if exists|s: [u8; 4]| s@ == sel && gated(schedules@, s, active) {
                r matches DispatchOutcome::UnknownFunctionSelector(s) && s@ == sel
            } else {
                match r {
                    DispatchOutcome::Handled(x) => exists|t: T|
                        call_ensures(decode, (calldata,), Ok(t)) && call_ensures(f, (t,), x),
                    DispatchOutcome::UnknownFunctionSelector(s) => call_ensures(
                        decode,
                        (calldata,),
                        Err(DecodeError::UnknownSelector(s)),
                    ),
                    DispatchOutcome::MalformedInput => call_ensures(
                        decode,
                        (calldata,),
                        Err(DecodeError::Malformed),
                    ),
                    DispatchOutcome::MissingSelector => false,
                }
            }
        },
{
    if calldata.len() < 4 {
        return DispatchOutcome::MissingSelector;
    }
    let selector = first_four(calldata);
    let mut i: usize = 0;
    while i < schedules.len()
        invariant
            i <= schedules.len(),
            calldata@.len() >= 4,
            selector@ == calldata@.subrange(0, 4),
            forall|j: int| 0 <= j < i ==> !(#[trigger] schedules@[j]).spec_rejects(selector, active),
        decreases schedules.len() - i,
    {
        if schedules[i].rejects(selector, active) {
            assert(gated(schedules@, selector, active));
            return DispatchOutcome::UnknownFunctionSelector(selector);
        }
        i = i + 1;
    }
    proof {
        assert forall|s: [u8; 4]| s@ == calldata@.subrange(0, 4) implies !gated(schedules@, s, active) by {
            assert forall|k: int| 0 <= k < 4 implies s[k] == selector[k] by {
                assert(s@[k] == selector@[k]);
            }
            assert(s =~= selector);
        }
    }
    match decode(calldata) {
        Ok(call) => DispatchOutcome::Handled(f(call)),
        Err(DecodeError::UnknownSelector(s)) => DispatchOutcome::UnknownFunctionSelector(s),
        Err(DecodeError::Malformed) => DispatchOutcome::MalformedInput,
    }
}

} // verus!
