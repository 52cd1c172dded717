//! Errors of the precompiles: ABI-level revert reasons and system failures.
use crate::primitives::Address;
use vstd::prelude::*;

verus! {

/// Revert reasons of the fee manager.
#[derive(Clone, Debug, PartialEq, Eq)]
pub enum FeeManagerError {
    OnlyValidator,
    OnlySystemContract,
    InvalidToken,
    PoolDoesNotExist,
    InsufficientFeeTokenBalance,
    InternalError,
    CannotChangeWithinBlock,
    CannotChangeWithPendingFees,
    TokenPolicyForbids,
    CurrencyNotRegistered { currency: String },
    CurrencyDisabled { currency: String },
    FeeTokenNotAccepted { validator: Address, token: Address },
    FeeTokenNotInferable,
    ValidatorAcceptSetEmpty { validator: Address },
    OnlyGovernanceAdmin { caller: Address },
    CurrencyAlreadyAdded { currency: String },
    CurrencyAlreadyEnabled { currency: String },
    InvalidCurrencyCode { currency: String },
    ZeroAddressGovernanceAdmin,
    GracePeriodOutOfRange { grace_period: u64 },
    CurrencyAlreadyDeprecating { currency: String },
    CurrencyDeprecating { currency: String, grace_ends_at: u64 },
    TokenAlreadyAccepted { validator: Address, token: Address },
    MaxAcceptSetReached { validator: Address },
    TokenNotInAcceptSet { validator: Address, token: Address },
    EmergencyThresholdOutOfRange { threshold: u8 },
    CurrencyNotDisabled { currency: String },
    EscrowClaimWindowOutOfRange { window: u64 },
    ZeroAddressFoundationEscrow,
    ValidatorAlreadyOffboarded { validator: Address },
    ValidatorNotOffboarded { validator: Address },
    ClaimWindowExpired { validator: Address },
    ClaimWindowActive { validator: Address },
    NoEscrowedFees { validator: Address, token: Address },
    UserTokenApiRemoved,
}

/// Revert reasons of the MIP-20 issuer registry.
#[derive(Clone, Debug, PartialEq, Eq)]
pub enum IssuerRegistryError {
    IssuerNotApproved { issuer: Address, currency: String },
    IssuerAlreadyApproved { issuer: Address, currency: String },
    IssuerNotInAllowlist { issuer: Address, currency: String },
    CurrencyNotRegistered { currency: String },
    InvalidGovernanceSignature,
    OnlyGovernanceAdmin { caller: Address },
}

impl FeeManagerError {
    /// The currency `currency` is not in the registry.
    pub fn currency_not_registered(currency: String) -> (r: FeeManagerError)
        ensures
            r == (FeeManagerError::CurrencyNotRegistered { currency }),
    {
        FeeManagerError::CurrencyNotRegistered { currency }
    }

    /// The currency `currency` is disabled.
    pub fn currency_disabled(currency: String) -> (r: FeeManagerError)
        ensures
            r == (FeeManagerError::CurrencyDisabled { currency }),
    {
        FeeManagerError::CurrencyDisabled { currency }
    }

    /// `validator`'s accept-set does not include `token`.
    pub fn fee_token_not_accepted(validator: Address, token: Address) -> (r: FeeManagerError)
        ensures
            r == (FeeManagerError::FeeTokenNotAccepted { validator, token }),
    {
        FeeManagerError::FeeTokenNotAccepted { validator, token }
    }

    /// No fee token can be inferred from the transaction's calldata.
    pub fn fee_token_not_inferable() -> (r: FeeManagerError)
        ensures
            r == FeeManagerError::FeeTokenNotInferable,
    {
        FeeManagerError::FeeTokenNotInferable
    }

    /// The producing validator has no token in its accept-set.
    pub fn validator_accept_set_empty(validator: Address) -> (r: FeeManagerError)
        ensures
            r == (FeeManagerError::ValidatorAcceptSetEmpty { validator }),
    {
        FeeManagerError::ValidatorAcceptSetEmpty { validator }
    }
}

impl IssuerRegistryError {
    /// `issuer` is not approved for `currency`.
    pub fn issuer_not_approved(issuer: Address, currency: String) -> (r: IssuerRegistryError)
        ensures
            r == (IssuerRegistryError::IssuerNotApproved { issuer, currency }),
    {
        IssuerRegistryError::IssuerNotApproved { issuer, currency }
    }

    /// `issuer` is already approved for `currency`.
    pub fn issuer_already_approved(issuer: Address, currency: String) -> (r: IssuerRegistryError)
        ensures
            r == (IssuerRegistryError::IssuerAlreadyApproved { issuer, currency }),
    {
        IssuerRegistryError::IssuerAlreadyApproved { issuer, currency }
    }

    /// `currency` is not in the fee manager's currency registry.
    pub fn currency_not_registered(currency: String) -> (r: IssuerRegistryError)
        ensures
            r == (IssuerRegistryError::CurrencyNotRegistered { currency }),
    {
        IssuerRegistryError::CurrencyNotRegistered { currency }
    }

    /// The governance signature failed verification.
    pub fn invalid_governance_signature() -> (r: IssuerRegistryError)
        ensures
            r == IssuerRegistryError::InvalidGovernanceSignature,
    {
        IssuerRegistryError::InvalidGovernanceSignature
    }
}

/// Revert reasons raised by MIP-20 token checks.
#[derive(Clone, Debug, PartialEq, Eq)]
pub enum Mip20Error {
    InvalidCurrency,
}

/// Solidity panic kinds, as reverted with `Panic(uint256)`.
#[derive(Clone, Copy, Debug, PartialEq, Eq, Structural)]
pub enum PanicKind {
    Generic,
    Assert,
    UnderOverflow,
    DivisionByZero,
    EnumConversionError,
    StorageEncodingError,
    EmptyArrayPop,
    ArrayOutOfBounds,
    ResourceError,
    InvalidInternalFunction,
}

impl PanicKind {
    /// The Solidity panic code of this kind.
    pub open spec fn spec_code(&self) -> u32 {
        match self {
            PanicKind::Generic => 0x00,
            PanicKind::Assert => 0x01,
            PanicKind::UnderOverflow => 0x11,
            PanicKind::DivisionByZero => 0x12,
            PanicKind::EnumConversionError => 0x21,
            PanicKind::StorageEncodingError => 0x22,
            PanicKind::EmptyArrayPop => 0x31,
            PanicKind::ArrayOutOfBounds => 0x32,
            PanicKind::ResourceError => 0x41,
            PanicKind::InvalidInternalFunction => 0x51,
        }
    }

    /// The Solidity panic code of this kind.
    pub fn code(&self) -> (r: u32)
        ensures
            r == self.spec_code(),
    {
        match self {
            PanicKind::Generic => 0x00,
            PanicKind::Assert => 0x01,
            PanicKind::UnderOverflow => 0x11,
            PanicKind::DivisionByZero => 0x12,
            PanicKind::EnumConversionError => 0x21,
            PanicKind::StorageEncodingError => 0x22,
            PanicKind::EmptyArrayPop => 0x31,
            PanicKind::ArrayOutOfBounds => 0x32,
            PanicKind::ResourceError => 0x41,
            PanicKind::InvalidInternalFunction => 0x51,
        }
    }
}

/// How a precompile call that failed ends.
#[derive(Clone, Debug, PartialEq, Eq)]
pub enum PrecompileOutcome {
    /// Execution halts for lack of gas; the gas reservoir is kept.
    HaltOutOfGas { reservoir: u64 },
    /// Execution aborts with an unrecoverable error.
    Fatal(String),
    /// The call reverts, charging `gas`; its output is the error's ABI encoding.
    Revert { gas: u64, reservoir: u64 },
}

/// Top-level error type for the precompile operations.
#[derive(Clone, Debug, PartialEq, Eq)]
pub enum MagnusPrecompileError {
    /// Error from the MIP-20 token.
    MIP20(Mip20Error),
    /// Error from the MIP-20 issuer registry.
    MIP20IssuerRegistry(IssuerRegistryError),
    /// Error from the fee manager.
    FeeManagerError(FeeManagerError),
    /// EVM panic (arithmetic under/overflow, out-of-bounds access, ...).
    Panic(PanicKind),
    /// Gas limit exceeded during precompile execution.
    OutOfGas,
    /// The calldata's 4-byte selector does not match any known function.
    UnknownFunctionSelector([u8; 4]),
    /// Unrecoverable internal error.
    Fatal(String),
}

impl MagnusPrecompileError {
    /// A system-level failure: the state may be inconsistent and the error must propagate.
    pub open spec fn spec_is_system_error(&self) -> bool {
        self is OutOfGas || self is Fatal || self is Panic
    }

    /// Returns true if this error represents a system-level failure that must be propagated
    /// rather than swallowed, because state may be inconsistent.
    pub fn is_system_error(&self) -> (r: bool)
        ensures
            r == self.spec_is_system_error(),
    {
        match self {
            MagnusPrecompileError::OutOfGas
            | MagnusPrecompileError::Fatal(_)
            | MagnusPrecompileError::Panic(_) => true,
            MagnusPrecompileError::MIP20(_)
            | MagnusPrecompileError::MIP20IssuerRegistry(_)
            | MagnusPrecompileError::FeeManagerError(_)
            | MagnusPrecompileError::UnknownFunctionSelector(_) => false,
        }
    }

    /// What a precompile call ending in this error yields: running out of gas halts (the
    /// gas reservoir kept), a fatal error aborts execution with its message, and every
    /// other error reverts the call, charging `gas`, with the error's ABI encoding as output.
    pub fn precompile_outcome(&self, gas: u64, reservoir: u64) -> (r: PrecompileOutcome)
        ensures
            match self {
                MagnusPrecompileError::OutOfGas => r == (PrecompileOutcome::HaltOutOfGas { reservoir }),
                MagnusPrecompileError::Fatal(m) => r matches PrecompileOutcome::Fatal(x) && x@ == m@,
                _ => r == (PrecompileOutcome::Revert { gas, reservoir }),
            },
    {
        match self {
            MagnusPrecompileError::OutOfGas => PrecompileOutcome::HaltOutOfGas { reservoir },
            MagnusPrecompileError::Fatal(m) => PrecompileOutcome::Fatal(m.clone()),
            _ => PrecompileOutcome::Revert { gas, reservoir },
        }
    }

    /// Creates an arithmetic under/overflow panic error.
    pub fn under_overflow() -> (r: MagnusPrecompileError)
        ensures
            r == MagnusPrecompileError::Panic(PanicKind::UnderOverflow),
    {
        MagnusPrecompileError::Panic(PanicKind::UnderOverflow)
    }

    /// Creates an enum conversion error panic (Solidity panic `0x21`).
    pub fn enum_conversion_error() -> (r: MagnusPrecompileError)
        ensures
            r == MagnusPrecompileError::Panic(PanicKind::EnumConversionError),
    {
        MagnusPrecompileError::Panic(PanicKind::EnumConversionError)
    }

    /// Creates an array out-of-bounds panic error.
    pub fn array_oob() -> (r: MagnusPrecompileError)
        ensures
            r == MagnusPrecompileError::Panic(PanicKind::ArrayOutOfBounds),
    {
        MagnusPrecompileError::Panic(PanicKind::ArrayOutOfBounds)
    }
}

} // verus!
