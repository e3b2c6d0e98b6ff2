//! The closed set of failure kinds of the contract program.
//!
//! Each kind's wire code is its position in declaration order. Clients decode
//! failures by that number, so the order of the variants below is part of the
//! program's interface and must never change.

use solana_program::decode_error::DecodeError;
use solana_program::program_error::ProgramError;
use vstd::prelude::*;

verus! {

/// solana_program's `ProgramError`, the runtime's generic error; declared
/// with its variants, so that verified code builds and inspects
/// `ProgramError::Custom` itself.
#[verifier::external_type_specification]
pub struct ExProgramError(ProgramError);

/// Errors that may be returned by the contract program.
#[derive(Clone, Copy, Debug, PartialEq, Eq, Structural)]
pub enum ContractError {
    InvalidInstructionData,
    UnauthorisedAccess,
    DeserializeError,
    UnverifiedAddress,
}

/// The number of kinds; the codes `0 .. KIND_COUNT` belong to this taxonomy.
pub const KIND_COUNT: u32 = 4;

impl ContractError {
    /// The kind's position in declaration order.
    pub open spec fn ordinal(self) -> nat {
        match self {
            ContractError::InvalidInstructionData => 0,
            ContractError::UnauthorisedAccess => 1,
            ContractError::DeserializeError => 2,
            ContractError::UnverifiedAddress => 3,
        }
    }

    /// The kind whose ordinal is `n`, if there is one.
    pub open spec fn of_ordinal(n: nat) -> Option<ContractError> {
        if n == 0 {
            Some(ContractError::InvalidInstructionData)
        } else if n == 1 {
            Some(ContractError::UnauthorisedAccess)
        } else if n == 2 {
            Some(ContractError::DeserializeError)
        } else if n == 3 {
            Some(ContractError::UnverifiedAddress)
        } else {
            None
        }
    }

    /// The diagnostic text of the kind.
    pub open spec fn message_text(self) -> Seq<char> {
        match self {
            ContractError::InvalidInstructionData => "An instruction's data contents was invalid"@,
            ContractError::UnauthorisedAccess => "Only admin can call this instruction"@,
            ContractError::DeserializeError => "Can`t deserialize data"@,
            ContractError::UnverifiedAddress => "Address is not verified"@,
        }
    }

    /// The runtime error that reports this kind.
    pub open spec fn runtime_error(self) -> ProgramError {
        ProgramError::Custom(self.ordinal() as u32)
    }

    /// The numeric code of this kind: its ordinal.
    pub fn code(&self) -> (r: u32)
        ensures
            r as nat == self.ordinal(),
            r < KIND_COUNT,
    {
        match self {
            ContractError::InvalidInstructionData => 0,
            ContractError::UnauthorisedAccess => 1,
            ContractError::DeserializeError => 2,
            ContractError::UnverifiedAddress => 3,
        }
    }

    /// Decodes a numeric code back into its kind; codes past the last kind
    /// belong to no kind.
    pub fn from_u32(n: u32) -> (r: Option<ContractError>)
        ensures
            r == Self::of_ordinal(n as nat),
            r is Some <==> n < KIND_COUNT,
    {
        match n {
            0 => Some(ContractError::InvalidInstructionData),
            1 => Some(ContractError::UnauthorisedAccess),
            2 => Some(ContractError::DeserializeError),
            3 => Some(ContractError::UnverifiedAddress),
            _ => None,
        }
    }

    /// The fixed diagnostic message of the kind, for logs only.
    pub fn message(&self) -> (r: &'static str)
        ensures
            r@ == self.message_text(),
            r@.len() > 0,
    {
        proof {
            reveal_strlit("An instruction's data contents was invalid");
            reveal_strlit("Only admin can call this instruction");
            reveal_strlit("Can`t deserialize data");
            reveal_strlit("Address is not verified");
        }
        match self {
            ContractError::InvalidInstructionData => "An instruction's data contents was invalid",
            ContractError::UnauthorisedAccess => "Only admin can call this instruction",
            ContractError::DeserializeError => "Can`t deserialize data",
            ContractError::UnverifiedAddress => "Address is not verified",
        }
    }

    /// The name of this taxonomy, which tells its codes apart from those of
    /// other programs.
    pub fn type_of() -> (r: &'static str)
        ensures
            r@ == taxonomy_name(),
            r@.len() > 0,
    {
        proof {
            reveal_strlit("ContractError");
        }
        "ContractError"
    }
}

/// The label under which tooling displays codes of this taxonomy.
pub open spec fn taxonomy_name() -> Seq<char> {
    "ContractError"@
}

/// Lets generic tooling name the code space that a custom error code
/// belongs to.
impl<T> DecodeError<T> for ContractError {
    fn type_of() -> (r: &'static str)
        ensures
            r@ == taxonomy_name(),
            r@.len() > 0,
    {
        ContractError::type_of()
    }
}

/// A kind is handed to the runtime as a custom error whose code is the
/// kind's ordinal.
impl From<ContractError> for ProgramError {
    fn from(e: ContractError) -> (r: ProgramError)
        ensures
            r == e.runtime_error(),
    {
        ProgramError::Custom(e.code())
    }
}

impl vstd::std_specs::convert::FromSpecImpl<ContractError> for ProgramError {
    open spec fn obeys_from_spec() -> bool {
        true
    }

    open spec fn from_spec(e: ContractError) -> ProgramError {
        e.runtime_error()
    }
}

/// Converting a kind is a function of the kind alone: equal kinds give the
/// same runtime error, a custom error carrying the kind's ordinal.
pub proof fn lemma_runtime_error_deterministic(k1: ContractError, k2: ContractError)
    requires
        k1 == k2,
    ensures
        k1.runtime_error() == k2.runtime_error(),
        k1.runtime_error() == ProgramError::Custom(k1.ordinal() as u32),
{
}

/// Distinct kinds never share a runtime error code.
pub proof fn lemma_runtime_error_injective(k1: ContractError, k2: ContractError)
    requires
        k1 != k2,
    ensures
        k1.runtime_error() != k2.runtime_error(),
{
}

/// Every kind's code lies in `0 .. KIND_COUNT`; no other code is produced.
pub proof fn lemma_code_in_range(k: ContractError)
    ensures
        k.ordinal() < KIND_COUNT,
        k.runtime_error() matches ProgramError::Custom(c) && c < KIND_COUNT,
{
}

/// The taxonomy's name is one fixed, non-empty string.
pub proof fn lemma_taxonomy_name_nonempty()
    ensures
        taxonomy_name().len() > 0,
        taxonomy_name() == "ContractError"@,
{
    reveal_strlit("ContractError");
}

/// Every kind has a fixed, non-empty message.
pub proof fn lemma_message_nonempty(k: ContractError)
    ensures
        k.message_text().len() > 0,
{
    reveal_strlit("An instruction's data contents was invalid");
    reveal_strlit("Only admin can call this instruction");
    reveal_strlit("Can`t deserialize data");
    reveal_strlit("Address is not verified");
}

/// Encoding a kind and decoding its code gives the kind back.
pub proof fn lemma_encode_decode(k: ContractError)
    ensures
        ContractError::of_ordinal(k.ordinal()) == Some(k),
{
}

/// Every code that decodes to a kind is that kind's ordinal, and exactly the
/// codes below `KIND_COUNT` decode.
pub proof fn lemma_decode_encode(n: nat)
    ensures
        ContractError::of_ordinal(n) is Some <==> n < KIND_COUNT,
        ContractError::of_ordinal(n) matches Some(k) ==> k.ordinal() == n,
{
}

} // verus!
