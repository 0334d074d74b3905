//! A WebAssembly module decoder, validator and runtime store.
use vstd::prelude::*;
use vstd::string::*;

pub mod binary;
pub mod instructions;
pub mod limits;
pub mod runtime;
pub mod text;
pub mod validation;

pub use binary::module::MalformedError;
pub use binary::types::RefType;

use binary::module::{Module, ModuleV, decode_bytes, spec_decode_bytes};
use runtime::{RuntimeErrorKind, UnlinkableError};
use validation::{Outcome, ValidationError, spec_validate_module};

verus! {

#[derive(Debug)]
#[non_exhaustive]
pub enum Error {
    Malformed(MalformedError),
    Invalid(ValidationError),
    Unlinkable(UnlinkableError),
    Trap(RuntimeErrorKind),
}

impl Error {
    /// The message of this error: what failed, then the message of the cause.
    pub open spec fn message(&self) -> Seq<char> {
        match self {
            Error::Malformed(e) => "malformed module: "@ + e.message(),
            Error::Invalid(e) => "invalid module: "@ + e.message(),
            Error::Unlinkable(e) => "unlinkable module: "@ + e.message(),
            Error::Trap(e) => "trap: "@ + e.message(),
        }
    }

    /// Renders the error as text.
    pub fn to_string(&self) -> (s: String)
        ensures
            s@ == self.message(),
    {
        match self {
            Error::Malformed(e) => String::from_str("malformed module: ").concat(
                e.to_string().as_str(),
            ),
            Error::Invalid(e) => String::from_str("invalid module: ").concat(e.to_string().as_str()),
            Error::Unlinkable(e) => String::from_str("unlinkable module: ").concat(e.to_string().as_str()),
            Error::Trap(e) => String::from_str("trap: ").concat(e.to_string().as_str()),
        }
    }
}

/// A copy of a byte slice.
pub(crate) fn copy_bytes(bytes: &[u8]) -> (r: Vec<u8>)
    ensures
        r@ == bytes@,
{
    let mut out: Vec<u8> = Vec::with_capacity(bytes.len());
    let mut i: usize = 0;
    while i < bytes.len()
        invariant
            i <= bytes@.len(),
            out@ == bytes@.take(i as int),
        decreases bytes@.len() - i,
    {
        out.push(bytes[i]);
        i = i + 1;
        proof {
            assert(out@ =~= bytes@.take(i as int));
        }
    }
    proof {
        assert(bytes@.take(i as int) =~= bytes@);
    }
    out
}

/// What parsing gives: the decoded module, or the decoding error as a malformed module.
pub open spec fn spec_parse_module(bytes: Seq<u8>) -> Result<ModuleV, Error> {
    match spec_decode_bytes(bytes) {
        Ok(m) => Ok(m),
        Err(e) => Err(Error::Malformed(e)),
    }
}

/// Parsing agrees with decoding: it gives exactly the module that decoding gives, and where
/// decoding fails it fails with that error as a malformed module, never as an invalid module,
/// an unlinkable one or a trap.
pub proof fn lemma_parse_agrees_with_decode(bytes: Seq<u8>)
    ensures
        spec_parse_module(bytes) is Ok <==> spec_decode_bytes(bytes) is Ok,
        spec_decode_bytes(bytes) is Ok ==> spec_parse_module(bytes)->Ok_0 == spec_decode_bytes(bytes)->Ok_0,
        spec_decode_bytes(bytes) is Err ==> spec_parse_module(bytes) == Err::<ModuleV, Error>(
            Error::Malformed(spec_decode_bytes(bytes)->Err_0),
        ),
        !(spec_parse_module(bytes) matches Err(Error::Invalid(_))),
        !(spec_parse_module(bytes) matches Err(Error::Unlinkable(_))),
        !(spec_parse_module(bytes) matches Err(Error::Trap(_))),
{
}

/// Parses a module.
pub fn parse_module(bytes: &[u8]) -> (r: Result<Module, Error>)
    requires
        bytes@.len() + u32::MAX <= u64::MAX,
    ensures
        match spec_parse_module(bytes@) {
            Ok(m) => r is Ok && r->Ok_0@ == m,
            Err(e) => r == Err::<Module, Error>(e),
        },
{
    match decode_bytes(copy_bytes(bytes)) {
        Ok(m) => Ok(m),
        Err(e) => Err(Error::Malformed(e)),
    }
}

/// Validates a module.
pub fn validate_module(m: &Module) -> (r: Result<(), Error>)
    requires
        !(spec_validate_module(m@) is Panics),
    ensures
        match spec_validate_module(m@) {
            Outcome::Gives(_) => r is Ok,
            Outcome::Fails(e) => r == Err::<(), Error>(Error::Invalid(e)),
            Outcome::Panics => false,
        },
{
    match validation::validate_module(m) {
        Ok(()) => Ok(()),
        Err(e) => Err(Error::Invalid(e)),
    }
}

} // verus!
