//! Identities of callers and accounts, and the context of one call.

use vstd::prelude::*;

verus! {

/// A 256-bit identity, held as its high and low 128 bits.
///
/// Two identities are the same when both halves agree; nothing else about an
/// identity is ever inspected.
#[derive(Clone, Copy, Debug, PartialEq, Eq, Hash, Structural)]
pub struct Identity {
    pub hi: u128,
    pub lo: u128,
}

/// The identity that `spacetimedb::Identity::from_claims` derives from an
/// issuer and a subject.
pub uninterp spec fn claims_identity(issuer: Seq<char>, subject: Seq<char>) -> Identity;

/// The identity that `spacetimedb::Identity::from_hex` reads from a text, or
/// `None` where it refuses the text.
pub uninterp spec fn hex_identity(hex: Seq<char>) -> Option<Identity>;

/// Calls `spacetimedb::Identity::from_claims` and splits the 256-bit result
/// into its two halves. The derivation hashes the text `issuer|subject`
/// twice with BLAKE3, so the contract only names the result: it depends on
/// the two texts and on nothing else.
#[verifier::external_body]
pub(crate) fn identity_from_claims(issuer: &str, subject: &str) -> (id: Identity)
    ensures
        id == claims_identity(issuer@, subject@),
{
    let (hi, lo) = spacetimedb::Identity::from_claims(issuer, subject).to_u256().into_words();
    Identity { hi, lo }
}

/// Calls `spacetimedb::Identity::from_hex`, which accepts 64 hexadecimal
/// digits after an optional `0x`, and splits the result into its two halves.
/// The contract names the outcome, refusal included: it depends on the text
/// alone.
#[verifier::external_body]
pub(crate) fn identity_from_hex(hex: &str) -> (id: Option<Identity>)
    ensures
        id == hex_identity(hex@),
{
    let parsed = spacetimedb::Identity::from_hex(hex).ok()?;
    let (hi, lo) = parsed.to_u256().into_words();
    Some(Identity { hi, lo })
}

/// Microseconds in a second.
pub const MICROS_PER_SECOND: i64 = 1_000_000;

/// The whole seconds in `micros` microseconds, rounded toward zero.
pub open spec fn micros_to_seconds(micros: int) -> int {
    if micros >= 0 {
        micros / 1_000_000
    } else {
        -((-micros) / 1_000_000)
    }
}

/// The context of one call into the engine: who calls, which identity the
/// engine itself runs under, when, and under which issuer account identities
/// are derived.
#[derive(Debug, Clone, PartialEq, Eq)]
pub struct Invocation {
    /// The identity of the caller.
    pub sender: Identity,
    /// The identity of the module, which is that of its operator.
    pub module_identity: Identity,
    /// The time of the call, in microseconds since the Unix epoch.
    pub timestamp_micros: i64,
    /// The issuer that the identity provider signs its tokens with.
    pub issuer_url: String,
}

impl Invocation {
    /// The time of the call in whole seconds since the Unix epoch.
    pub open spec fn timestamp_seconds(&self) -> i64 {
        micros_to_seconds(self.timestamp_micros as int) as i64
    }

    /// The time of the call in whole seconds since the Unix epoch.
    pub fn timestamp(&self) -> (seconds: i64)
        ensures
            seconds == self.timestamp_seconds(),
            seconds == micros_to_seconds(self.timestamp_micros as int),
    {
        self.timestamp_micros / MICROS_PER_SECOND
    }
}

} // verus!
