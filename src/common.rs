//! Types shared by both packet catalogs.
use vstd::prelude::*;

use crate::serialize::{be32, from_be32, lemma_be32, Cursor, Serialize};
use crate::{Error, ErrorView};

verus! {

/// Authentication mechanisms, as a set of bit flags.
#[derive(Clone, Copy, Debug, PartialEq, Eq, Structural)]
pub struct AuthMechs(pub u32);

/// Every flag that has a meaning.
pub const AUTH_MECHS_ALL: u32 = 0b111;

impl AuthMechs {
    /// The legacy password check.
    pub fn legacy() -> (r: AuthMechs)
        ensures
            r.spec_bits() == 1,
    {
        AuthMechs(1)
    }

    /// SRP authentication.
    pub fn srp() -> (r: AuthMechs)
        ensures
            r.spec_bits() == 2,
    {
        AuthMechs(2)
    }

    /// SRP registration of a new player.
    pub fn first_srp() -> (r: AuthMechs)
        ensures
            r.spec_bits() == 4,
    {
        AuthMechs(4)
    }

    /// The raw bits.
    pub open spec fn spec_bits(self) -> u32 {
        self.0
    }

    pub fn bits(&self) -> (r: u32)
        ensures
            r == self.spec_bits(),
    {
        self.0
    }

    /// The flags of `bits` that have a meaning; the others are dropped.
    pub fn from_bits_truncate(bits: u32) -> (r: AuthMechs)
        ensures
            r.spec_bits() == bits & AUTH_MECHS_ALL,
    {
        AuthMechs(bits & AUTH_MECHS_ALL)
    }

    /// Whether every flag of `other` is set in `self`.
    pub fn contains(&self, other: AuthMechs) -> (r: bool)
        ensures
            r == (self.spec_bits() & other.spec_bits() == other.spec_bits()),
    {
        self.0 & other.0 == other.0
    }

    /// The flags set in either.
    pub fn union(&self, other: AuthMechs) -> (r: AuthMechs)
        ensures
            r.spec_bits() == self.spec_bits() | other.spec_bits(),
    {
        AuthMechs(self.0 | other.0)
    }
}

impl View for AuthMechs {
    type V = AuthMechs;

    open spec fn view(&self) -> AuthMechs {
        *self
    }
}

impl Serialize for AuthMechs {
    /// Only known flags are written, since unknown ones do not read back.
    open spec fn encodable(&self) -> bool {
        self.0 & AUTH_MECHS_ALL == self.0
    }

    open spec fn encoding(&self) -> Seq<u8> {
        be32(self.0)
    }

    open spec fn decoding(data: Seq<u8>) -> Result<(AuthMechs, int), ErrorView> {
        if data.len() < 4 {
            Err(ErrorView::UnexpectedEof)
        } else {
            Ok((AuthMechs(from_be32(data) & AUTH_MECHS_ALL), 4))
        }
    }

    proof fn lemma_round_trip(&self, rest: Seq<u8>) {
        self.0.lemma_round_trip(rest);
    }

    fn serialize(&self, w: &mut Vec<u8>) {
        self.0.serialize(w);
    }

    fn deserialize(r: &mut Cursor) -> (res: Result<Self, Error>) {
        let bits = u32::deserialize(r)?;
        Ok(Self::from_bits_truncate(bits))
    }
}

} // verus!
