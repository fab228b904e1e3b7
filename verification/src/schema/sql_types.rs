//! Names of the enumerated column types of the database, one type for each
//! enumeration that a record stores.

use vstd::prelude::*;

verus! {

/// The column type that stores an `ActionTarget`.
#[derive(Clone, Copy, Debug, PartialEq, Eq, Structural)]
pub struct ActionTargets;

/// The column type that stores an `ActionType`.
#[derive(Clone, Copy, Debug, PartialEq, Eq, Structural)]
pub struct ActionTypes;

/// The column type that stores the places a creature is found in.
#[derive(Clone, Copy, Debug, PartialEq, Eq, Structural)]
pub struct Locales;

/// The column type that stores a `Rarity`.
#[derive(Clone, Copy, Debug, PartialEq, Eq, Structural)]
pub struct Rarities;

/// The column type that stores a `ResistedBy`.
#[derive(Clone, Copy, Debug, PartialEq, Eq, Structural)]
pub struct ResistedBys;

/// The column type that stores a `UserRole`.
#[derive(Clone, Copy, Debug, PartialEq, Eq, Structural)]
pub struct UserRoles;

} // verus!
