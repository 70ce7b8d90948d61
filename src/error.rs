use vstd::prelude::*;

verus! {

/// The input field that a rejected request names, for display next to it.
#[derive(Debug, Clone, Copy, PartialEq, Eq, Structural)]
pub enum InputField {
    DisplayName,
    Password,
    ChannelId,
}

impl InputField {
    /// The field's name as callers address it.
    pub fn name(&self) -> (r: &'static str)
        ensures
            r@ == field_name(*self),
    {
        match self {
            InputField::DisplayName => "displayName",
            InputField::Password => "password",
            InputField::ChannelId => "channelId",
        }
    }

    /// Why a value of this field was rejected.
    pub fn message(&self) -> (r: &'static str)
        ensures
            r@ == field_message(*self),
    {
        match self {
            InputField::DisplayName => "case mismatch",
            InputField::Password => "wrong password",
            InputField::ChannelId => "cannot follow yourself",
        }
    }
}

pub open spec fn field_name(f: InputField) -> Seq<char> {
    match f {
        InputField::DisplayName => "displayName"@,
        InputField::Password => "password"@,
        InputField::ChannelId => "channelId"@,
    }
}

pub open spec fn field_message(f: InputField) -> Seq<char> {
    match f {
        InputField::DisplayName => "case mismatch"@,
        InputField::Password => "wrong password"@,
        InputField::ChannelId => "cannot follow yourself"@,
    }
}

/// Every way a mutation can fail, as the caller sees it.
#[derive(Debug, Clone, Copy, PartialEq, Eq, Structural)]
pub enum MutationError {
    /// The request carries no valid session.
    Unauthenticated,
    /// The user the session names does not exist.
    NotFound,
    /// A business rule rejected the input; the field says which one.
    InvalidInput { field: InputField },
    /// A guarded write matched no row: the state it was guarded on changed.
    Conflict,
    /// Storage was unavailable or refused the write.
    PersistenceFailure,
    /// The write committed, but announcing it failed.
    PublishFailure,
}

/// Why a write unit did not commit.
#[derive(Debug, Clone, Copy, PartialEq, Eq, Structural)]
pub enum StoreError {
    /// Storage could not be reached or the transaction aborted.
    Unavailable,
    /// A uniqueness constraint refused the new value.
    Constraint,
}

/// The caller-facing error for a failed write: a refused unique value is a
/// conflict, anything else a persistence failure.
pub fn persistence_error(e: StoreError) -> (r: MutationError)
    ensures
        r == (match e {
            StoreError::Unavailable => MutationError::PersistenceFailure,
            StoreError::Constraint => MutationError::Conflict,
        }),
{
    match e {
        StoreError::Unavailable => MutationError::PersistenceFailure,
        StoreError::Constraint => MutationError::Conflict,
    }
}

} // verus!
