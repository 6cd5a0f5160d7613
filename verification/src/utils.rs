//! Small shared helpers of the command layer.

use vstd::prelude::*;

verus! {

/// True iff the referenced flag is false.
pub fn is_false(v: &bool) -> (r: bool)
    ensures
        r == !*v,
{
    !*v
}

/// The default discriminator a user record carries when none is known.
pub fn default_discriminator() -> (r: Option<u16>)
    ensures
        r == Some(1u16),
{
    Some(1)
}

/// The kind of a slash command, with an explicit variant for kinds this
/// bot does not know.
#[derive(Clone, Copy, Debug, Hash, Eq, PartialEq, PartialOrd, Ord, Structural)]
pub enum LocalCommandType {
    ChatInput,
    User,
    Message,
    Unknown,
}

impl LocalCommandType {
    /// The wire number of each kind; unknown kinds report the reserved
    /// all-ones value.
    pub fn number(&self) -> (r: u8)
        ensures
            *self is ChatInput ==> r == 1,
            *self is User ==> r == 2,
            *self is Message ==> r == 3,
            *self is Unknown ==> r == 255,
    {
        match self {
            LocalCommandType::ChatInput => 1,
            LocalCommandType::User => 2,
            LocalCommandType::Message => 3,
            LocalCommandType::Unknown => 255,
        }
    }

    /// The kind a wire number denotes; every number outside the known
    /// range is the unknown kind.
    pub fn from_number(n: u8) -> (r: LocalCommandType)
        ensures
            n == 1 ==> r is ChatInput,
            n == 2 ==> r is User,
            n == 3 ==> r is Message,
            !(1 <= n <= 3) ==> r is Unknown,
    {
        if n == 1 {
            LocalCommandType::ChatInput
        } else if n == 2 {
            LocalCommandType::User
        } else if n == 3 {
            LocalCommandType::Message
        } else {
            LocalCommandType::Unknown
        }
    }
}

} // verus!
