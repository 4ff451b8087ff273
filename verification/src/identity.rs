//! Identifiers that name a session, a user and an event of the platform, and
//! the password mode of an account.

use vstd::prelude::*;
use vstd::std_specs::cmp::PartialEqSpecImpl;

verus! {

/// The identity of one session, as the platform issued it.
#[derive(Debug)]
pub struct SessionId(String);

impl View for SessionId {
    type V = Seq<char>;

    closed spec fn view(&self) -> Seq<char> {
        self.0@
    }
}

impl SessionId {
    pub fn new(value: String) -> (id: Self)
        ensures
            id@ == value@,
    {
        Self(value)
    }

    pub fn raw(&self) -> (value: &String)
        ensures
            value@ == self@,
    {
        &self.0
    }

    pub fn to_string(&self) -> (text: String)
        ensures
            text@ == self@,
    {
        self.0.clone()
    }
}

impl Clone for SessionId {
    fn clone(&self) -> (copy: Self)
        ensures
            copy@ == self@,
    {
        Self(self.0.clone())
    }
}

impl PartialEq for SessionId {
    fn eq(&self, other: &Self) -> (equal: bool) {
        self.0 == other.0
    }
}

impl PartialEqSpecImpl for SessionId {
    open spec fn obeys_eq_spec() -> bool {
        true
    }

    open spec fn eq_spec(&self, other: &Self) -> bool {
        self@ == other@
    }
}

/// The identity of one user.
pub struct UserId(String);

impl View for UserId {
    type V = Seq<char>;

    closed spec fn view(&self) -> Seq<char> {
        self.0@
    }
}

impl UserId {
    pub fn new(value: String) -> (id: Self)
        ensures
            id@ == value@,
    {
        Self(value)
    }

    pub fn raw(&self) -> (value: &String)
        ensures
            value@ == self@,
    {
        &self.0
    }

    pub fn to_string(&self) -> (text: String)
        ensures
            text@ == self@,
    {
        self.0.clone()
    }
}

/// The identity of one event in a user's event stream.
pub struct EventId(pub(crate) String);

/// How many passwords protect an account.
#[derive(Debug, Clone, Copy, PartialEq, Eq, Structural)]
pub enum PasswordMode {
    /// One password signs in and unlocks the data.
    Single,
    /// A second password unlocks the data.
    Dual,
}

impl PasswordMode {
    /// The number that stands for the mode on the wire.
    pub open spec fn number(self) -> int {
        match self {
            PasswordMode::Single => 1,
            PasswordMode::Dual => 2,
        }
    }

    /// The number that stands for the mode on the wire.
    pub fn value(&self) -> (number: u8)
        ensures
            number == self.number(),
    {
        match self {
            PasswordMode::Single => 1,
            PasswordMode::Dual => 2,
        }
    }
}

} // verus!
