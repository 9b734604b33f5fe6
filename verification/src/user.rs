use crate::ids::{uuid_text, uuid_to_string};
use crate::time::Timestamp;
use vstd::prelude::*;
use vstd::std_specs::cmp::PartialEqSpecImpl;
use vstd::string::StringExecFns;

verus! {

/// What a user may do: an admin manages the shows, a customer buys tickets.
#[derive(Clone, Copy, Debug, PartialEq, Eq, Structural)]
pub enum Role {
    Admin,
    Customer,
}

/// A user of the box office.
#[derive(Debug)]
pub struct User {
    pub id: u128,
    pub username: String,
    pub role: Role,
    pub time_created: Timestamp,
}

impl User {
    /// Whether the user is an admin.
    pub fn is_admin(&self) -> (admin: bool)
        ensures
            admin == (self.role == Role::Admin),
    {
        match self.role {
            Role::Admin => true,
            Role::Customer => false,
        }
    }
}

impl Clone for User {
    fn clone(&self) -> (copy: Self)
        ensures
            copy == *self,
    {
        User {
            id: self.id,
            username: self.username.clone(),
            role: self.role,
            time_created: self.time_created,
        }
    }
}

/// Two users are the same user when their ids are equal.
impl PartialEq for User {
    fn eq(&self, other: &Self) -> (same: bool) {
        self.id == other.id
    }
}

impl PartialEqSpecImpl for User {
    open spec fn obeys_eq_spec() -> bool {
        true
    }

    open spec fn eq_spec(&self, other: &User) -> bool {
        self.id == other.id
    }
}

impl Eq for User {

}

/// Why a request on the users was refused.
#[derive(Clone, Copy, Debug, PartialEq, Eq, Structural)]
pub enum UserError {
    /// No user has this id.
    NoSuchUser(u128),
}

impl UserError {
    /// The HTTP status of the refusal.
    pub fn status(&self) -> (code: u16)
        ensures
            code == 400,
    {
        400
    }

    /// The text that explains the refusal.
    pub fn message(&self) -> (text: String)
        ensures
            text@ == (match *self {
                UserError::NoSuchUser(id) => "No such user Exists: "@ + uuid_text(id),
            }),
    {
        match self {
            UserError::NoSuchUser(id) => {
                let shown = uuid_to_string(*id);
                "No such user Exists: ".to_owned().concat(shown.as_str())
            },
        }
    }
}

} // verus!
