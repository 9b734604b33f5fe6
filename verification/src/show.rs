use crate::time::Timestamp;
use vstd::prelude::*;
use vstd::std_specs::cmp::PartialEqSpecImpl;

verus! {

/// A show that tickets can be bought for.
#[derive(Debug)]
pub struct Show {
    pub id: u128,
    pub title: String,
    /// The address of the show's page, as text.
    pub url: String,
    pub showtime: Timestamp,
}

impl Clone for Show {
    fn clone(&self) -> (copy: Self)
        ensures
            copy == *self,
    {
        Show {
            id: self.id,
            title: self.title.clone(),
            url: self.url.clone(),
            showtime: self.showtime,
        }
    }
}

/// Two shows are the same show when their ids are equal.
impl PartialEq for Show {
    fn eq(&self, other: &Self) -> (same: bool) {
        self.id == other.id
    }
}

impl PartialEqSpecImpl for Show {
    open spec fn obeys_eq_spec() -> bool {
        true
    }

    open spec fn eq_spec(&self, other: &Show) -> bool {
        self.id == other.id
    }
}

impl Eq for Show {

}

/// Why a request on the shows was refused.
#[derive(Clone, Copy, Debug, PartialEq, Eq, Structural)]
pub enum ShowError {
    /// The user who asked is unknown or is not an admin.
    Unauthorized,
    /// No show has the id asked for.
    NoSuchShow,
}

impl ShowError {
    /// The HTTP status of the refusal.
    pub fn status(&self) -> (code: u16)
        ensures
            code == (match *self {
                ShowError::Unauthorized => 401u16,
                ShowError::NoSuchShow => 400u16,
            }),
    {
        match self {
            ShowError::Unauthorized => 401,
            ShowError::NoSuchShow => 400,
        }
    }

    /// The text that explains the refusal.
    pub fn message(&self) -> (text: String)
        ensures
            text@ == (match *self {
                ShowError::Unauthorized => "User Lacks authority to create a show"@,
                ShowError::NoSuchShow => "No such show exists"@,
            }),
    {
        match self {
            ShowError::Unauthorized => "User Lacks authority to create a show".to_owned(),
            ShowError::NoSuchShow => "No such show exists".to_owned(),
        }
    }
}

} // verus!
