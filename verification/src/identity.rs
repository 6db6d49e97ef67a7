//! The authenticated user, as a record of fixed fields.

use vstd::prelude::*;

verus! {

/// Who is logged in: the account's number and its name.
#[derive(Debug, PartialEq, Eq)]
pub struct Identity {
    pub user_id: u64,
    pub name: String,
}

impl View for Identity {
    type V = (u64, Seq<char>);

    open spec fn view(&self) -> (u64, Seq<char>) {
        (self.user_id, self.name@)
    }
}

impl Clone for Identity {
    fn clone(&self) -> (r: Self)
        ensures
            r@ == self@,
    {
        Identity { user_id: self.user_id, name: self.name.clone() }
    }
}

impl Identity {
    /// Builds an identity from its two fields.
    pub fn new(user_id: u64, name: &str) -> (r: Identity)
        ensures
            r@ == (user_id, name@),
    {
        Identity { user_id, name: name.to_owned() }
    }
}

} // verus!
