//! Values as they are exchanged with clients.

use vstd::prelude::*;

verus! {

/// A request to subscribe, reduced to the address to subscribe.
#[derive(Clone, Debug)]
pub struct SubscribeReq {
    email: String,
}

impl View for SubscribeReq {
    type V = Seq<char>;

    closed spec fn view(&self) -> Seq<char> {
        self.email@
    }
}

impl SubscribeReq {
    pub fn new(email: String) -> (req: SubscribeReq)
        ensures
            req@ == email@,
    {
        SubscribeReq { email }
    }

    /// The address to subscribe.
    pub fn email(&self) -> (email: &String)
        ensures
            email@ == self@,
    {
        &self.email
    }
}

} // verus!
