//! The user as a client keeps it before the chat room has seen it.

use crate::proto;
use vstd::prelude::*;
use vstd::std_specs::convert::FromSpecImpl;

verus! {

#[derive(Debug, PartialEq)]
pub struct User {
    pub id: proto::UserId,
    pub name: String,
    pub short_name: String,
}

impl Clone for User {
    fn clone(&self) -> (copy: Self)
        ensures
            copy.id == self.id,
            copy.name@ == self.name@,
            copy.short_name@ == self.short_name@,
    {
        User { id: self.id, name: self.name.clone(), short_name: self.short_name.clone() }
    }
}

impl User {
    /// The record that the chat room would hold for this user, with the
    /// date of registration still unset.
    pub open spec fn as_proto(&self) -> proto::UserView {
        proto::UserView { id: self.id, name: self.name@, short_name: self.short_name@, created: 0 }
    }

    /// The message that carries this user to the chat room.
    pub fn make_proto(&self) -> (message: proto::User)
        ensures
            message@ == self.as_proto(),
    {
        proto::User::from(self.clone())
    }
}

impl From<User> for proto::User {
    fn from(u: User) -> (message: proto::User) {
        proto::User { id: u.id, name: u.name, short_name: u.short_name, created: 0 }
    }
}

impl FromSpecImpl<User> for proto::User {
    open spec fn obeys_from_spec() -> bool {
        true
    }

    open spec fn from_spec(u: User) -> proto::User {
        proto::User { id: u.id, name: u.name, short_name: u.short_name, created: 0 }
    }
}

} // verus!
