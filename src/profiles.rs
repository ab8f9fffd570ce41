//! User profiles with an optional e-mail address.

use crate::decimal::{decimal, push_decimal};
use vstd::prelude::*;

verus! {

/// The e-mail address on record for `user_id`: only user 1 has one.
pub fn get_email(user_id: u32) -> (r: Option<String>)
    ensures
        user_id == 1 ==> (r matches Some(e) && e@ == "user@example.com"@),
        user_id != 1 ==> r is None,
{
    if user_id == 1 {
        Some(String::from_str("user@example.com"))
    } else {
        None
    }
}

/// A user: id, name and perhaps an e-mail address.
#[derive(Debug, Clone)]
pub struct User {
    pub id: u32,
    pub name: String,
    pub email: Option<String>,
}

/// `"<id> - <name> (<email>)"`, or `"<id> - <name>"` without an address.
pub open spec fn user_info_text(id: u32, name: Seq<char>, email: Option<Seq<char>>) -> Seq<char> {
    match email {
        Some(e) => decimal(id as nat) + " - "@ + name + " ("@ + e + ")"@,
        None => decimal(id as nat) + " - "@ + name,
    }
}

impl User {
    pub fn new(id: u32, name: String, email: Option<String>) -> (r: User)
        ensures
            r.id == id,
            r.name == name,
            r.email == email,
    {
        User { id, name, email }
    }

    /// The user's id, name and address as one line.
    pub fn info(&self) -> (r: String)
        ensures
            r@ == user_info_text(
                self.id,
                self.name@,
                match self.email {
                    Some(e) => Some(e@),
                    None => None,
                },
            ),
    {
        let mut text = String::new();
        push_decimal(&mut text, self.id as u64);
        text.append(" - ");
        text.append(self.name.as_str());
        match &self.email {
            Some(email) => {
                text.append(" (");
                text.append(email.as_str());
                text.append(")");
            },
            None => {},
        }
        text
    }
}

} // verus!
