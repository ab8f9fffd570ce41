//! People who share their friends: each friend is held through a reference-counted
//! pointer, so one person can be the friend of many.

use std::rc::Rc;
use vstd::prelude::*;

verus! {

/// A person with a name, an age and a list of friends, in the order they were added.
#[derive(Debug)]
pub struct User {
    pub name: String,
    pub age: u8,
    pub friends: Vec<Rc<User>>,
}

impl User {
    /// A person without friends.
    pub fn new(name: String, age: u8) -> (r: User)
        ensures
            r.name == name,
            r.age == age,
            r.friends@.len() == 0,
    {
        User { name, age, friends: Vec::new() }
    }

    /// Adds `friend` at the end of `parent`'s friends.
    pub fn add_friend(parent: &mut User, friend: Rc<User>)
        ensures
            final(parent).name == old(parent).name,
            final(parent).age == old(parent).age,
            final(parent).friends@ == old(parent).friends@.push(friend),
    {
        parent.friends.push(friend);
    }

    /// The names of `user`'s friends, in the order they were added.
    pub fn list_friends(user: &User) -> (r: Vec<String>)
        ensures
            r@.len() == user.friends@.len(),
            forall|i: int| 0 <= i < r@.len() ==> #[trigger] r@[i]@ == user.friends@[i].name@,
    {
        let mut names: Vec<String> = Vec::new();
        let mut i: usize = 0;
        while i < user.friends.len()
            invariant
                i <= user.friends@.len(),
                names@.len() == i,
                forall|j: int| 0 <= j < i ==> #[trigger] names@[j]@ == user.friends@[j].name@,
            decreases user.friends@.len() - i,
        {
            let friend = &user.friends[i];
            names.push(friend.name.clone());
            i = i + 1;
        }
        names
    }
}

} // verus!
