//! Outcomes of an operation, and players with a level.

use vstd::prelude::*;

verus! {

/// The outcome of an operation: success, or failure with a message.
#[derive(Debug, Clone)]
pub enum _Status {
    Success,
    Failed(String),
}

impl _Status {
    /// `"Success"`, or the failure message.
    pub fn _get_info(&self) -> (r: &str)
        ensures
            r@ == match self {
                _Status::Success => "Success"@,
                _Status::Failed(msg) => msg@,
            },
    {
        match self {
            _Status::Success => "Success",
            _Status::Failed(msg) => msg.as_str(),
        }
    }
}

/// Failure with `"Title is empty"` for an empty title, success otherwise.
pub fn _create_status(title: String) -> (r: _Status)
    ensures
        title@.len() == 0 <==> r is Failed,
        r matches _Status::Failed(msg) ==> msg@ == "Title is empty"@,
{
    if title.as_str().is_empty() {
        _Status::Failed(String::from_str("Title is empty"))
    } else {
        _Status::Success
    }
}

/// A player's level.
#[derive(Debug, Clone, Copy, PartialEq, Eq, Structural)]
pub enum Level {
    Low,
    Medium,
    High,
}

/// A player: name, level, and whether they are active.
#[derive(Debug, Clone)]
pub struct Player {
    pub name: String,
    pub level: Level,
    pub is_active: bool,
}

impl Player {
    pub fn new(name: String, level: Level, is_active: bool) -> (r: Player)
        ensures
            r.name == name,
            r.level == level,
            r.is_active == is_active,
    {
        Player { name, level, is_active }
    }

    /// Sets the level and the activity, keeping the name.
    pub fn change(&mut self, level: Level, is_active: bool)
        ensures
            final(self).name == old(self).name,
            final(self).level == level,
            final(self).is_active == is_active,
    {
        self.level = level;
        self.is_active = is_active;
    }
}

} // verus!
