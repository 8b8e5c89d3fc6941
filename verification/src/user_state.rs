//! Who is signed in.

use vstd::prelude::*;

verus! {

/// A signed-in user.
#[derive(Clone, Debug)]
pub struct UserInfo {
    pub id: String,
    pub email: String,
    pub username: Option<String>,
    pub avatar_url: Option<String>,
    pub created_at: i64,
}

/// A team offered in a form's drop-down.
#[derive(Clone, Debug)]
pub struct TeamOption {
    pub id: String,
    pub name: String,
}

fn copy_text(s: &Option<String>) -> (r: Option<String>)
    ensures
        r == *s,
{
    match s {
        Some(t) => Some(t.clone()),
        None => None,
    }
}

impl UserInfo {
    /// A copy of the user.
    pub fn duplicate(&self) -> (r: UserInfo)
        ensures
            r == *self,
    {
        UserInfo {
            id: self.id.clone(),
            email: self.email.clone(),
            username: copy_text(&self.username),
            avatar_url: copy_text(&self.avatar_url),
            created_at: self.created_at,
        }
    }
}

/// The signed-in user shared by the whole application, if any.
pub struct GlobalUserState {
    pub user: Option<UserInfo>,
}

impl GlobalUserState {
    /// Nobody signed in.
    pub fn new() -> (r: Self)
        ensures
            r.user is None,
    {
        GlobalUserState { user: None }
    }

    /// The signed-in user, if any.
    pub fn get_user(&self) -> (r: Option<UserInfo>)
        ensures
            r == self.user,
    {
        match &self.user {
            Some(u) => Some(u.duplicate()),
            None => None,
        }
    }

    /// Whether someone is signed in.
    pub fn is_logged_in(&self) -> (r: bool)
        ensures
            r == (self.user is Some),
    {
        self.get_user().is_some()
    }

    /// Records who is signed in (`None`: nobody).
    pub fn set_user(&mut self, user: Option<UserInfo>)
        ensures
            final(self).user == user,
    {
        self.user = user;
    }
}

impl Default for GlobalUserState {
    fn default() -> (r: Self)
        ensures
            r.user is None,
    {
        GlobalUserState::new()
    }
}

} // verus!
