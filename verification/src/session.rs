//! Session identity binding and the user store: a session is bound either to
//! a concrete user id or to the anonymous default user, and an authorization
//! check always resolves to some user — an unauthenticated request resolves
//! to the anonymous default, never to a missing identity.

use vstd::prelude::*;

use crate::auth::User;

verus! {

/// The pre-provisioned sentinel identity used when no explicit login has
/// occurred. It holds no elevated permissions.
pub const ANONYMOUS_USER_ID: i64 = 1;

/// The identity a session is bound to.
#[derive(PartialEq, Eq, Structural, Clone, Copy, Debug)]
pub enum SessionState {
    /// No explicit login has occurred: the session resolves to the anonymous
    /// default user.
    Anonymous,
    /// An explicit login bound the session to this user id.
    Authenticated(i64),
}

/// A session: the identity binding that a sequence of requests shares. The
/// transport-level token (cookie) and its persistence belong to a session
/// store collaborator; only the identity binding is modelled here.
pub struct Session {
    pub state: SessionState,
}

impl Session {
    /// The user id the session resolves to: the bound id once authenticated,
    /// the anonymous default id otherwise.
    pub open spec fn bound_user_id(&self) -> i64 {
        match self.state {
            SessionState::Anonymous => ANONYMOUS_USER_ID,
            SessionState::Authenticated(id) => id,
        }
    }

    /// A fresh session, not yet bound to any concrete user.
    pub fn new() -> (s: Session)
        ensures
            s.state == SessionState::Anonymous,
    {
        Session { state: SessionState::Anonymous }
    }

    /// Bind the session to `user_id`, effective for every later request
    /// within the same session lifetime. The one transition of the session
    /// state machine that is exercised in scope: there is no way back to
    /// `Anonymous` short of session expiry.
    pub fn login_user(&mut self, user_id: i64)
        ensures
            final(self).state == SessionState::Authenticated(user_id),
    {
        self.state = SessionState::Authenticated(user_id);
    }
}

/// The user store: the collaborator that persists users. Modelled as the
/// snapshot of users it would hand out, keyed by their unique ids.
pub struct UserStore {
    pub users: Vec<User>,
}

impl UserStore {
    /// Well-formed store: user ids are unique, so an id resolves to at most
    /// one user.
    pub open spec fn wf(&self) -> bool {
        forall|i: int, j: int|
            0 <= i < self.users@.len() && 0 <= j < self.users@.len() && i != j
                ==> self.users@[i].id != self.users@[j].id
    }

    /// The store holds a user with id `id`.
    pub open spec fn has_user(&self, id: i64) -> bool {
        exists|i: int| 0 <= i < self.users@.len() && self.users@[i].id == id
    }

    /// The user the store holds under `id` (meaningful when `has_user(id)`
    /// and the store is well-formed).
    pub open spec fn user_with(&self, id: i64) -> User {
        self.users@[choose|i: int| 0 <= i < self.users@.len() && self.users@[i].id == id]
    }

    /// Load the user with the given id, `None` when the store holds none.
    pub fn load(&self, id: i64) -> (r: Option<&User>)
        requires
            self.wf(),
        ensures
            match r {
                Some(u) => self.has_user(id) && *u == self.user_with(id) && u.id == id,
                None => !self.has_user(id),
            },
    {
        let n = self.users.len();
        let mut i: usize = 0;
        while i < n
            invariant
                self.wf(),
                n == self.users@.len(),
                i <= n,
                forall|k: int| 0 <= k < i ==> self.users@[k].id != id,
            decreases n - i,
        {
            if self.users[i].id == id {
                proof {
                    let w = choose|w: int| 0 <= w < self.users@.len() && self.users@[w].id == id;
                    assert(self.users@[w].id == id && self.users@[i as int].id == id);
                    assert(w == i as int);
                }
                return Some(&self.users[i]);
            }
            i = i + 1;
        }
        None
    }

    /// Resolve the identity for the current request: the user the session is
    /// bound to, or the anonymous default user when no login has occurred.
    /// `None` only when even the bound id is missing from the store — an
    /// upstream store failure, which callers treat as a missing identity.
    pub fn current_user(&self, session: &Session) -> (r: Option<&User>)
        requires
            self.wf(),
        ensures
            match r {
                Some(u) => self.has_user(session.bound_user_id()) && *u == self.user_with(
                    session.bound_user_id(),
                ),
                None => !self.has_user(session.bound_user_id()),
            },
    {
        let id = match session.state {
            SessionState::Anonymous => ANONYMOUS_USER_ID,
            SessionState::Authenticated(bound) => bound,
        };
        self.load(id)
    }
}

} // verus!
