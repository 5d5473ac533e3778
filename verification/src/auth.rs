//! The authorization evaluator: decides whether a user satisfies a required
//! permission expression. Permission strings are opaque capabilities and are
//! matched exactly (case-sensitive, no wildcards).

use vstd::prelude::*;

verus! {

/// An identity resolved for one request: a display name and the set of
/// permission strings the user holds. Membership in `permissions` is tested
/// by exact string match; insertion order is irrelevant.
pub struct User {
    pub id: i64,
    pub username: String,
    pub permissions: Vec<String>,
}

impl User {
    /// The user holds permission `p`: some entry of `permissions` is exactly `p`.
    pub open spec fn holds(&self, p: Seq<char>) -> bool {
        exists|i: int| 0 <= i < self.permissions@.len() && self.permissions@[i]@ == p
    }

    /// The user's permissions as a set of strings.
    pub open spec fn perm_set(&self) -> Set<Seq<char>> {
        Set::new(|p: Seq<char>| self.holds(p))
    }

    /// Exact-match membership test against the user's permission set.
    pub fn has_permission(&self, p: &String) -> (r: bool)
        ensures
            r == self.holds(p@),
    {
        let n = self.permissions.len();
        let mut i: usize = 0;
        while i < n
            invariant
                n == self.permissions@.len(),
                i <= n,
                forall|k: int| 0 <= k < i ==> self.permissions@[k]@ != p@,
            decreases n - i,
        {
            if self.permissions[i] == *p {
                return true;
            }
            i = i + 1;
        }
        false
    }
}

impl Default for User {
    /// The anonymous default user: the sentinel identity a request falls back
    /// to when session resolution yields no user. It holds no permissions.
    fn default() -> (u: User)
        ensures
            u.id == crate::session::ANONYMOUS_USER_ID,
            u.username@ == "Guest"@,
            u.permissions@ == Seq::<String>::empty(),
    {
        User { id: crate::session::ANONYMOUS_USER_ID, username: "Guest".to_owned(), permissions: Vec::new() }
    }
}

/// A required permission expression: an "any of" combinator, satisfied when
/// the user holds at least one of the listed permission strings.
pub struct Requirement {
    pub any_of: Vec<String>,
}

impl Requirement {
    /// The required permissions as a set of strings.
    pub open spec fn req_set(&self) -> Set<Seq<char>> {
        Set::new(|p: Seq<char>| exists|j: int| 0 <= j < self.any_of@.len() && self.any_of@[j]@ == p)
    }

    /// The user holds at least one of the required permissions.
    pub open spec fn satisfied_by(&self, user: &User) -> bool {
        exists|j: int| 0 <= j < self.any_of@.len() && user.holds(self.any_of@[j]@)
    }
}

/// Decide whether `user` satisfies `req`: succeed on the first exact-string
/// match between a required permission and the user's permission set, fail if
/// none matches. A pure decision: the result is a function of the two
/// arguments alone, and neither argument is changed.
pub fn evaluate(user: &User, req: &Requirement) -> (r: bool)
    ensures
        r == req.satisfied_by(user),
{
    let n = req.any_of.len();
    let mut j: usize = 0;
    while j < n
        invariant
            n == req.any_of@.len(),
            j <= n,
            forall|k: int| 0 <= k < j ==> !user.holds(req.any_of@[k]@),
        decreases n - j,
    {
        if user.has_permission(&req.any_of[j]) {
            return true;
        }
        j = j + 1;
    }
    false
}

/// The kind of operation a request attempts, as one token (an HTTP-style
/// verb). The evaluator itself is transport-agnostic; this only names the
/// token a policy is restricted to.
#[derive(PartialEq, Eq, Structural, Clone, Copy, Debug)]
pub enum Method {
    Get,
    Post,
    Put,
    Delete,
    Head,
    Options,
    Patch,
}

/// A policy for one protected operation: the permission requirement, the
/// methods it applies to, and — as an explicit configuration knob, not a
/// hardcoded default — what to answer for methods outside that set.
pub struct Policy {
    pub requirement: Requirement,
    pub applicable_methods: Vec<Method>,
    pub allow_unlisted_methods: bool,
}

impl Policy {
    /// The policy applies to `method`: it is one of the applicable methods.
    pub open spec fn applies_to(&self, method: Method) -> bool {
        exists|i: int| 0 <= i < self.applicable_methods@.len() && self.applicable_methods@[i] == method
    }

    /// The decision the policy makes for `user` and `method`: the permission
    /// requirement where the policy applies, the configured default otherwise.
    pub open spec fn authorizes(&self, user: &User, method: Method) -> bool {
        if self.applies_to(method) {
            self.requirement.satisfied_by(user)
        } else {
            self.allow_unlisted_methods
        }
    }

    /// The policy applies to `method`.
    pub fn method_applies(&self, method: Method) -> (r: bool)
        ensures
            r == self.applies_to(method),
    {
        let n = self.applicable_methods.len();
        let mut i: usize = 0;
        while i < n
            invariant
                n == self.applicable_methods@.len(),
                i <= n,
                forall|k: int| 0 <= k < i ==> self.applicable_methods@[k] != method,
            decreases n - i,
        {
            if self.applicable_methods[i] == method {
                return true;
            }
            i = i + 1;
        }
        false
    }
}

/// Decide whether the operation guarded by `policy` may proceed for `user`
/// and `method`: run the evaluator where the policy applies to the method,
/// answer the policy's configured default otherwise. Denial is the `false`
/// branch of the result, an expected outcome, never a fault.
pub fn authorize(user: &User, policy: &Policy, method: Method) -> (r: bool)
    ensures
        r == policy.authorizes(user, method),
{
    if policy.method_applies(method) {
        evaluate(user, &policy.requirement)
    } else {
        policy.allow_unlisted_methods
    }
}

/// A user satisfies an "any of" requirement exactly when the intersection of
/// the user's permission set with the required set is non-empty.
pub proof fn lemma_satisfied_iff_intersection_nonempty(user: &User, req: &Requirement)
    ensures
        req.satisfied_by(user) <==> !user.perm_set().intersect(req.req_set()).is_empty(),
{
    if req.satisfied_by(user) {
        let j = choose|j: int| 0 <= j < req.any_of@.len() && user.holds(req.any_of@[j]@);
        let p = req.any_of@[j]@;
        assert(user.perm_set().intersect(req.req_set()).contains(p));
    }
    if !user.perm_set().intersect(req.req_set()).is_empty() {
        let p = user.perm_set().intersect(req.req_set()).choose();
        assert(user.perm_set().contains(p));
        assert(req.req_set().contains(p));
    }
}

/// `evaluate` is deterministic: equal inputs give equal results. Together with
/// the exact postcondition of `evaluate` (its result equals `satisfied_by`,
/// a function of the arguments alone) and its read-only signature, this states
/// that `evaluate` is a pure function.
pub proof fn lemma_evaluate_deterministic(u1: User, r1: Requirement, u2: User, r2: Requirement)
    requires
        u1 == u2,
        r1 == r2,
    ensures
        r1.satisfied_by(&u1) == r2.satisfied_by(&u2),
{
}

} // verus!
