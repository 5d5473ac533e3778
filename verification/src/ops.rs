//! The protected operations a server exposes to clients: bind the session to
//! the demo user, report the current user's name, and report the current
//! user's permissions gated by the authorization evaluator. Each is the pure
//! compute part of one remote-callable operation; the transport that carries
//! the call and the store that persists sessions live outside this crate.

use vstd::prelude::*;

use crate::auth::Method;
use crate::auth::Policy;
use crate::auth::Requirement;
use crate::auth::User;
use crate::session::Session;
use crate::session::SessionState;
use crate::session::UserStore;

verus! {

/// The fixed user id the demo login binds a session to.
pub const DEMO_USER_ID: i64 = 2;

/// Failure of a protected operation. Denial of permission is not here: denial
/// is an expected outcome, reported in the operation's response string.
#[derive(PartialEq, Eq, Structural, Clone, Copy, Debug)]
pub enum AuthError {
    /// The session's bound user id resolves to no user in the store.
    NoCurrentUser,
}

/// Bind the session to the fixed demo user id, effective for every later
/// request within the same session lifetime.
pub fn login(session: &mut Session)
    ensures
        final(session).state == SessionState::Authenticated(DEMO_USER_ID),
{
    session.login_user(DEMO_USER_ID);
}

/// What reporting the current user's name answers: the username the store
/// binds to the session's resolved user id, or `NoCurrentUser` when the store
/// holds no such user.
pub open spec fn user_name_response(session: Session, store: UserStore) -> Result<Seq<char>, AuthError> {
    if store.has_user(session.bound_user_id()) {
        Ok(store.user_with(session.bound_user_id()).username@)
    } else {
        Err(AuthError::NoCurrentUser)
    }
}

/// Report the name of the user the session resolves to. A session with no
/// resolvable user is a recoverable `NoCurrentUser` failure, never a crash.
pub fn get_user_name(session: &Session, store: &UserStore) -> (r: Result<String, AuthError>)
    requires
        store.wf(),
    ensures
        match r {
            Ok(name) => user_name_response(*session, *store) == Ok::<Seq<char>, AuthError>(name@),
            Err(e) => user_name_response(*session, *store) == Err::<Seq<char>, AuthError>(e),
        },
{
    match store.current_user(session) {
        Some(user) => Ok(user.username.clone()),
        None => Err(AuthError::NoCurrentUser),
    }
}

/// The views of a list of permission strings.
pub open spec fn perm_views(perms: Seq<String>) -> Seq<Seq<char>> {
    perms.map_values(|p: String| p@)
}

/// One permission string rendered between double quotes.
pub open spec fn quoted(p: Seq<char>) -> Seq<char> {
    "\""@ + p + "\""@
}

/// The permissions rendered as a comma-separated list of quoted strings.
pub open spec fn quoted_join(perms: Seq<Seq<char>>) -> Seq<char>
    decreases perms.len(),
{
    if perms.len() == 0 {
        Seq::empty()
    } else if perms.len() == 1 {
        quoted(perms[0])
    } else {
        quoted_join(perms.drop_last()) + ", "@ + quoted(perms.last())
    }
}

/// The permissions rendered as a bracketed, comma-separated list of quoted
/// strings.
pub open spec fn permission_list_display(perms: Seq<Seq<char>>) -> Seq<char> {
    "["@ + quoted_join(perms) + "]"@
}

/// The response when the user lacks the needed permissions, naming the user.
pub open spec fn denial_message(username: Seq<char>) -> Seq<char> {
    "User "@ + username + ", Does not have permissions needed to view this page please login"@
}

/// The response when the user has the needed permissions, listing the user's
/// permissions.
pub open spec fn success_message(perms: Seq<Seq<char>>) -> Seq<char> {
    "User has Permissions needed. Here are the Users permissions: "@ + permission_list_display(
        perms,
    )
}

/// Render the user's permissions as a bracketed, comma-separated list of
/// quoted strings.
pub fn format_permission_list(perms: &Vec<String>) -> (r: String)
    ensures
        r@ == permission_list_display(perm_views(perms@)),
{
    let ghost views = perm_views(perms@);
    let mut out = String::new();
    out.append("[");
    let n = perms.len();
    let mut i: usize = 0;
    while i < n
        invariant
            n == perms@.len(),
            views == perm_views(perms@),
            i <= n,
            out@ == "["@ + quoted_join(views.take(i as int)),
        decreases n - i,
    {
        if i > 0 {
            out.append(", ");
        }
        out.append("\"");
        out.append(perms[i].as_str());
        out.append("\"");
        proof {
            let prefix = views.take(i as int);
            let next = views.take(i as int + 1);
            assert(next.last() == views[i as int]);
            assert(next.drop_last() =~= prefix);
            if i == 0 {
                assert(quoted_join(next) == quoted(views[0]));
            }
        }
        i = i + 1;
    }
    proof {
        assert(views.take(n as int) =~= views);
    }
    out.append("]");
    out
}

/// The policy that gates the permission report: the user must hold at least
/// one of `Category::View` and `Admin::View`, checked for `Post` requests
/// only; any other method is allowed through, a deliberately narrow
/// demonstration default carried by the policy's configuration knob.
pub open spec fn permissions_decision(user: User, method: Method) -> bool {
    if method == Method::Post {
        user.holds("Category::View"@) || user.holds("Admin::View"@)
    } else {
        true
    }
}

/// Report the permissions of the user the session resolved to, gated by the
/// authorization evaluator: a denial message naming the user when the policy
/// denies, the user's permission list when it allows.
pub fn get_permissions(user: &User, method: Method) -> (r: String)
    ensures
        permissions_decision(*user, method) ==> r@ == success_message(perm_views(user.permissions@)),
        !permissions_decision(*user, method) ==> r@ == denial_message(user.username@),
{
    let mut any_of: Vec<String> = Vec::new();
    any_of.push("Category::View".to_owned());
    any_of.push("Admin::View".to_owned());
    let mut applicable_methods: Vec<Method> = Vec::new();
    applicable_methods.push(Method::Post);
    let policy = Policy {
        requirement: Requirement { any_of },
        applicable_methods,
        allow_unlisted_methods: true,
    };
    proof {
        assert(policy.applies_to(method) <==> method == Method::Post) by {
            if method == Method::Post {
                assert(policy.applicable_methods@[0] == method);
            }
        }
        assert(policy.requirement.satisfied_by(user) <==> (user.holds("Category::View"@)
            || user.holds("Admin::View"@))) by {
            if user.holds("Category::View"@) {
                assert(policy.requirement.any_of@[0]@ == "Category::View"@);
            }
            if user.holds("Admin::View"@) {
                assert(policy.requirement.any_of@[1]@ == "Admin::View"@);
            }
        }
    }
    if !crate::auth::authorize(user, &policy, method) {
        let mut denied = String::new();
        denied.append("User ");
        denied.append(user.username.as_str());
        denied.append(", Does not have permissions needed to view this page please login");
        return denied;
    }
    let mut granted = String::new();
    granted.append("User has Permissions needed. Here are the Users permissions: ");
    let list = format_permission_list(&user.permissions);
    granted.append(list.as_str());
    granted
}

/// Report the permissions for a whole request: resolve the identity the
/// session is bound to, falling back to the anonymous default user when the
/// store cannot resolve it, then answer as `get_permissions` does for the
/// resolved user.
pub fn get_permissions_response(session: &Session, store: &UserStore, method: Method) -> (r:
    String)
    requires
        store.wf(),
    ensures
        store.has_user(session.bound_user_id()) ==> {
            let user = store.user_with(session.bound_user_id());
            &&& permissions_decision(user, method) ==> r@ == success_message(
                perm_views(user.permissions@),
            )
            &&& !permissions_decision(user, method) ==> r@ == denial_message(user.username@)
        },
        !store.has_user(session.bound_user_id()) ==> if method == Method::Post {
            r@ == denial_message("Guest"@)
        } else {
            r@ == success_message(Seq::<Seq<char>>::empty())
        },
{
    match store.current_user(session) {
        Some(user) => get_permissions(user, method),
        None => {
            let fallback = User::default();
            proof {
                assert(forall|p: Seq<char>| !fallback.holds(p));
                assert(perm_views(fallback.permissions@) =~= Seq::<Seq<char>>::empty());
            }
            get_permissions(&fallback, method)
        },
    }
}

/// After a login bound the session to the demo user id, reporting the user
/// name within the same session answers exactly the username the store binds
/// to that id.
pub proof fn lemma_login_then_user_name(session: Session, store: UserStore)
    requires
        store.wf(),
        session.state == SessionState::Authenticated(DEMO_USER_ID),
        store.has_user(DEMO_USER_ID),
    ensures
        user_name_response(session, store) == Ok::<Seq<char>, AuthError>(
            store.user_with(DEMO_USER_ID).username@,
        ),
{
}

} // verus!
