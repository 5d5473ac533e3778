use session_auth::auth::{authorize, evaluate, Method, Policy, Requirement, User};

fn user(id: i64, name: &str, perms: &[&str]) -> User {
    User {
        id,
        username: name.to_string(),
        permissions: perms.iter().map(|p| p.to_string()).collect(),
    }
}

fn any_of(perms: &[&str]) -> Requirement {
    Requirement { any_of: perms.iter().map(|p| p.to_string()).collect() }
}

#[test]
fn satisfied_iff_intersection_nonempty() {
    let req = any_of(&["Category::View", "Admin::View"]);
    // Holds one of the two required permissions.
    assert!(evaluate(&user(2, "Test", &["Category::View"]), &req));
    assert!(evaluate(&user(2, "Test", &["Other", "Admin::View"]), &req));
    // Holds both.
    assert!(evaluate(&user(2, "Test", &["Admin::View", "Category::View"]), &req));
    // Holds permissions, but none of the required ones.
    assert!(!evaluate(&user(2, "Test", &["Other::View"]), &req));
}

#[test]
fn anonymous_user_is_denied() {
    let anon = user(1, "Guest", &[]);
    let req = any_of(&["Category::View", "Admin::View"]);
    assert!(!evaluate(&anon, &req));
}

#[test]
fn permission_match_is_case_sensitive_and_exact() {
    let req = any_of(&["Category::View"]);
    assert!(!evaluate(&user(3, "lower", &["category::view"]), &req));
    assert!(!evaluate(&user(3, "prefix", &["Category::Vie"]), &req));
    assert!(!evaluate(&user(3, "longer", &["Category::Views"]), &req));
    assert!(evaluate(&user(3, "exact", &["Category::View"]), &req));
}

#[test]
fn evaluate_is_pure() {
    let u = user(2, "Test", &["Category::View"]);
    let req = any_of(&["Category::View", "Admin::View"]);
    let first = evaluate(&u, &req);
    let second = evaluate(&u, &req);
    assert_eq!(first, second);
    // Neither input is observably changed.
    assert_eq!(u.id, 2);
    assert_eq!(u.username, "Test");
    assert_eq!(u.permissions, vec!["Category::View".to_string()]);
    assert_eq!(req.any_of, vec!["Category::View".to_string(), "Admin::View".to_string()]);
}

#[test]
fn empty_requirement_is_never_satisfied() {
    let req = any_of(&[]);
    assert!(!evaluate(&user(2, "Test", &["Category::View"]), &req));
    assert!(!evaluate(&user(1, "Guest", &[]), &req));
}

#[test]
fn policy_applies_only_to_listed_methods() {
    let policy = Policy {
        requirement: any_of(&["Category::View"]),
        applicable_methods: vec![Method::Post],
        allow_unlisted_methods: true,
    };
    let anon = user(1, "Guest", &[]);
    // Listed method: the requirement decides.
    assert!(!authorize(&anon, &policy, Method::Post));
    // Unlisted method: the configured default decides.
    assert!(authorize(&anon, &policy, Method::Get));
}

#[test]
fn unlisted_method_default_is_a_knob() {
    let strict = Policy {
        requirement: any_of(&["Category::View"]),
        applicable_methods: vec![Method::Post],
        allow_unlisted_methods: false,
    };
    let holder = user(2, "Test", &["Category::View"]);
    assert!(authorize(&holder, &strict, Method::Post));
    assert!(!authorize(&holder, &strict, Method::Get));
}
