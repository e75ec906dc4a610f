use fks_execution::routes::{endpoints, Endpoint, Method, HEALTH_PATH, SIGNAL_PATH};

#[test]
fn paths_have_their_documented_values() {
    assert_eq!(HEALTH_PATH, "/health");
    assert_eq!(SIGNAL_PATH, "/execute/signal");
}

#[test]
fn health_is_a_get_route() {
    assert_eq!(Endpoint::Health.method(), Method::Get);
    assert_eq!(Endpoint::Health.path(), "/health");
}

#[test]
fn signal_is_reached_by_get_and_by_post() {
    assert_eq!(Endpoint::SignalGet.method(), Method::Get);
    assert_eq!(Endpoint::SignalGet.path(), "/execute/signal");
    assert_eq!(Endpoint::SignalPost.method(), Method::Post);
    assert_eq!(Endpoint::SignalPost.path(), "/execute/signal");
}

#[test]
fn there_are_three_routes() {
    assert_eq!(endpoints(), vec![Endpoint::Health, Endpoint::SignalGet, Endpoint::SignalPost]);
}

#[test]
fn no_two_routes_share_method_and_path() {
    let all = endpoints();
    for a in &all {
        for b in &all {
            if a.method() == b.method() && a.path() == b.path() {
                assert_eq!(a, b);
            }
        }
    }
}
