use proximity_service::api::health_check::{get_health_check, router};
use proximity_service::api::{Body, Handler, Method, Plan};

#[test]
fn test_health_check() {
    let response = match get_health_check() {
        Plan::Reply(response) => response,
        Plan::Query(command) => panic!("the probe reached for the database: {:?}", command),
    };

    assert!((200..300).contains(&response.status));

    assert_eq!(response.body, Body::Empty);
}

#[test]
fn health_check_answers_200_every_time() {
    for _ in 0..3 {
        match get_health_check() {
            Plan::Reply(response) => assert_eq!(response.status, 200),
            Plan::Query(_) => panic!("the probe reached for the database"),
        }
    }
}

#[test]
fn health_check_has_one_route() {
    let table = router();
    assert_eq!(table.len(), 1);
    assert_eq!(table[0].method, Method::Get);
    assert_eq!(table[0].path, "/health_check");
    assert_eq!(table[0].handler, Handler::HealthCheck);
}
