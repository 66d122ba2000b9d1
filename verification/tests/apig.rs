use rusticity::apig::api::{Column, RestApi};
use rusticity::apig::route::Route;
use rusticity::apig::tree::{count_route_rows, route_id_at_row, route_key_at_row, route_parent_row};
use rusticity::apig::{console_url_resources, console_url_routes, format_status, StatusColor};

fn api(protocol: &str, endpoint: &str, disabled: bool) -> RestApi {
    RestApi {
        id: "test".to_string(),
        name: "Test".to_string(),
        description: "".to_string(),
        created_date: "".to_string(),
        api_key_source: "".to_string(),
        endpoint_configuration: endpoint.to_string(),
        protocol_type: protocol.to_string(),
        disable_execute_api_endpoint: disabled,
        status: "".to_string(),
    }
}

fn route(id: &str, key: &str, target: &str) -> Route {
    Route {
        route_id: id.to_string(),
        route_key: key.to_string(),
        target: target.to_string(),
        authorization_type: "NONE".to_string(),
        api_key_required: false,
        display_name: String::new(),
        arn: String::new(),
    }
}

#[test]
fn api_test_column_ids_have_correct_prefix() {
    for col in Column::all() {
        assert!(
            col.id().starts_with("column.apig.api."),
            "Column ID '{}' should start with 'column.apig.api.'",
            col.id()
        );
    }
}

#[test]
fn api_test_all_columns_count() {
    assert_eq!(Column::all().len(), 8);
}

#[test]
fn api_test_column_from_id() {
    assert_eq!(Column::from_id("column.apig.api.name"), Some(Column::Name));
}

#[test]
fn test_protocol_capitalization() {
    let (text, _) = Column::Protocol.render(&api("Http", "", false));
    assert_eq!(text, "HTTP");
}

#[test]
fn test_endpoint_type_formatting() {
    let mut a = api("HTTP", "REGIONAL", false);
    let (text, _) = Column::EndpointType.render(&a);
    assert_eq!(text, "Regional");

    a.endpoint_configuration = "EDGE".to_string();
    let (text, _) = Column::EndpointType.render(&a);
    assert_eq!(text, "Edge-optimized");
}

#[test]
fn test_api_status_available_green() {
    let (text, color) = Column::ApiStatus.render(&api("HTTP", "", false));
    assert_eq!(text, "✅ Available");
    assert_eq!(color, Some(StatusColor::Green));
}

#[test]
fn test_api_status_disabled() {
    let (text, _) = Column::ApiStatus.render(&api("HTTP", "", true));
    assert_eq!(text, "Disabled");
}

#[test]
fn test_security_policy_rest_api() {
    let (text, _) = Column::SecurityPolicy.render(&api("REST", "", false));
    assert_eq!(text, "-");
}

#[test]
fn test_security_policy_http_api() {
    let (text, _) = Column::SecurityPolicy.render(&api("HTTP", "", false));
    assert_eq!(text, "TLS 1.2");
}

#[test]
fn test_route_tree_item_id() {
    let r = route("abc123", "/api/users", "integration1");
    assert_eq!(r.id(), "/api/users");
}

#[test]
fn test_route_tree_item_display_name() {
    let mut r = route("abc123", "/api/users/{id}", "integration1");
    r.display_name = "/api/users/{id}".to_string();
    assert_eq!(r.display_name(), "/api/users/{id}");
}

#[test]
fn test_route_is_expandable() {
    let mut virtual_parent = route("virtual_/v1", "/v1", "");
    virtual_parent.authorization_type = String::new();
    assert!(virtual_parent.is_expandable());
    let real_route = route("1", "/api/users", "int1");
    assert!(!real_route.is_expandable());
}

#[test]
fn test_route_icons() {
    assert_eq!(route("3", "$default", "int3").icon(), "🔌");
    assert_eq!(route("4", "$connect", "int4").icon(), "🔌");
    assert_eq!(route("1", "/api/users", "int1").icon(), "");
}

#[test]
fn format_status_is_case_insensitive() {
    assert_eq!(format_status("available"), ("✅ Available".to_string(), StatusColor::Green));
    assert_eq!(format_status("PENDING"), ("PENDING".to_string(), StatusColor::White));
}

#[test]
fn console_urls_add_the_selected_row() {
    assert_eq!(
        console_url_resources("us-east-1", "a1", Some("r9")),
        "https://us-east-1.console.aws.amazon.com/apigateway/main/apis/a1/resources?api=a1&region=us-east-1#r9"
    );
    assert_eq!(
        console_url_routes("eu-west-1", "a1", None),
        "https://eu-west-1.console.aws.amazon.com/apigateway/main/develop/routes?api=a1&region=eu-west-1"
    );
}

fn sample_tree() -> (Vec<Route>, Vec<(String, Vec<Route>)>) {
    let top = vec![route("v", "/api", ""), route("2", "/health", "int2")];
    let children = vec![
        ("/api".to_string(), vec![route("v2", "/api/users", ""), route("3", "/api/orders", "int3")]),
        ("/api/users".to_string(), vec![route("4", "/api/users/{id}", "int4")]),
    ];
    (top, children)
}

#[test]
fn open_rows_show_the_routes_under_them() {
    let (top, children) = sample_tree();
    let none: Vec<String> = Vec::new();
    assert_eq!(count_route_rows(&none, &children, &top), 2);
    let open = vec!["/api".to_string(), "/api/users".to_string()];
    assert_eq!(count_route_rows(&open, &children, &top), 5);
    let mut row = 0;
    assert_eq!(route_key_at_row(&open, &children, &top, 2, &mut row), Some("/api/users/{id}".to_string()));
    let mut row = 0;
    assert_eq!(route_key_at_row(&open, &children, &top, 9, &mut row), None);
    assert_eq!(row, 5);
}

#[test]
fn parent_row_of_a_nested_route() {
    let (top, children) = sample_tree();
    let open = vec!["/api".to_string(), "/api/users".to_string()];
    assert_eq!(route_parent_row(&open, &children, &top, "/api/users/{id}"), Some(1));
    assert_eq!(route_parent_row(&open, &children, &top, "/api/orders"), Some(0));
    assert_eq!(route_parent_row(&open, &children, &top, "/health"), None);
}

#[test]
fn route_id_of_a_row_with_a_target() {
    let (top, children) = sample_tree();
    let open = vec!["/api".to_string(), "/api/users".to_string()];
    let mut row = 0;
    assert_eq!(route_id_at_row(&open, &children, &top, 3, &mut row), Some("3".to_string()));
    let mut row = 0;
    assert_eq!(route_id_at_row(&open, &children, &top, 4, &mut row), Some("2".to_string()));
    let mut row = 0;
    assert_eq!(route_id_at_row(&open, &children, &top, 1, &mut row), Some("2".to_string()));
}
