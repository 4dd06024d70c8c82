use arp_foo_bar::registry::{
    listing, route_row, route_rows, route_table, Method, ResponseKind, RouteDescriptor,
};
use arp_foo_bar::routes;

fn text_of(bytes: &[u8]) -> String {
    String::from_utf8(bytes.to_vec()).unwrap()
}

fn expected_table() -> Vec<(&'static str, &'static str, &'static str, &'static str)> {
    vec![
        ("/test-get", "test_get", "get", "html"),
        ("/test-post", "test_post", "post", "html"),
        ("/test-json", "test_json", "post", "json"),
        ("/about", "about", "get", "text"),
    ]
}

#[test]
fn routes_deserialize_to_the_declared_table() {
    let reply = routes();
    let listed: serde_json::Value = serde_json::from_slice(reply.as_bytes()).unwrap();
    let listed = listed.as_array().unwrap();
    let expected = expected_table();
    assert_eq!(listed.len(), expected.len());
    for (object, (path, function, method, kind)) in listed.iter().zip(expected) {
        let object = object.as_object().unwrap();
        let names: Vec<&str> = object.keys().map(|name| name.as_str()).collect();
        assert_eq!(names, vec!["path", "function", "method_router", "response_type"]);
        assert_eq!(object["path"].as_str(), Some(path));
        assert_eq!(object["function"].as_str(), Some(function));
        assert_eq!(object["method_router"].as_str(), Some(method));
        assert_eq!(object["response_type"].as_str(), Some(kind));
    }
}

#[test]
fn routes_are_pretty_printed_in_table_order() {
    let expected = "[\n  {\n    \"path\": \"/test-get\",\n    \"function\": \"test_get\",\n    \"method_router\": \"get\",\n    \"response_type\": \"html\"\n  },\n  {\n    \"path\": \"/test-post\",\n    \"function\": \"test_post\",\n    \"method_router\": \"post\",\n    \"response_type\": \"html\"\n  },\n  {\n    \"path\": \"/test-json\",\n    \"function\": \"test_json\",\n    \"method_router\": \"post\",\n    \"response_type\": \"json\"\n  },\n  {\n    \"path\": \"/about\",\n    \"function\": \"about\",\n    \"method_router\": \"get\",\n    \"response_type\": \"text\"\n  }\n]";
    assert_eq!(text_of(routes().as_bytes()), expected);
}

#[test]
fn routes_give_the_same_listing_every_time() {
    assert_eq!(routes().as_bytes(), routes().as_bytes());
}

#[test]
fn route_table_holds_the_four_routes_in_order() {
    let table = route_table();
    let found: Vec<(&str, &str, &str, &str)> = table
        .iter()
        .map(|route| (route.path, route.function, route.method.as_str(), route.response.as_str()))
        .collect();
    assert_eq!(found, expected_table());
    assert_eq!(table[0].method, Method::Get);
    assert_eq!(table[1].method, Method::Post);
    assert_eq!(table[2].response, ResponseKind::Json);
    assert_eq!(table[3].response, ResponseKind::Text);
}

#[test]
fn route_table_has_no_path_twice() {
    let table = route_table();
    for i in 0..table.len() {
        for j in (i + 1)..table.len() {
            assert_ne!(table[i].path, table[j].path);
        }
    }
}

#[test]
fn route_row_names_the_members_in_order() {
    let route = RouteDescriptor {
        path: "/x",
        function: "serve_x",
        method: Method::Post,
        response: ResponseKind::Text,
    };
    let row = route_row(&route);
    let expected: Vec<(String, String)> = vec![
        ("path".to_string(), "/x".to_string()),
        ("function".to_string(), "serve_x".to_string()),
        ("method_router".to_string(), "post".to_string()),
        ("response_type".to_string(), "text".to_string()),
    ];
    assert_eq!(row, expected);
}

#[test]
fn route_rows_follow_the_table() {
    let table = route_table();
    let rows = route_rows(&table);
    assert_eq!(rows.len(), 4);
    for (row, route) in rows.iter().zip(table.iter()) {
        assert_eq!(row, &route_row(route));
    }
    assert!(route_rows(&Vec::new()).is_empty());
}

#[test]
fn method_and_kind_names() {
    assert_eq!(Method::Get.as_str(), "get");
    assert_eq!(Method::Post.as_str(), "post");
    assert_eq!(ResponseKind::Html.as_str(), "html");
    assert_eq!(ResponseKind::Json.as_str(), "json");
    assert_eq!(ResponseKind::Text.as_str(), "text");
}

#[test]
fn listing_hands_over_what_was_written() {
    let reply = listing(Some("[1, 2]".to_string()));
    assert_eq!(reply.as_bytes(), b"[1, 2]");
}

#[test]
fn listing_falls_back_to_the_empty_array() {
    assert_eq!(listing(None).as_bytes(), b"[]");
}

#[test]
fn listing_that_cannot_be_carried_falls_back_to_the_empty_array() {
    assert_eq!(listing(Some("[\"a\0b\"]".to_string())).as_bytes(), b"[]");
}
