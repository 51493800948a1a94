use job_lifecycle::router::naive::handle_request;
use job_lifecycle::router::Method;
use job_lifecycle::router::Request;
use job_lifecycle::router::Status;

#[test]
fn test_get_hello() {
    let req = Request {
        method: Method::Get,
        path: "/hello".to_string(),
        headers: vec![
            ("Host".to_string(), "example.com".to_string()),
            ("Accept".to_string(), "text/plain".to_string()),
        ],
        body: vec![],
    };
    let res = handle_request(req);

    println!("{:?}", res);
}

#[test]
fn test_get_world() {
    let req = Request {
        method: Method::Get,
        path: "/world".to_string(),
        headers: vec![
            ("Host".to_string(), "example.com".to_string()),
            ("Accept".to_string(), "text/plain".to_string()),
        ],
        body: vec![],
    };

    let res = handle_request(req);

    println!("{:?}", res);
}

#[test]
fn test_post_hello() {
    let req = Request {
        method: Method::Post,
        path: "/hello".to_string(),
        headers: vec![
            ("Host".to_string(), "example.com".to_string()),
            ("Accept".to_string(), "text/plain".to_string()),
        ],
        body: br#"{"name":"jswn"}"#.to_vec(),
    };

    let res = handle_request(req);

    println!("{:?}", res);
}

#[test]
fn test_options_hello() {
    let req = Request {
        method: Method::Options,
        path: "/hello".to_string(),
        headers: vec![
            ("Host".to_string(), "example.com".to_string()),
            ("Accept".to_string(), "text/plain".to_string()),
        ],
        body: vec![],
    };

    let res = handle_request(req);

    println!("{:?}", res);
}

fn plain_request(method: Method, path: &str) -> Request {
    Request {
        method,
        path: path.to_string(),
        headers: vec![],
        body: vec![],
    }
}

#[test]
fn get_hello_is_answered_exactly() {
    let res = handle_request(plain_request(Method::Get, "/hello"));
    assert_eq!(res.status, Status::Okay);
    assert_eq!(
        res.headers,
        vec![("Content-Type".to_string(), "text/plain".to_string())]
    );
    assert_eq!(res.body, b"Hello, world!".to_vec());
}

#[test]
fn get_elsewhere_is_not_found() {
    let res = handle_request(plain_request(Method::Get, "/world"));
    assert_eq!(res.status, Status::NotFound);
    assert_eq!(
        res.headers,
        vec![("Content-Type".to_string(), "text/plain".to_string())]
    );
    assert_eq!(res.body, b"Path /world not found".to_vec());
}

#[test]
fn options_hello_names_the_allowed_methods() {
    let res = handle_request(plain_request(Method::Options, "/hello"));
    assert_eq!(res.status, Status::Okay);
    assert_eq!(
        res.headers,
        vec![
            ("Content-Type".to_string(), "text/plain".to_string()),
            ("Allow".to_string(), "GET, OPTIONS".to_string()),
        ]
    );
    assert_eq!(res.body, b"GET, OPTIONS".to_vec());
}

#[test]
fn options_elsewhere_is_not_found() {
    let res = handle_request(plain_request(Method::Options, "/nowhere"));
    assert_eq!(res.status, Status::NotFound);
    assert_eq!(res.body, b"Path /nowhere not found".to_vec());
}

#[test]
fn other_methods_are_bad_requests() {
    let res = handle_request(plain_request(Method::Post, "/hello"));
    assert_eq!(res.status, Status::BadRequest);
    assert_eq!(res.body, b"Unsupported method Post".to_vec());

    let res = handle_request(plain_request(Method::Delete, "/hello"));
    assert_eq!(res.status, Status::BadRequest);
    assert_eq!(res.body, b"Unsupported method Delete".to_vec());
}

#[test]
fn status_codes_match_their_statuses() {
    assert_eq!(Status::Okay.code(), 200);
    assert_eq!(Status::Created.code(), 201);
    assert_eq!(Status::NoContent.code(), 204);
    assert_eq!(Status::MovedPermanently.code(), 301);
    assert_eq!(Status::BadRequest.code(), 400);
    assert_eq!(Status::NotFound.code(), 404);
    assert_eq!(Status::InternalServerError.code(), 500);
}

#[test]
fn status_lines_match_their_statuses() {
    assert_eq!(Status::Okay.describe(), "200 OK");
    assert_eq!(Status::NotFound.describe(), "404 Not Found");
    assert_eq!(Status::InternalServerError.describe(), "500 Internal Server Error");
}

#[test]
fn method_names_match_their_methods() {
    assert_eq!(Method::Get.name(), "Get");
    assert_eq!(Method::Post.name(), "Post");
    assert_eq!(Method::Options.name(), "Options");
}
