use api::errors::{AuthError, RouteError, S3Errors, StartError};

fn answer(e: RouteError) -> (u16, u16, String) {
    let (status, body) = e.into_response();
    (status, body.code, body.message)
}

#[test]
fn rejections_are_bad_requests_with_client_codes() {
    assert_eq!(
        answer(RouteError::JsonRejection("Failed to parse the request body as JSON".into())),
        (400, 4001, "Failed to parse the request body as JSON".to_string())
    );
    assert_eq!(
        answer(RouteError::BytesRejection("Failed to buffer the request body".into())),
        (400, 4002, "Failed to buffer the request body".to_string())
    );
    assert_eq!(
        answer(RouteError::Rejection("empty archive".into())),
        (400, 4003, "Invalid request. Reason: empty archive".to_string())
    );
}

#[test]
fn not_found_is_404() {
    assert_eq!(
        answer(RouteError::NotFound("node with specified id".into())),
        (404, 4004, "Failed to find node with specified id".to_string())
    );
}

#[test]
fn invalid_request_is_400_with_client_code() {
    assert_eq!(
        answer(RouteError::InvalidRequest("bad".into())),
        (400, 4041, "Invalid request. Reason: bad".to_string())
    );
}

#[test]
fn unexpected_is_500_and_logged() {
    let e = RouteError::Unexpected("corrupted data".into());
    assert!(e.is_logged());
    assert_eq!(answer(e), (500, 5051, "Unexpected server error. Reason: corrupted data".to_string()));
    assert!(!RouteError::NotFound("x".into()).is_logged());
}

#[test]
fn other_errors_are_500_with_code_5050() {
    let cases = vec![
        (RouteError::MissingHeader("Content-Type".into()), "Missing `Content-Type` header"),
        (RouteError::Middleware("m".into()), "Error in request pipeline: m"),
        (RouteError::Db("d".into()), "Failed to run query. Reason: d"),
        (RouteError::S3("s".into()), " s"),
        (RouteError::Redis("r".into()), "Failed connection to cache. Reason: r"),
        (RouteError::Reqwest("q".into()), "Failed communication with node. Reason: q"),
        (
            RouteError::Io { err: "e".into(), desc: "d".into() },
            "Failed IO. Description: d. Err: e",
        ),
        (RouteError::Any("a".into()), "a"),
    ];
    for (e, message) in cases {
        assert_eq!(answer(e), (500, 5050, message.to_string()));
    }
}

#[test]
fn auth_errors_are_unauthorized() {
    let (status, body) = AuthError::Extraction("Header of type `authorization` was missing".into()).into_response();
    assert_eq!(status, 401);
    assert_eq!(body.code, 4401);
    assert_eq!(body.message, "Failed to read token from header. Reason: Header of type `authorization` was missing");
    let (status, body) = AuthError::InvalidToken("InvalidSignature".into()).into_response();
    assert_eq!(status, 401);
    assert_eq!(body.code, 4402);
    assert_eq!(body.message, "Invalid token. Reason: InvalidSignature");
}

#[test]
fn start_error_messages() {
    assert_eq!(
        StartError::S3(S3Errors::Credentials("no key".into())).message(),
        "Failed to setup S3. Reason: Failed to load credentials. Reason: no key"
    );
    assert_eq!(StartError::S3(S3Errors::RegionParse("x".into())).message(), "Failed to setup S3. Reason: Failed to parse region");
    assert_eq!(StartError::Io("refused".into()).message(), "Failed to start server. Reason: refused");
    assert_eq!(StartError::Sqlx("x".into()).message(), "Failed connect to DB. Reason: x");
    assert_eq!(StartError::Redis("x".into()).message(), "Failed to connect to Redis. Reason: x");
    assert_eq!(StartError::DecodeKey("x".into()).message(), "Can't decode base64. Reason: x");
    assert_eq!(StartError::InvalidKey("x".into()).message(), "invalid key. Reason: x");
    assert_eq!(
        S3Errors::Region("none".into()).message(),
        "Failed to load aws region from env. Set `AWS_REGION` or `AWS_ENDPOINT` to proper values. Reason: none"
    );
    assert_eq!(S3Errors::S3("inner".into()).message(), "inner");
}
