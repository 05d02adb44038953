use rspotify::{bearer_auth, check_reply, decode_body, read_body, ClientError, HeaderStep, Headers, Response, Spotify, Token};

fn client() -> Spotify {
    Spotify::new(
        "https://api.spotify.com/v1/".to_string(),
        "id".to_string(),
        "secret".to_string(),
    )
}

fn response(status: u16, text: &str) -> Response {
    Response { status, status_text: text.to_string() }
}

#[test]
fn explicit_headers_are_sent_verbatim() {
    let mut spotify = client();
    spotify.store_token(Token::issued("tok".to_string(), 100, 3600));
    let headers: Headers = vec![("X-Test".to_string(), "1".to_string())];
    match spotify.request_headers(Some(&headers), 200) {
        HeaderStep::Ready(h) => assert_eq!(h, headers),
        HeaderStep::NeedsToken => panic!("explicit headers need no token"),
    }
    // Without a token at all, explicit headers still go out unchanged.
    match client().request_headers(Some(&headers), 200) {
        HeaderStep::Ready(h) => assert_eq!(h, vec![("X-Test".to_string(), "1".to_string())]),
        HeaderStep::NeedsToken => panic!("explicit headers need no token"),
    }
}

#[test]
fn default_headers_hold_one_bearer_header() {
    let mut spotify = client();
    spotify.store_token(Token::issued("abc".to_string(), 1000, 3600));
    match spotify.request_headers(None, 1000) {
        HeaderStep::Ready(h) => {
            assert_eq!(h, vec![("Authorization".to_string(), "Bearer abc".to_string())]);
            assert_eq!(h.iter().filter(|(k, _)| k == "Authorization").count(), 1);
        }
        HeaderStep::NeedsToken => panic!("a valid token is cached"),
    }
}

#[test]
fn missing_or_expired_token_asks_for_refresh() {
    let mut spotify = client();
    assert!(matches!(spotify.request_headers(None, 0), HeaderStep::NeedsToken));
    spotify.store_token(Token::issued("old".to_string(), 0, 10));
    assert!(spotify.has_valid_token(9));
    assert!(!spotify.has_valid_token(10));
    assert!(matches!(spotify.request_headers(None, 10), HeaderStep::NeedsToken));
    spotify.store_token(Token::issued("new".to_string(), 10, 10));
    match spotify.request_headers(None, 15) {
        HeaderStep::Ready(h) => assert_eq!(h[0].1, "Bearer new"),
        HeaderStep::NeedsToken => panic!("the new token is valid"),
    }
}

#[test]
fn token_expiry_saturates() {
    let t = Token::issued("t".to_string(), u64::MAX - 5, 10);
    assert_eq!(t.expires_at, u64::MAX);
    let t = Token::issued("t".to_string(), 100, 20);
    assert_eq!(t.expires_at, 120);
    assert!(!t.is_expired(119));
    assert!(t.is_expired(120));
}

#[test]
fn bearer_header_value() {
    let (k, v) = bearer_auth(&Token::issued("xyz".to_string(), 0, 1));
    assert_eq!(k, "Authorization");
    assert_eq!(v, "Bearer xyz");
}

#[test]
fn success_statuses_read_the_body() {
    assert_eq!(check_reply(Ok(response(200, "OK"))), Ok(()));
    assert_eq!(check_reply(Ok(response(204, "No Content"))), Ok(()));
    assert_eq!(check_reply(Ok(response(299, "?"))), Ok(()));
    assert_eq!(read_body(Ok("{\"a\":1}".to_string())), Ok("{\"a\":1}".to_string()));
}

#[test]
fn error_statuses_map_to_status_code() {
    assert_eq!(
        check_reply(Ok(response(400, "Bad Request"))),
        Err(ClientError::StatusCode(400, "Bad Request".to_string()))
    );
    assert_eq!(
        check_reply(Ok(response(199, "Early"))),
        Err(ClientError::StatusCode(199, "Early".to_string()))
    );
    assert_eq!(
        check_reply(Ok(response(300, "Multiple Choices"))),
        Err(ClientError::StatusCode(300, "Multiple Choices".to_string()))
    );
    assert_eq!(
        ClientError::from_response(response(404, "Not Found")),
        ClientError::StatusCode(404, "Not Found".to_string())
    );
}

#[test]
fn transport_failures_are_not_status_codes() {
    assert_eq!(
        check_reply(Err("connection refused".to_string())),
        Err(ClientError::Transport("connection refused".to_string()))
    );
    assert_eq!(
        read_body(Err("reset".to_string())),
        Err(ClientError::Transport("reset".to_string()))
    );
}

#[test]
fn response_ok_range() {
    assert!(response(200, "OK").ok());
    assert!(response(299, "").ok());
    assert!(!response(300, "").ok());
    assert!(!response(500, "").ok());
}

#[test]
fn endpoint_and_credentials() {
    let spotify = client();
    assert_eq!(spotify.endpoint_url("tracks/1"), "https://api.spotify.com/v1/tracks/1");
    assert_eq!(spotify.client_id(), "id");
    assert_eq!(spotify.client_secret(), "secret");
    assert_eq!(
        spotify.token_request_form(),
        vec![("grant_type".to_string(), "client_credentials".to_string())]
    );
}

#[test]
fn json_bodies_decode() {
    let v = decode_body("{\"name\": \"Birdy\", \"popularity\": 71}").unwrap();
    assert_eq!(v["name"], serde_json::Value::String("Birdy".to_string()));
    assert_eq!(v["popularity"].as_u64(), Some(71));
    assert!(decode_body("[]\n").is_ok());
}

#[test]
fn undecodable_bodies_are_serialization_errors() {
    for text in ["", "not json", "{\"a\": 1} trailing", "{\"a\":"] {
        match decode_body(text) {
            Err(ClientError::Serialization(msg)) => assert!(!msg.is_empty()),
            other => panic!("{:?} gave {:?}", text, other),
        }
    }
}
