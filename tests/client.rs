use snowflake_client::client::{check_success, rows_outcome, token_from, SnowflakeClient};
use snowflake_client::error::ClientError;
use snowflake_client::request::{
    authorization_header, host_for, login_request, login_request_body, query_request_body,
    query_request_with_id, ConnectionParams,
};

fn params<'a>() -> ConnectionParams<'a> {
    ConnectionParams {
        account_name: "acme",
        username: "alice",
        password: "secret",
        warehouse: "WH",
        role: "ANALYST",
        database: "DB",
        schema: "PUBLIC",
    }
}

fn body_json(body: &str) -> serde_json::Value {
    serde_json::from_str(body).expect("body is JSON")
}

#[test]
fn it_works() {}

#[test]
fn login_url_carries_the_four_context_parameters() {
    let req = login_request(&params()).ok().expect("valid URL");
    assert_eq!(
        req.url,
        "https://acme.snowflakecomputing.com/session/v1/login-request?warehouse=WH&roleName=ANALYST&databaseName=DB&schemaName=PUBLIC"
    );
    assert_eq!(req.content_type, "application/json");
    assert_eq!(req.accept, "application/json");
    assert_eq!(req.timeout_secs, Some(120));
    assert!(req.authorization.is_none());
}

#[test]
fn login_url_keeps_empty_values() {
    let p = ConnectionParams { account_name: "acme", ..Default::default() };
    let req = login_request(&p).ok().expect("valid URL");
    assert_eq!(
        req.url,
        "https://acme.snowflakecomputing.com/session/v1/login-request?warehouse=&roleName=&databaseName=&schemaName="
    );
}

#[test]
fn login_url_encodes_values() {
    let p = ConnectionParams { account_name: "acme", warehouse: "a b&c", ..Default::default() };
    let req = login_request(&p).ok().expect("valid URL");
    assert_eq!(
        req.url,
        "https://acme.snowflakecomputing.com/session/v1/login-request?warehouse=a+b%26c&roleName=&databaseName=&schemaName="
    );
}

#[test]
fn login_with_unusable_account_is_invalid_url() {
    let p = ConnectionParams { account_name: "bad host", ..Default::default() };
    assert!(matches!(login_request(&p), Err(ClientError::InvalidUrl)));
}

#[test]
fn login_body_has_fixed_constants_and_caller_values() {
    for p in [params(), ConnectionParams::default()] {
        let v = body_json(&login_request_body(&p));
        let d = &v["data"];
        assert_eq!(d["CLIENT_APP_ID"], "JavaScript");
        assert_eq!(d["CLIENT_APP_VERSION"], "1.5.3");
        assert_eq!(d["SESSION_PARAMETERS"]["VALIDATE_DEFAULT_PARAMETERS"], true);
        assert_eq!(d["SESSION_PARAMETERS"]["QUOTED_IDENTIFIERS_IGNORE_CASE"], true);
        assert_eq!(d["CLIENT_ENVIRONMENT"]["APPLICATION"], "SnowflakeEx");
        assert_eq!(d["CLIENT_ENVIRONMENT"]["OCSP_MODE"], "FAIL_OPEN");
        assert_eq!(d["ACCOUNT_NAME"], p.account_name);
        assert_eq!(d["PASSWORD"], p.password);
        assert_eq!(d["LOGIN_NAME"], p.username);
        assert_eq!(d["CLIENT_ENVIRONMENT"]["account"], p.account_name);
        assert_eq!(d["CLIENT_ENVIRONMENT"]["user"], p.username);
        assert_eq!(d["CLIENT_ENVIRONMENT"]["warehouse"], p.warehouse);
        assert_eq!(d["CLIENT_ENVIRONMENT"]["database"], p.database);
        assert_eq!(d["CLIENT_ENVIRONMENT"]["schema"], p.schema);
    }
}

#[test]
fn login_body_escapes_values() {
    let p = ConnectionParams { password: "p\"w\\d", ..Default::default() };
    let body = login_request_body(&p);
    assert!(body.contains("\"PASSWORD\":\"p\\\"w\\\\d\""));
    assert_eq!(body_json(&body)["data"]["PASSWORD"], "p\"w\\d");
}

#[test]
fn query_body_has_fixed_flags() {
    let v = body_json(&query_request_body("select 1"));
    assert_eq!(v["sqlText"], "select 1");
    assert_eq!(v["sequenceId"], 0);
    assert_eq!(v["asyncExec"], false);
    assert_eq!(v["describeOnly"], false);
    assert_eq!(v["isInternal"], false);
    assert!(v["bindings"].is_null());
    assert!(v["bindStage"].is_null());
    assert!(v["describedJobId"].is_null());
    assert_eq!(v["parameters"]["CLIENT_RESULT_CHUNK_SIZE"], 48);
}

#[test]
fn query_body_exact_text() {
    assert_eq!(
        query_request_body("q"),
        "{\"sqlText\":\"q\",\"sequenceId\":0,\"bindings\":null,\"bindStage\":null,\"describeOnly\":false,\"parameters\":{\"CLIENT_RESULT_CHUNK_SIZE\":48},\"describedJobId\":null,\"isInternal\":false,\"asyncExec\":false}"
    );
}

#[test]
fn host_and_authorization_values() {
    assert_eq!(host_for("acme"), "https://acme.snowflakecomputing.com");
    assert_eq!(authorization_header("T1"), "Snowflake Token=\"T1\"");
}

#[test]
fn query_request_with_given_id() {
    let r = query_request_with_id("https://h", "tok", "select 1", "abc");
    assert_eq!(r.url, "https://h/queries/v1/query-request?requestId=abc");
    assert_eq!(r.accept, "application/snowflake");
    assert_eq!(r.content_type, "application/json");
    assert_eq!(r.authorization.as_deref(), Some("Snowflake Token=\"tok\""));
    assert_eq!(r.timeout_secs, None);
}

fn logged_in() -> SnowflakeClient {
    SnowflakeClient::from_login_reply(&params(), r#"{"success":true,"data":{"token":"T1"}}"#)
        .ok()
        .expect("login reply accepted")
}

#[test]
fn login_reply_token_goes_into_query_authorization() {
    let client = logged_in();
    assert_eq!(client.token(), "T1");
    assert_eq!(client.host(), "https://acme.snowflakecomputing.com");
    let req = client.query_request("select 1");
    assert_eq!(req.authorization.as_deref(), Some("Snowflake Token=\"T1\""));
    assert_eq!(req.accept, "application/snowflake");
}

#[test]
fn each_query_gets_a_distinct_request_id() {
    let client = logged_in();
    let a = client.query_request("select 1");
    let b = client.query_request("select 1");
    let prefix = "https://acme.snowflakecomputing.com/queries/v1/query-request?requestId=";
    assert!(a.url.starts_with(prefix));
    assert!(b.url.starts_with(prefix));
    assert_ne!(a.url, b.url);
    assert_eq!(a.body, b.body);
}

#[test]
fn query_reply_rows_in_order() {
    let reply = r#"{"success":true,"data":{"rowset":[[1,"a"],[2,"b"]]}}"#;
    let rows = SnowflakeClient::rows_from_reply::<(i64, String)>(reply).ok().expect("rows");
    assert_eq!(rows, vec![(1, "a".to_string()), (2, "b".to_string())]);
}

#[test]
fn query_reply_empty_rowset() {
    let reply = r#"{"success":true,"data":{"rowset":[]}}"#;
    let rows = SnowflakeClient::rows_from_reply::<(i64, String)>(reply).ok().expect("rows");
    assert!(rows.is_empty());
}

#[test]
fn query_reply_with_wrong_row_shape_is_deserialization_error() {
    let reply = r#"{"success":true,"data":{"rowset":[[1,"a"],[2,"b"]]}}"#;
    let r = SnowflakeClient::rows_from_reply::<(i64, String, i64)>(reply);
    assert!(matches!(r, Err(ClientError::Deserialization)));
}

#[test]
fn query_reply_without_rowset_is_protocol_error() {
    let r = SnowflakeClient::rows_from_reply::<(i64,)>(r#"{"success":true,"data":{}}"#);
    assert!(matches!(r, Err(ClientError::Protocol)));
}

#[test]
fn failed_login_is_application_error() {
    let reply = r#"{"success":false,"code":"390100","message":"Incorrect username or password","data":null}"#;
    match SnowflakeClient::from_login_reply(&params(), reply) {
        Err(ClientError::Application { code, message }) => {
            assert_eq!(code.as_deref(), Some("390100"));
            assert_eq!(message.as_deref(), Some("Incorrect username or password"));
        }
        _ => panic!("expected an application error"),
    }
}

#[test]
fn failed_query_is_application_error() {
    let reply = r#"{"success":false,"data":null}"#;
    match SnowflakeClient::rows_from_reply::<(i64,)>(reply) {
        Err(ClientError::Application { code, message }) => {
            assert!(code.is_none());
            assert!(message.is_none());
        }
        _ => panic!("expected an application error"),
    }
}

#[test]
fn non_json_reply_is_protocol_error() {
    assert!(matches!(
        SnowflakeClient::from_login_reply(&params(), "<html>"),
        Err(ClientError::Protocol)
    ));
    assert!(matches!(
        SnowflakeClient::rows_from_reply::<(i64,)>("not json"),
        Err(ClientError::Protocol)
    ));
}

#[test]
fn login_reply_without_token_is_protocol_error() {
    let r = SnowflakeClient::from_login_reply(&params(), r#"{"success":true,"data":{}}"#);
    assert!(matches!(r, Err(ClientError::Protocol)));
    let r = SnowflakeClient::from_login_reply(&params(), r#"{"data":{"token":"T"}}"#);
    assert!(matches!(r, Err(ClientError::Protocol)));
}

#[test]
fn success_flag_decisions() {
    assert!(check_success(Some(true), None, None).is_ok());
    assert!(matches!(check_success(None, Some("1"), None), Err(ClientError::Protocol)));
    match check_success(Some(false), Some("7"), Some("no")) {
        Err(ClientError::Application { code, message }) => {
            assert_eq!(code.as_deref(), Some("7"));
            assert_eq!(message.as_deref(), Some("no"));
        }
        _ => panic!("expected an application error"),
    }
}

#[test]
fn token_decisions() {
    assert_eq!(token_from(Some("abc")).ok().as_deref(), Some("abc"));
    assert!(matches!(token_from(None), Err(ClientError::Protocol)));
}

#[test]
fn login_field_decisions() {
    let c = SnowflakeClient::from_login_fields(&params(), Some(true), None, None, Some("T9"))
        .ok()
        .expect("client");
    assert_eq!(c.token(), "T9");
    assert_eq!(c.host(), "https://acme.snowflakecomputing.com");
    assert!(matches!(
        SnowflakeClient::from_login_fields(&params(), Some(true), None, None, None),
        Err(ClientError::Protocol)
    ));
    assert!(matches!(
        SnowflakeClient::from_login_fields(&params(), None, None, None, Some("T9")),
        Err(ClientError::Protocol)
    ));
    match SnowflakeClient::from_login_fields(&params(), Some(false), Some("1"), None, Some("T9")) {
        Err(ClientError::Application { code, message }) => {
            assert_eq!(code.as_deref(), Some("1"));
            assert!(message.is_none());
        }
        _ => panic!("expected an application error"),
    }
}

#[test]
fn request_id_is_hyphenated_uuid_text() {
    let req = logged_in().query_request("select 1");
    let id = req.url.rsplit('=').next().expect("id");
    assert_eq!(id.len(), 36);
    for (i, c) in id.chars().enumerate() {
        if i == 8 || i == 13 || i == 18 || i == 23 {
            assert_eq!(c, '-');
        } else {
            assert!(c.is_ascii_digit() || ('a'..='f').contains(&c));
        }
    }
}

#[test]
fn query_reply_rowset_not_an_array_is_deserialization_error() {
    let reply = r#"{"success":true,"data":{"rowset":{"a":1}}}"#;
    let r = SnowflakeClient::rows_from_reply::<(i64,)>(reply);
    assert!(matches!(r, Err(ClientError::Deserialization)));
}

#[test]
fn query_reply_success_not_boolean_is_protocol_error() {
    let reply = r#"{"success":"yes","data":{"rowset":[]}}"#;
    let r = SnowflakeClient::rows_from_reply::<(i64,)>(reply);
    assert!(matches!(r, Err(ClientError::Protocol)));
}

#[test]
fn query_body_escapes_control_characters() {
    let body = query_request_body("a\tb\u{1}");
    assert!(body.starts_with("{\"sqlText\":\"a\\tb\\u0001\","));
    assert_eq!(body_json(&body)["sqlText"], "a\tb\u{1}");
}

#[test]
fn row_outcome_decisions() {
    let rows = vec![(1i64, "a".to_string())];
    match rows_outcome(Some(true), None, None, true, Some(rows.clone())) {
        Ok(out) => assert_eq!(out, rows),
        Err(_) => panic!("expected rows"),
    }
    assert!(matches!(
        rows_outcome::<(i64,)>(Some(true), None, None, true, None),
        Err(ClientError::Deserialization)
    ));
    assert!(matches!(
        rows_outcome::<(i64,)>(Some(true), None, None, false, None),
        Err(ClientError::Protocol)
    ));
    assert!(matches!(
        rows_outcome::<(i64,)>(None, None, None, true, Some(vec![(1,)])),
        Err(ClientError::Protocol)
    ));
    match rows_outcome::<(i64,)>(Some(false), None, Some("bad"), true, None) {
        Err(ClientError::Application { code, message }) => {
            assert!(code.is_none());
            assert_eq!(message.as_deref(), Some("bad"));
        }
        _ => panic!("expected an application error"),
    }
}
