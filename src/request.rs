//! The login and query requests: their URLs, headers and JSON bodies.
use crate::error::ClientError;
use crate::json::{json_string, quote};
use vstd::prelude::*;

verus! {

#[verifier::external_type_specification]
#[verifier::external_body]
pub struct ExUrlParseError(url::ParseError);

/// What a caller supplies to log in. No field is checked: each is sent as given.
#[derive(Default)]
pub struct ConnectionParams<'params> {
    pub account_name: &'params str,
    pub username: &'params str,
    pub password: &'params str,
    pub warehouse: &'params str,
    pub role: &'params str,
    pub database: &'params str,
    pub schema: &'params str,
}

/// An HTTP POST, ready to be sent: target, headers and body.
pub struct HttpRequest {
    pub url: String,
    pub content_type: String,
    pub accept: String,
    /// The `Authorization` header, where the request carries one.
    pub authorization: Option<String>,
    pub body: String,
    /// How long the whole request may take, where it is bounded.
    pub timeout_secs: Option<u64>,
}

/// The serialized URL that `url::Url::parse_with_params` makes of `base` and
/// the query `pairs`, or `None` where `base` does not parse.
pub uninterp spec fn url_with_query(base: Seq<char>, pairs: Seq<(Seq<char>, Seq<char>)>) -> Option<
    Seq<char>,
>;

/// Relies on url::Url::parse_with_params: parses `base`, appends each pair,
/// form-encoded, to its query, and serializes the result.
#[verifier::external_body]
fn url_with_params(base: &str, pairs: &Vec<(&str, &str)>) -> (r: Result<String, url::ParseError>)
    ensures
        r is Ok <==> url_with_query(base@, pairs.deep_view()) is Some,
        r is Ok ==> r->Ok_0@ == url_with_query(base@, pairs.deep_view())->0,
{
    url::Url::parse_with_params(base, pairs.iter()).map(String::from)
}

pub open spec fn is_lower_hex(c: char) -> bool {
    ('0' as int <= c as int <= '9' as int) || ('a' as int <= c as int <= 'f' as int)
}

/// The hyphenated text of a UUID: 36 characters, hyphens at 8, 13, 18 and 23,
/// lowercase hexadecimal digits elsewhere.
pub open spec fn is_uuid_text(s: Seq<char>) -> bool {
    &&& s.len() == 36
    &&& forall|i: int|
        0 <= i < 36 ==> if i == 8 || i == 13 || i == 18 || i == 23 {
            #[trigger] s[i] == '-'
        } else {
            is_lower_hex(s[i])
        }
}

/// Relies on uuid::Uuid::new_v4 and its `Display`, which writes the
/// hyphenated lowercase form: a fresh random identifier.
#[verifier::external_body]
fn new_request_id() -> (r: String)
    ensures
        is_uuid_text(r@),
{
    uuid::Uuid::new_v4().to_string()
}

pub open spec fn host_of(account: Seq<char>) -> Seq<char> {
    "https://"@ + account + ".snowflakecomputing.com"@
}

pub open spec fn login_endpoint(account: Seq<char>) -> Seq<char> {
    host_of(account) + "/session/v1/login-request"@
}

/// The query pairs of the login URL: the four context names, with the
/// caller's values.
pub open spec fn login_pairs(p: ConnectionParams) -> Seq<(Seq<char>, Seq<char>)> {
    seq![
        ("warehouse"@, p.warehouse@),
        ("roleName"@, p.role@),
        ("databaseName"@, p.database@),
        ("schemaName"@, p.schema@),
    ]
}

/// The fixed client identity and session flags of every login body.
pub open spec fn login_fixed_fields() -> Seq<char> {
    ",\"CLIENT_APP_ID\":\"JavaScript\",\"CLIENT_APP_VERSION\":\"1.5.3\",\"LOGIN_NAME\":"@
}

pub open spec fn login_session_fields() -> Seq<char> {
    ",\"SESSION_PARAMETERS\":{\"VALIDATE_DEFAULT_PARAMETERS\":true,\"QUOTED_IDENTIFIERS_IGNORE_CASE\":true},\"CLIENT_ENVIRONMENT\":{\"APPLICATION\":\"SnowflakeEx\",\"OCSP_MODE\":\"FAIL_OPEN\",\"OS\":\"Linux\",\"tracing\":\"DEBUG\",\"account\":"@
}

pub open spec fn login_body(p: ConnectionParams) -> Seq<char> {
    "{\"data\":{\"ACCOUNT_NAME\":"@ + json_string(p.account_name@) + ",\"PASSWORD\":"@
        + json_string(p.password@) + login_fixed_fields() + json_string(p.username@)
        + login_session_fields() + json_string(p.account_name@) + ",\"user\":"@ + json_string(
        p.username@,
    ) + ",\"warehouse\":"@ + json_string(p.warehouse@) + ",\"database\":"@ + json_string(
        p.database@,
    ) + ",\"schema\":"@ + json_string(p.schema@) + "}}}"@
}

/// The fixed flags of every query body: one statement, run synchronously.
pub open spec fn query_fixed_fields() -> Seq<char> {
    ",\"sequenceId\":0,\"bindings\":null,\"bindStage\":null,\"describeOnly\":false,\"parameters\":{\"CLIENT_RESULT_CHUNK_SIZE\":48},\"describedJobId\":null,\"isInternal\":false,\"asyncExec\":false}"@
}

pub open spec fn query_body(sql: Seq<char>) -> Seq<char> {
    "{\"sqlText\":"@ + json_string(sql) + query_fixed_fields()
}

pub open spec fn query_url(host: Seq<char>, request_id: Seq<char>) -> Seq<char> {
    host + "/queries/v1/query-request?requestId="@ + request_id
}

pub open spec fn authorization_value(token: Seq<char>) -> Seq<char> {
    "Snowflake Token=\""@ + token + "\""@
}

/// The host URL for an account: `https://{account}.snowflakecomputing.com`.
pub fn host_for(account: &str) -> (r: String)
    ensures
        r@ == host_of(account@),
{
    let mut h = String::from_str("https://");
    h.append(account);
    h.append(".snowflakecomputing.com");
    h
}

/// The JSON body of a login request.
pub fn login_request_body(p: &ConnectionParams) -> (r: String)
    ensures
        r@ == login_body(*p),
{
    let mut b = String::from_str("{\"data\":{\"ACCOUNT_NAME\":");
    b.append(quote(p.account_name).as_str());
    b.append(",\"PASSWORD\":");
    b.append(quote(p.password).as_str());
    b.append(",\"CLIENT_APP_ID\":\"JavaScript\",\"CLIENT_APP_VERSION\":\"1.5.3\",\"LOGIN_NAME\":");
    b.append(quote(p.username).as_str());
    b.append(
        ",\"SESSION_PARAMETERS\":{\"VALIDATE_DEFAULT_PARAMETERS\":true,\"QUOTED_IDENTIFIERS_IGNORE_CASE\":true},\"CLIENT_ENVIRONMENT\":{\"APPLICATION\":\"SnowflakeEx\",\"OCSP_MODE\":\"FAIL_OPEN\",\"OS\":\"Linux\",\"tracing\":\"DEBUG\",\"account\":",
    );
    b.append(quote(p.account_name).as_str());
    b.append(",\"user\":");
    b.append(quote(p.username).as_str());
    b.append(",\"warehouse\":");
    b.append(quote(p.warehouse).as_str());
    b.append(",\"database\":");
    b.append(quote(p.database).as_str());
    b.append(",\"schema\":");
    b.append(quote(p.schema).as_str());
    b.append("}}}");
    b
}

/// The login request: a POST to the account's login endpoint, with the four
/// context names as query parameters, JSON in and out, and a 120 s timeout.
pub fn login_request(p: &ConnectionParams) -> (r: Result<HttpRequest, ClientError>)
    ensures
        r is Ok <==> url_with_query(login_endpoint(p.account_name@), login_pairs(*p)) is Some,
        r is Err ==> r->Err_0 is InvalidUrl,
        r is Ok ==> {
            let q = r->Ok_0;
            &&& q.url@ == url_with_query(login_endpoint(p.account_name@), login_pairs(*p))->0
            &&& q.content_type@ == "application/json"@
            &&& q.accept@ == "application/json"@
            &&& q.authorization is None
            &&& q.body@ == login_body(*p)
            &&& q.timeout_secs == Some(120u64)
        },
{
    let mut base = host_for(p.account_name);
    base.append("/session/v1/login-request");
    let pairs: Vec<(&str, &str)> = vec![
        ("warehouse", p.warehouse),
        ("roleName", p.role),
        ("databaseName", p.database),
        ("schemaName", p.schema),
    ];
    assert(pairs.deep_view() =~= login_pairs(*p));
    match url_with_params(base.as_str(), &pairs) {
        Ok(url) => Ok(
            HttpRequest {
                url,
                content_type: String::from_str("application/json"),
                accept: String::from_str("application/json"),
                authorization: None,
                body: login_request_body(p),
                timeout_secs: Some(120),
            },
        ),
        Err(_) => Err(ClientError::InvalidUrl),
    }
}

/// The JSON body of a query request for `sql`.
pub fn query_request_body(sql: &str) -> (r: String)
    ensures
        r@ == query_body(sql@),
{
    let mut b = String::from_str("{\"sqlText\":");
    b.append(quote(sql).as_str());
    b.append(
        ",\"sequenceId\":0,\"bindings\":null,\"bindStage\":null,\"describeOnly\":false,\"parameters\":{\"CLIENT_RESULT_CHUNK_SIZE\":48},\"describedJobId\":null,\"isInternal\":false,\"asyncExec\":false}",
    );
    b
}

/// The value of the `Authorization` header for a session token.
pub fn authorization_header(token: &str) -> (r: String)
    ensures
        r@ == authorization_value(token@),
{
    let mut a = String::from_str("Snowflake Token=\"");
    a.append(token);
    a.append("\"");
    a
}

/// The query request for `sql` under a given request identifier.
pub fn query_request_with_id(host: &str, token: &str, sql: &str, request_id: &str) -> (r:
    HttpRequest)
    ensures
        r.url@ == query_url(host@, request_id@),
        r.content_type@ == "application/json"@,
        r.accept@ == "application/snowflake"@,
        (r.authorization matches Some(a) && a@ == authorization_value(token@)),
        r.body@ == query_body(sql@),
        r.timeout_secs is None,
{
    let mut url = String::from_str(host);
    url.append("/queries/v1/query-request?requestId=");
    url.append(request_id);
    HttpRequest {
        url,
        content_type: String::from_str("application/json"),
        accept: String::from_str("application/snowflake"),
        authorization: Some(authorization_header(token)),
        body: query_request_body(sql),
        timeout_secs: None,
    }
}

/// The query request for `sql`, under a fresh random request identifier.
pub fn query_request_fresh(host: &str, token: &str, sql: &str) -> (r: HttpRequest)
    ensures
        exists|id: Seq<char>| is_uuid_text(id) && r.url@ == query_url(host@, id),
        r.content_type@ == "application/json"@,
        r.accept@ == "application/snowflake"@,
        (r.authorization matches Some(a) && a@ == authorization_value(token@)),
        r.body@ == query_body(sql@),
        r.timeout_secs is None,
{
    let id = new_request_id();
    let r = query_request_with_id(host, token, sql, id.as_str());
    assert(r.url@ == query_url(host@, id@));
    r
}

} // verus!
