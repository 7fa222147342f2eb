//! The session handle, and what the client makes of the service's replies.
use crate::error::ClientError;
use crate::json::{
    bool_at, has, json_bool_at, json_has, json_str_at, rows_at, str_at, str_opt, string_opt,
};
use crate::request::{
    authorization_value, host_for, host_of, is_uuid_text, query_body, query_request_fresh, query_url,
    ConnectionParams, HttpRequest,
};
use vstd::prelude::*;

verus! {

/// What a reply's `success` flag, `code` and `message` decide: a missing or
/// non-boolean flag is a protocol error, `false` an application error that
/// carries the code and message, `true` lets the caller go on.
pub fn check_success(success: Option<bool>, code: Option<&str>, message: Option<&str>) -> (r:
    Result<(), ClientError>)
    ensures
        success is None ==> r matches Err(ClientError::Protocol),
        success == Some(true) ==> r is Ok,
        success == Some(false) ==> (r matches Err(ClientError::Application { code: c, message: m })
            && string_opt(c) == str_opt(code) && string_opt(m) == str_opt(message)),
        r is Err ==> (r->Err_0 is Protocol || r->Err_0 is Application),
{
    match success {
        None => Err(ClientError::Protocol),
        Some(true) => Ok(()),
        Some(false) => {
            let c = match code {
                Some(s) => Some(String::from_str(s)),
                None => None,
            };
            let m = match message {
                Some(s) => Some(String::from_str(s)),
                None => None,
            };
            Err(ClientError::Application { code: c, message: m })
        },
    }
}

/// The session token of a successful login reply, which must be a string.
pub fn token_from(token: Option<&str>) -> (r: Result<String, ClientError>)
    ensures
        token is None ==> r matches Err(ClientError::Protocol),
        token matches Some(t) ==> (r matches Ok(s) && s@ == t@),
{
    match token {
        Some(t) => Ok(String::from_str(t)),
        None => Err(ClientError::Protocol),
    }
}

/// Borrows the text of an optional string.
fn as_opt_str(o: &Option<String>) -> (r: Option<&str>)
    ensures
        str_opt(r) == string_opt(*o),
{
    match o {
        Some(s) => Some(s.as_str()),
        None => None,
    }
}

/// What a query reply decides, from the members read out of it: the
/// `success` flag, `code` and `message`, whether `data.rowset` is present,
/// and the rows decoded from it, if that succeeded. Decoded rows come back
/// as they are.
pub fn rows_outcome<T>(
    success: Option<bool>,
    code: Option<&str>,
    message: Option<&str>,
    has_rowset: bool,
    decoded: Option<Vec<T>>,
) -> (r: Result<Vec<T>, ClientError>)
    ensures
        success is None ==> r matches Err(ClientError::Protocol),
        success == Some(false) ==> (r matches Err(ClientError::Application { code: c, message: m })
            && string_opt(c) == str_opt(code) && string_opt(m) == str_opt(message)),
        success == Some(true) && !has_rowset ==> r matches Err(ClientError::Protocol),
        success == Some(true) && has_rowset && decoded is None ==> r matches Err(
            ClientError::Deserialization,
        ),
        success == Some(true) && has_rowset && decoded is Some ==> (r matches Ok(rows) && rows@
            == decoded->0@),
{
    match check_success(success, code, message) {
        Ok(()) => {},
        Err(e) => {
            return Err(e);
        },
    }
    if !has_rowset {
        return Err(ClientError::Protocol);
    }
    match decoded {
        Some(rows) => Ok(rows),
        None => Err(ClientError::Deserialization),
    }
}

struct Session {
    token: String,
}

/// An authenticated handle: the account's host and the session token.
/// It is made only from a successful login reply, and never changes.
pub struct SnowflakeClient {
    host: String,
    session: Session,
}

impl SnowflakeClient {
    pub closed spec fn spec_host(&self) -> Seq<char> {
        self.host@
    }

    pub closed spec fn spec_token(&self) -> Seq<char> {
        self.session.token@
    }

    /// The host URL that queries go to.
    pub fn host(&self) -> (r: &str)
        ensures
            r@ == self.spec_host(),
    {
        self.host.as_str()
    }

    /// The session token that queries carry.
    pub fn token(&self) -> (r: &str)
        ensures
            r@ == self.spec_token(),
    {
        self.session.token.as_str()
    }

    /// The client for the account of `params` with a given session token,
    /// once a login reply has been checked.
    pub fn from_token(params: &ConnectionParams, token: String) -> (r: SnowflakeClient)
        ensures
            r.spec_host() == host_of(params.account_name@),
            r.spec_token() == token@,
    {
        SnowflakeClient { host: host_for(params.account_name), session: Session { token } }
    }

    /// Completes a login from the body of the login reply. The client is
    /// bound to the account's host; its token is the reply's `data.token`.
    pub fn from_login_reply(params: &ConnectionParams, reply: &str) -> (r: Result<
        SnowflakeClient,
        ClientError,
    >)
        ensures
            json_bool_at(reply@, "/success"@) is None ==> r matches Err(ClientError::Protocol),
            json_bool_at(reply@, "/success"@) == Some(false) ==> (r matches Err(
                ClientError::Application { code: c, message: m },
            ) && string_opt(c) == json_str_at(reply@, "/code"@) && string_opt(m) == json_str_at(
                reply@,
                "/message"@,
            )),
            json_bool_at(reply@, "/success"@) == Some(true) && json_str_at(reply@, "/data/token"@)
                is None ==> r matches Err(ClientError::Protocol),
            json_bool_at(reply@, "/success"@) == Some(true) && json_str_at(reply@, "/data/token"@)
                is Some ==> (r matches Ok(c) && c.spec_token() == json_str_at(
                reply@,
                "/data/token"@,
            )->0 && c.spec_host() == host_of(params.account_name@)),
    {
        let success = bool_at(reply, "/success");
        let code = str_at(reply, "/code");
        let message = str_at(reply, "/message");
        let token = str_at(reply, "/data/token");
        SnowflakeClient::from_login_fields(
            params,
            success,
            as_opt_str(&code),
            as_opt_str(&message),
            as_opt_str(&token),
        )
    }

    /// What a login reply decides, from the members read out of it: the
    /// `success` flag, `code`, `message` and `data.token`.
    pub fn from_login_fields(
        params: &ConnectionParams,
        success: Option<bool>,
        code: Option<&str>,
        message: Option<&str>,
        token: Option<&str>,
    ) -> (r: Result<SnowflakeClient, ClientError>)
        ensures
            success is None ==> r matches Err(ClientError::Protocol),
            success == Some(false) ==> (r matches Err(ClientError::Application { code: c, message: m })
                && string_opt(c) == str_opt(code) && string_opt(m) == str_opt(message)),
            success == Some(true) && token is None ==> r matches Err(ClientError::Protocol),
            success == Some(true) && token is Some ==> (r matches Ok(c)
                && c.spec_host() == host_of(params.account_name@)
                && c.spec_token() == token->0@),
            r is Ok ==> r->Ok_0.spec_host() == host_of(params.account_name@),
            r is Err ==> (r->Err_0 is Protocol || r->Err_0 is Application),
    {
        match check_success(success, code, message) {
            Ok(()) => {},
            Err(e) => {
                return Err(e);
            },
        }
        match token_from(token) {
            Ok(t) => Ok(SnowflakeClient::from_token(params, t)),
            Err(e) => Err(e),
        }
    }

    /// The request that runs `sql` in this session: a fresh request
    /// identifier, the vendor's result media type and the session token.
    pub fn query_request(&self, sql: &str) -> (r: HttpRequest)
        ensures
            exists|id: Seq<char>| is_uuid_text(id) && r.url@ == query_url(self.spec_host(), id),
            r.content_type@ == "application/json"@,
            r.accept@ == "application/snowflake"@,
            (r.authorization matches Some(a) && a@ == authorization_value(self.spec_token())),
            r.body@ == query_body(sql@),
            r.timeout_secs is None,
    {
        let r = query_request_fresh(self.host.as_str(), self.session.token.as_str(), sql);
        let ghost id = choose|id: Seq<char>| is_uuid_text(id) && r.url@ == query_url(self.host@, id);
        assert(is_uuid_text(id) && r.url@ == query_url(self.spec_host(), id));
        r
    }

    /// The rows of a query reply, read as the caller's row type from the
    /// reply's `data.rowset`.
    pub fn rows_from_reply<T: serde::de::DeserializeOwned>(reply: &str) -> (r: Result<
        Vec<T>,
        ClientError,
    >)
        ensures
            json_bool_at(reply@, "/success"@) is None ==> r matches Err(ClientError::Protocol),
            json_bool_at(reply@, "/success"@) == Some(false) ==> (r matches Err(
                ClientError::Application { code: c, message: m },
            ) && string_opt(c) == json_str_at(reply@, "/code"@) && string_opt(m) == json_str_at(
                reply@,
                "/message"@,
            )),
            json_bool_at(reply@, "/success"@) == Some(true) && !json_has(reply@, "/data/rowset"@)
                ==> r matches Err(ClientError::Protocol),
            json_bool_at(reply@, "/success"@) == Some(true) && json_has(reply@, "/data/rowset"@)
                ==> (r is Ok || r matches Err(ClientError::Deserialization)),
    {
        let success = bool_at(reply, "/success");
        let code = str_at(reply, "/code");
        let message = str_at(reply, "/message");
        let found = has(reply, "/data/rowset");
        let decoded = match success {
            Some(true) => {
                if found {
                    rows_at::<T>(reply, "/data/rowset")
                } else {
                    None
                }
            },
            _ => None,
        };
        rows_outcome(success, as_opt_str(&code), as_opt_str(&message), found, decoded)
    }
}

} // verus!
