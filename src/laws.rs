//! What holds of every request this client builds.
use crate::json::json_string;
use crate::request::{
    login_body, login_fixed_fields, login_pairs, login_session_fields, query_body,
    query_fixed_fields, ConnectionParams,
};
use vstd::prelude::*;

verus! {

/// `part` stands in `s` from index `i` on.
pub open spec fn occurs_at(s: Seq<char>, part: Seq<char>, i: int) -> bool {
    0 <= i && i + part.len() <= s.len() && s.subrange(i, i + part.len()) == part
}

proof fn occurs_in_middle(a: Seq<char>, b: Seq<char>, c: Seq<char>, part: Seq<char>, i: int)
    requires
        occurs_at(b, part, i),
    ensures
        occurs_at(a + b + c, part, a.len() + i),
{
    assert((a + b + c).subrange(a.len() + i, a.len() + i + part.len()) =~= b.subrange(
        i,
        i + part.len(),
    ));
}

/// The login URL's query is made of exactly four pairs, in this order:
/// `warehouse`, `roleName`, `databaseName` and `schemaName`, each with the
/// caller's value as given, empty strings included.
pub proof fn login_query_holds_the_four_context_names(p: ConnectionParams)
    ensures
        login_pairs(p).len() == 4,
        login_pairs(p)[0] == ("warehouse"@, p.warehouse@),
        login_pairs(p)[1] == ("roleName"@, p.role@),
        login_pairs(p)[2] == ("databaseName"@, p.database@),
        login_pairs(p)[3] == ("schemaName"@, p.schema@),
{
}

/// Whatever the parameters, every login body names the client as
/// `CLIENT_APP_ID` "JavaScript", `CLIENT_APP_VERSION` "1.5.3", and sets the
/// session flags `VALIDATE_DEFAULT_PARAMETERS` and
/// `QUOTED_IDENTIFIERS_IGNORE_CASE` to true.
pub proof fn login_body_fixed_fields(p: ConnectionParams)
    ensures
        exists|i: int| occurs_at(login_body(p), "\"CLIENT_APP_ID\":\"JavaScript\""@, i),
        exists|i: int| occurs_at(login_body(p), "\"CLIENT_APP_VERSION\":\"1.5.3\""@, i),
        exists|i: int| occurs_at(login_body(p), "\"VALIDATE_DEFAULT_PARAMETERS\":true"@, i),
        exists|i: int| occurs_at(login_body(p), "\"QUOTED_IDENTIFIERS_IGNORE_CASE\":true"@, i),
{
    let app = login_fixed_fields();
    let session = login_session_fields();
    let app_id = "\"CLIENT_APP_ID\":\"JavaScript\""@;
    let version = "\"CLIENT_APP_VERSION\":\"1.5.3\""@;
    let validate = "\"VALIDATE_DEFAULT_PARAMETERS\":true"@;
    let quoted = "\"QUOTED_IDENTIFIERS_IGNORE_CASE\":true"@;
    reveal_strlit(",\"CLIENT_APP_ID\":\"JavaScript\",\"CLIENT_APP_VERSION\":\"1.5.3\",\"LOGIN_NAME\":");
    reveal_strlit(
        ",\"SESSION_PARAMETERS\":{\"VALIDATE_DEFAULT_PARAMETERS\":true,\"QUOTED_IDENTIFIERS_IGNORE_CASE\":true},\"CLIENT_ENVIRONMENT\":{\"APPLICATION\":\"SnowflakeEx\",\"OCSP_MODE\":\"FAIL_OPEN\",\"OS\":\"Linux\",\"tracing\":\"DEBUG\",\"account\":",
    );
    reveal_strlit("\"CLIENT_APP_ID\":\"JavaScript\"");
    reveal_strlit("\"CLIENT_APP_VERSION\":\"1.5.3\"");
    reveal_strlit("\"VALIDATE_DEFAULT_PARAMETERS\":true");
    reveal_strlit("\"QUOTED_IDENTIFIERS_IGNORE_CASE\":true");
    assert(app.subrange(1, 1 + app_id.len() as int) =~= app_id);
    assert(app.subrange(30, 30 + version.len() as int) =~= version);
    assert(session.subrange(23, 23 + validate.len() as int) =~= validate);
    assert(session.subrange(58, 58 + quoted.len() as int) =~= quoted);

    let before_app = "{\"data\":{\"ACCOUNT_NAME\":"@ + json_string(p.account_name@)
        + ",\"PASSWORD\":"@ + json_string(p.password@);
    let before_session = before_app + app + json_string(p.username@);
    let after_session = json_string(p.account_name@) + ",\"user\":"@ + json_string(p.username@)
        + ",\"warehouse\":"@ + json_string(p.warehouse@) + ",\"database\":"@ + json_string(
        p.database@,
    ) + ",\"schema\":"@ + json_string(p.schema@) + "}}}"@;
    let after_app = json_string(p.username@) + session + after_session;
    assert(login_body(p) =~= before_app + app + after_app);
    assert(login_body(p) =~= before_session + session + after_session);
    occurs_in_middle(before_app, app, after_app, app_id, 1);
    occurs_in_middle(before_app, app, after_app, version, 30);
    occurs_in_middle(before_session, session, after_session, validate, 23);
    occurs_in_middle(before_session, session, after_session, quoted, 58);
}

/// Whatever the SQL text, every query body ends with the same flags: one
/// statement (`sequenceId` 0), run for its results (`describeOnly` false)
/// and synchronously (`asyncExec` false).
pub proof fn query_body_fixed_flags(sql: Seq<char>)
    ensures
        occurs_at(
            query_body(sql),
            query_fixed_fields(),
            query_body(sql).len() - query_fixed_fields().len(),
        ),
        occurs_at(query_fixed_fields(), "\"sequenceId\":0"@, 1),
        occurs_at(query_fixed_fields(), "\"describeOnly\":false"@, 49),
        occurs_at(query_fixed_fields(), "\"asyncExec\":false"@, 156),
{
    let flags = query_fixed_fields();
    reveal_strlit(
        ",\"sequenceId\":0,\"bindings\":null,\"bindStage\":null,\"describeOnly\":false,\"parameters\":{\"CLIENT_RESULT_CHUNK_SIZE\":48},\"describedJobId\":null,\"isInternal\":false,\"asyncExec\":false}",
    );
    reveal_strlit("\"sequenceId\":0");
    reveal_strlit("\"describeOnly\":false");
    reveal_strlit("\"asyncExec\":false");
    assert(flags.subrange(1, 1 + "\"sequenceId\":0"@.len() as int) =~= "\"sequenceId\":0"@);
    assert(flags.subrange(49, 49 + "\"describeOnly\":false"@.len() as int) =~= "\"describeOnly\":false"@);
    assert(flags.subrange(156, 156 + "\"asyncExec\":false"@.len() as int) =~= "\"asyncExec\":false"@);
    let body = query_body(sql);
    assert(body.subrange(body.len() - flags.len(), body.len() as int) =~= flags);
}

} // verus!
