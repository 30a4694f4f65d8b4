use vstd::prelude::*;
use vstd::string::StringExecFns;
use crate::error::{is_error, ApiError, ApiErrorKind};
use crate::frame::{opt_opt_view, opt_view};

verus! {

/// The text of one decimal digit.
pub open spec fn digit_text(d: nat) -> Seq<char> {
    if d == 0 {
        "0"@
    } else if d == 1 {
        "1"@
    } else if d == 2 {
        "2"@
    } else if d == 3 {
        "3"@
    } else if d == 4 {
        "4"@
    } else if d == 5 {
        "5"@
    } else if d == 6 {
        "6"@
    } else if d == 7 {
        "7"@
    } else if d == 8 {
        "8"@
    } else {
        "9"@
    }
}

/// The decimal notation of `n`, without leading zeros.
pub open spec fn decimal(n: nat) -> Seq<char>
    decreases n,
{
    if n < 10 {
        digit_text(n)
    } else {
        decimal(n / 10) + digit_text(n % 10)
    }
}

fn digit(d: u16) -> (r: &'static str)
    requires
        d < 10,
    ensures
        r@ == digit_text(d as nat),
{
    if d == 0 {
        "0"
    } else if d == 1 {
        "1"
    } else if d == 2 {
        "2"
    } else if d == 3 {
        "3"
    } else if d == 4 {
        "4"
    } else if d == 5 {
        "5"
    } else if d == 6 {
        "6"
    } else if d == 7 {
        "7"
    } else if d == 8 {
        "8"
    } else {
        "9"
    }
}

/// Writes `n` in decimal.
pub fn decimal_string(n: u16) -> (r: String)
    ensures
        r@ == decimal(n as nat),
    decreases n,
{
    if n < 10 {
        String::from_str(digit(n))
    } else {
        let mut s = decimal_string(n / 10);
        s.append(digit(n % 10));
        s
    }
}

/// What a JSON reading of `text` finds under `key`: `None` where the text is
/// not JSON or has no such key, otherwise the value if it is a string.
pub uninterp spec fn json_field(text: Seq<char>, key: Seq<char>) -> Option<Option<Seq<char>>>;

/// Relies on serde_json::from_str to read the text as a JSON value, and on
/// Value::get and Value::as_str to look up `key` and read it as a string.
#[verifier::external_body]
fn read_json_field(text: &str, key: &str) -> (r: Option<Option<String>>)
    ensures
        opt_opt_view(r) == json_field(text@, key@),
{
    serde_json::from_str::<serde_json::Value>(text)
        .ok()
        .and_then(|v| v.get(key).map(|f| f.as_str().map(str::to_string)))
}

/// The detail of an error body: the value of the first of "message", "msg",
/// "details" and "hint" that the body has, where that value is a string;
/// otherwise the whole body.
pub open spec fn detail_of(body: Seq<char>) -> Seq<char> {
    let found = if json_field(body, "message"@) is Some {
        json_field(body, "message"@)
    } else if json_field(body, "msg"@) is Some {
        json_field(body, "msg"@)
    } else if json_field(body, "details"@) is Some {
        json_field(body, "details"@)
    } else {
        json_field(body, "hint"@)
    };
    match found {
        Some(Some(s)) => s,
        _ => body,
    }
}

/// Picks the detail out of the body of a refused request.
pub fn error_detail(body: &str) -> (r: String)
    ensures
        r@ == detail_of(body@),
{
    let mut found = read_json_field(body, "message");
    if found.is_none() {
        found = read_json_field(body, "msg");
    }
    if found.is_none() {
        found = read_json_field(body, "details");
    }
    if found.is_none() {
        found = read_json_field(body, "hint");
    }
    match found {
        Some(Some(s)) => s,
        _ => body.to_string(),
    }
}

/// The error that a refused insert into `table` becomes, by the HTTP status
/// of the refusal and the detail that its body gave.
pub open spec fn insert_failure_of(status: u16, table: Seq<char>, detail: Seq<char>) -> (
    bool,
    Seq<char>,
) {
    if status == 404 {
        (false, "Table '"@ + table + "' not found ("@ + detail + ")"@)
    } else if status == 403 {
        (
            false,
            "Permission denied on '"@ + table
                + "'. Disable Row Level Security (RLS) or use the service-role key. ("@ + detail
                + ")"@,
        )
    } else if status == 409 {
        (true, "Duplicate entry: "@ + detail)
    } else {
        (false, "Supabase error "@ + decimal(status as nat) + " on '"@ + table + "': "@ + detail)
    }
}

/// Turns a refused insert into an error: a duplicate entry is the caller's
/// bad request, any other refusal a data-access failure. The first component
/// of `insert_failure_of` says which; the second is the message.
pub fn insert_failure(status: u16, table: &str, detail: &str) -> (r: ApiError)
    ensures
        insert_failure_of(status, table@, detail@).0 ==> r is BadRequest && r->BadRequest_0@
            == insert_failure_of(status, table@, detail@).1,
        !insert_failure_of(status, table@, detail@).0 ==> r is Database && r->Database_0@
            == insert_failure_of(status, table@, detail@).1,
{
    if status == 404 {
        let m = String::from_str("Table '").concat(table).concat("' not found (").concat(
            detail,
        ).concat(")");
        ApiError::Database(m)
    } else if status == 403 {
        let m = String::from_str("Permission denied on '").concat(table).concat(
            "'. Disable Row Level Security (RLS) or use the service-role key. (",
        ).concat(detail).concat(")");
        ApiError::Database(m)
    } else if status == 409 {
        ApiError::BadRequest(String::from_str("Duplicate entry: ").concat(detail))
    } else {
        let code = decimal_string(status);
        let m = String::from_str("Supabase error ").concat(code.as_str()).concat(" on '").concat(
            table,
        ).concat("': ").concat(detail);
        ApiError::Database(m)
    }
}

/// What a JSON reading of an insert's response finds: `None` where the text is
/// not a JSON array; `Some(None)` where the array is empty; otherwise the
/// string under "id" in its first row, if that row has one.
pub uninterp spec fn first_row_id(text: Seq<char>) -> Option<Option<Option<Seq<char>>>>;

/// Relies on serde_json::from_str to read the response as an array of JSON
/// values, and on Value::get and Value::as_str to read the first row's "id".
#[verifier::external_body]
fn read_first_row_id(text: &str) -> (r: Option<Option<Option<String>>>)
    ensures
        match r {
            None => first_row_id(text@) is None,
            Some(None) => first_row_id(text@) == Some(None::<Option<Seq<char>>>),
            Some(Some(id)) => first_row_id(text@) == Some(Some(opt_view(id))),
        },
{
    serde_json::from_str::<Vec<serde_json::Value>>(text)
        .ok()
        .map(|rows| rows.first().map(|row| row.get("id").and_then(serde_json::Value::as_str).map(str::to_string)))
}

/// The id that a successful insert reports, or the internal error that says
/// what is wrong with its response.
pub open spec fn inserted_id_of(text: Seq<char>) -> Result<Seq<char>, Seq<char>> {
    match first_row_id(text) {
        None => Err("Unexpected Supabase response: "@ + text),
        Some(None) => Err("Supabase returned empty array after insert"@),
        Some(Some(None)) => Err("Supabase response missing 'id' field: "@ + text),
        Some(Some(Some(id))) => Ok(id),
    }
}

/// Reads the id of the inserted row out of a successful insert's response.
pub fn inserted_id(text: &str) -> (r: Result<String, ApiError>)
    ensures
        match inserted_id_of(text@) {
            Ok(id) => r is Ok && r->Ok_0@ == id,
            Err(m) => r is Err && is_error(r->Err_0, ApiErrorKind::Internal, m),
        },
{
    match read_first_row_id(text) {
        None => Err(ApiError::Internal(String::from_str("Unexpected Supabase response: ").concat(text))),
        Some(None) => Err(
            ApiError::Internal(String::from_str("Supabase returned empty array after insert")),
        ),
        Some(Some(None)) => Err(
            ApiError::Internal(String::from_str("Supabase response missing 'id' field: ").concat(text)),
        ),
        Some(Some(Some(id))) => Ok(id),
    }
}

} // verus!
