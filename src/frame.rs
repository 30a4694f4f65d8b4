use vstd::prelude::*;

verus! {

/// The structured form of an inbound frame.
pub struct WsIncoming {
    pub content: String,
}

/// What a JSON reading of a frame gives: `None` where the text is not JSON,
/// otherwise the string held under the key "content", if there is one.
pub uninterp spec fn json_content_field(text: Seq<char>) -> Option<Option<Seq<char>>>;

/// Whether `c` has the Unicode White_Space property, as `char::is_whitespace`
/// and `str::trim` understand white space.
pub open spec fn is_white(c: char) -> bool {
    let n = c as u32;
    (9 <= n <= 13) || n == 0x20 || n == 0x85 || n == 0xA0 || n == 0x1680 || (0x2000 <= n
        <= 0x200A) || n == 0x2028 || n == 0x2029 || n == 0x202F || n == 0x205F || n == 0x3000
}

/// The text without its leading white space.
pub open spec fn trim_start(s: Seq<char>) -> Seq<char>
    decreases s.len(),
{
    if s.len() > 0 && is_white(s[0]) {
        trim_start(s.drop_first())
    } else {
        s
    }
}

/// The text without its trailing white space.
pub open spec fn trim_end(s: Seq<char>) -> Seq<char>
    decreases s.len(),
{
    if s.len() > 0 && is_white(s.last()) {
        trim_end(s.drop_last())
    } else {
        s
    }
}

/// The text with leading and trailing white space removed.
pub open spec fn trimmed(s: Seq<char>) -> Seq<char> {
    trim_end(trim_start(s))
}

/// Whether the text is empty or white space alone.
pub open spec fn is_blank(s: Seq<char>) -> bool {
    forall|k: int| 0 <= k < s.len() ==> is_white(#[trigger] s[k])
}

/// Text that trims to nothing is exactly text of white space alone.
pub proof fn lemma_trimmed_empty_iff_blank(s: Seq<char>)
    ensures
        trimmed(s).len() == 0 <==> is_blank(s),
{
    lemma_trim_start_blank(s);
    lemma_trim_end_blank(trim_start(s));
}

proof fn lemma_trim_start_blank(s: Seq<char>)
    ensures
        trim_start(s).len() == 0 <==> is_blank(s),
        trim_start(s).len() > 0 ==> !is_white(trim_start(s)[0]),
        is_blank(trim_start(s)) ==> trim_start(s).len() == 0,
    decreases s.len(),
{
    if s.len() > 0 && is_white(s[0]) {
        lemma_trim_start_blank(s.drop_first());
        if is_blank(s.drop_first()) {
            assert forall|k: int| 0 <= k < s.len() implies is_white(#[trigger] s[k]) by {
                if k > 0 {
                    assert(s[k] == s.drop_first()[k - 1]);
                }
            }
        }
        if is_blank(s) {
            assert forall|k: int| 0 <= k < s.drop_first().len() implies is_white(
                #[trigger] s.drop_first()[k],
            ) by {
                assert(s.drop_first()[k] == s[k + 1]);
            }
        }
    } else if s.len() > 0 {
        assert(!is_white(s[0]));
    }
}

proof fn lemma_trim_end_blank(s: Seq<char>)
    requires
        s.len() > 0 ==> !is_white(s[0]),
    ensures
        trim_end(s).len() == 0 <==> s.len() == 0,
    decreases s.len(),
{
    if s.len() > 0 && is_white(s.last()) {
        if s.len() == 1 {
            assert(s.last() == s[0]);
        } else {
            assert(s.drop_last()[0] == s[0]);
            lemma_trim_end_blank(s.drop_last());
        }
    }
}

/// Relies on serde_json::from_str to read the frame as a JSON value, and on
/// Value::get and Value::as_str to take the string under "content".
#[verifier::external_body]
fn read_content_field(text: &str) -> (r: Option<Option<String>>)
    ensures
        opt_opt_view(r) == json_content_field(text@),
{
    match serde_json::from_str::<serde_json::Value>(text) {
        Ok(v) => Some(v.get("content").and_then(serde_json::Value::as_str).map(str::to_string)),
        Err(_) => None,
    }
}

/// Relies on str::trim: the slice without leading and trailing white space,
/// white space being the characters with the Unicode White_Space property.
#[verifier::external_body]
pub(crate) fn trim_text(s: &str) -> (r: &str)
    ensures
        r@ == trimmed(s@),
{
    s.trim()
}

pub open spec fn opt_view(o: Option<String>) -> Option<Seq<char>> {
    match o {
        Some(s) => Some(s@),
        None => None,
    }
}

pub open spec fn opt_opt_view(o: Option<Option<String>>) -> Option<Option<Seq<char>>> {
    match o {
        Some(inner) => Some(opt_view(inner)),
        None => None,
    }
}

/// The candidate content of a frame: the structured "content" string where
/// the frame is JSON that has one, and otherwise the raw text of the frame.
pub open spec fn candidate_content(text: Seq<char>, field: Option<Option<Seq<char>>>) -> Seq<char> {
    match field {
        Some(Some(c)) => c,
        _ => text,
    }
}

/// The content that a frame yields: its candidate content, unless that is
/// empty or white space alone.
pub open spec fn content_from(text: Seq<char>, field: Option<Option<Seq<char>>>) -> Option<
    Seq<char>,
> {
    let c = candidate_content(text, field);
    if is_blank(c) {
        None
    } else {
        Some(c)
    }
}

/// The content that the inbound frame `text` yields.
pub open spec fn frame_content(text: Seq<char>) -> Option<Seq<char>> {
    content_from(text, json_content_field(text))
}

/// Decides the content of a frame, given what a JSON reading of it found
/// (`None`: not JSON; `Some(None)`: JSON without a "content" string). Only a
/// "content" string replaces the raw text.
pub fn resolve_content(text: &str, field: Option<Option<String>>) -> (r: Option<String>)
    ensures
        opt_view(r) == content_from(text@, opt_opt_view(field)),
{
    let c: String = match field {
        Some(Some(c)) => c,
        _ => text.to_string(),
    };
    let t = trim_text(c.as_str());
    proof {
        lemma_trimmed_empty_iff_blank(c@);
    }
    if t.is_empty() {
        None
    } else {
        Some(c)
    }
}

/// Interprets an inbound text frame: the content to relay, or nothing where
/// the frame carries no content worth relaying.
pub fn interpret_frame(text: &str) -> (r: Option<String>)
    ensures
        opt_view(r) == frame_content(text@),
{
    let field = read_content_field(text);
    resolve_content(text, field)
}

} // verus!
