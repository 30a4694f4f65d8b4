use vstd::prelude::*;
use crate::error::{is_error, ApiError, ApiErrorKind};

verus! {

/// The body of a profile edit: each field that is present replaces the
/// stored one.
pub struct EditProfileRequest {
    pub display_name: Option<String>,
    pub avatar_url: Option<String>,
    pub bio: Option<String>,
}

/// Checks a profile edit by `session_user` of the profile `target`: only the
/// owner may edit it, and at least one field must be given.
pub fn check_profile_edit(session_user: u128, target: u128, req: &EditProfileRequest) -> (r: Result<
    (),
    ApiError,
>)
    ensures
        r is Ok <==> (session_user == target && (req.display_name is Some || req.avatar_url is Some
            || req.bio is Some)),
        session_user != target ==> r is Err && r->Err_0 is Unauthorized,
        session_user == target && r is Err ==> is_error(
            r->Err_0,
            ApiErrorKind::BadRequest,
            "Provide at least one field to update"@,
        ),
{
    if session_user != target {
        return Err(ApiError::Unauthorized);
    }
    if req.display_name.is_none() && req.avatar_url.is_none() && req.bio.is_none() {
        return Err(ApiError::bad_request("Provide at least one field to update"));
    }
    Ok(())
}

/// The (field, value) pair of an edit field, where it is given.
pub open spec fn field_update(name: Seq<char>, value: Option<String>) -> Seq<(Seq<char>, Seq<char>)> {
    match value {
        Some(v) => seq![(name, v@)],
        None => Seq::empty(),
    }
}

/// The fields that a profile edit replaces, with their new values, in the
/// order display name, avatar URL, bio.
pub open spec fn update_fields(req: &EditProfileRequest) -> Seq<(Seq<char>, Seq<char>)> {
    field_update("display_name"@, req.display_name) + field_update("avatar_url"@, req.avatar_url)
        + field_update("bio"@, req.bio)
}

fn push_field(out: &mut Vec<(String, String)>, name: &str, value: &Option<String>)
    ensures
        final(out)@.len() == old(out)@.len() + field_update(name@, *value).len(),
        forall|i: int|
            0 <= i < old(out)@.len() ==> #[trigger] final(out)@[i] == old(out)@[i],
        forall|i: int|
            0 <= i < field_update(name@, *value).len() ==> (
            #[trigger] final(out)@[old(out)@.len() + i].0@,
            final(out)@[old(out)@.len() + i].1@,
        ) == field_update(name@, *value)[i],
{
    match value {
        Some(v) => {
            out.push((name.to_string(), v.clone()));
        },
        None => {},
    }
}

/// The update that a profile edit sends: one (field, value) pair for each
/// field that is given. It is empty exactly where `check_profile_edit`
/// refuses the edit for want of fields.
pub fn profile_update(req: &EditProfileRequest) -> (r: Vec<(String, String)>)
    ensures
        r@.len() == update_fields(req).len(),
        forall|i: int|
            0 <= i < r@.len() ==> (#[trigger] r@[i].0@, r@[i].1@) == update_fields(req)[i],
        r@.len() == 0 <==> (req.display_name is None && req.avatar_url is None && req.bio is None),
{
    let mut out: Vec<(String, String)> = Vec::new();
    push_field(&mut out, "display_name", &req.display_name);
    let ghost o1 = out@;
    push_field(&mut out, "avatar_url", &req.avatar_url);
    let ghost o2 = out@;
    push_field(&mut out, "bio", &req.bio);
    let ghost f = update_fields(req);
    let ghost a = field_update("display_name"@, req.display_name);
    let ghost b = field_update("avatar_url"@, req.avatar_url);
    let ghost c = field_update("bio"@, req.bio);
    assert forall|i: int| 0 <= i < out@.len() implies (#[trigger] out@[i].0@, out@[i].1@) == f[i] by {
        if i < a.len() {
            assert(out@[i] == o2[i]);
            assert(o2[i] == o1[i]);
            assert(o1[0 + i] == o1[i]);
            assert(f[i] == a[i]);
        } else if i < a.len() + b.len() {
            assert(out@[i] == o2[i]);
            assert(o2[o1.len() + (i - a.len())] == o2[i]);
            assert(f[i] == b[i - a.len()]);
        } else {
            assert(out@[o2.len() + (i - a.len() - b.len())] == out@[i]);
            assert(f[i] == c[i - a.len() - b.len()]);
        }
    }
    out
}

} // verus!
