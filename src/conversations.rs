use vstd::prelude::*;
use crate::error::{is_error, ApiError, ApiErrorKind};
use crate::ids::{fresh_id, parse_id, parsed_uuid};

verus! {

/// Whether a membership query that found `rows` matching rows grants access.
/// A failed query fails closed: it grants nothing.
pub open spec fn member_by(rows: Result<usize, String>) -> bool {
    match rows {
        Ok(n) => n > 0,
        Err(_) => false,
    }
}

/// Whether the membership query for a (conversation, user) pair shows the
/// user to be a member.
pub fn is_member(rows: &Result<usize, String>) -> (r: bool)
    ensures
        r == member_by(*rows),
{
    match rows {
        Ok(n) => *n > 0,
        Err(_) => false,
    }
}

/// Checks membership before a session starts or the messages of a conversation are read:
/// `Ok` exactly for a member, `Unauthorized` otherwise.
pub fn verify_membership(rows: &Result<usize, String>) -> (r: Result<(), ApiError>)
    ensures
        r is Ok <==> member_by(*rows),
        r is Err ==> r->Err_0 is Unauthorized,
{
    if is_member(rows) {
        Ok(())
    } else {
        Err(ApiError::Unauthorized)
    }
}

/// The conversation ids that membership rows name, in order, leaving out the
/// rows whose "conversation_id" field is missing or is no UUID.
pub open spec fn ids_from(fields: Seq<Option<String>>) -> Seq<u128>
    decreases fields.len(),
{
    if fields.len() == 0 {
        Seq::empty()
    } else {
        let rest = ids_from(fields.drop_last());
        match fields.last() {
            Some(s) => match parsed_uuid(s@) {
                Some(id) => rest.push(id),
                None => rest,
            },
            None => rest,
        }
    }
}

/// Reads the conversation ids out of the "conversation_id" fields of
/// membership rows.
pub fn extract_conversation_ids(fields: &Vec<Option<String>>) -> (r: Vec<u128>)
    ensures
        r@ == ids_from(fields@),
{
    let mut ids: Vec<u128> = Vec::new();
    let mut i: usize = 0;
    while i < fields.len()
        invariant
            i <= fields@.len(),
            ids@ == ids_from(fields@.take(i as int)),
        decreases fields@.len() - i,
    {
        assert(fields@.take(i as int + 1).drop_last() == fields@.take(i as int));
        match &fields[i] {
            Some(s) => match parse_id(s.as_str()) {
                Some(id) => ids.push(id),
                None => {},
            },
            None => {},
        }
        i = i + 1;
    }
    assert(fields@.take(fields@.len() as int) == fields@);
    ids
}

/// The first id of `mine` that also occurs in `theirs`.
pub open spec fn first_common(mine: Seq<u128>, theirs: Seq<u128>) -> Option<u128>
    decreases mine.len(),
{
    if mine.len() == 0 {
        None
    } else if theirs.contains(mine[0]) {
        Some(mine[0])
    } else {
        first_common(mine.drop_first(), theirs)
    }
}

/// The first conversation of `mine`, in order, that `theirs` holds too.
pub fn find_common_conversation(mine: &Vec<u128>, theirs: &Vec<u128>) -> (r: Option<u128>)
    ensures
        r == first_common(mine@, theirs@),
{
    let mut i: usize = 0;
    assert(mine@.skip(0) == mine@);
    while i < mine.len()
        invariant
            i <= mine@.len(),
            first_common(mine@, theirs@) == first_common(mine@.skip(i as int), theirs@),
        decreases mine@.len() - i,
    {
        let cid = mine[i];
        assert(mine@.skip(i as int)[0] == cid);
        assert(mine@.skip(i as int).drop_first() == mine@.skip(i as int + 1));
        let mut j: usize = 0;
        let mut found = false;
        while j < theirs.len() && !found
            invariant
                j <= theirs@.len(),
                !found ==> forall|k: int| 0 <= k < j ==> theirs@[k] != cid,
                found ==> theirs@.contains(cid),
            decreases theirs@.len() - j,
        {
            if theirs[j] == cid {
                found = true;
            }
            j = j + 1;
        }
        if found {
            return Some(cid);
        }
        i = i + 1;
    }
    None
}

/// What a direct conversation between two users comes to.
pub struct DirectConversation {
    /// The conversation the two users share.
    pub conversation: u128,
    /// Whether it is new: then the conversation and one membership row for
    /// each of the two users are still to be stored.
    pub created: bool,
}

/// A user cannot start a conversation with themself.
pub fn check_direct_pair(me: u128, friend: u128) -> (r: Result<(), ApiError>)
    ensures
        r is Ok <==> me != friend,
        r is Err ==> is_error(r->Err_0, ApiErrorKind::BadRequest, "Cannot start a conversation with yourself"@),
{
    if me == friend {
        Err(ApiError::bad_request("Cannot start a conversation with yourself"))
    } else {
        Ok(())
    }
}

/// Finds the direct conversation of `me` and `friend`, given the ids of the
/// conversations that each belongs to; where they share none, `fresh` is the
/// new one. A user cannot start a conversation with themself.
pub fn plan_direct_conversation(
    me: u128,
    friend: u128,
    mine: &Vec<u128>,
    theirs: &Vec<u128>,
    fresh: u128,
) -> (r: Result<DirectConversation, ApiError>)
    ensures
        me == friend <==> r is Err,
        r is Err ==> is_error(r->Err_0, ApiErrorKind::BadRequest, "Cannot start a conversation with yourself"@),
        r is Ok ==> match first_common(mine@, theirs@) {
            Some(c) => r->Ok_0.conversation == c && !r->Ok_0.created,
            None => r->Ok_0.conversation == fresh && r->Ok_0.created,
        },
{
    if let Err(e) = check_direct_pair(me, friend) {
        return Err(e);
    }
    match find_common_conversation(mine, theirs) {
        Some(c) => Ok(DirectConversation { conversation: c, created: false }),
        None => Ok(DirectConversation { conversation: fresh, created: true }),
    }
}

/// As `plan_direct_conversation`, drawing a new random id for the case where
/// the two users share no conversation yet.
pub fn find_or_create_direct_conversation(
    me: u128,
    friend: u128,
    mine: &Vec<u128>,
    theirs: &Vec<u128>,
) -> (r: Result<DirectConversation, ApiError>)
    ensures
        me == friend <==> r is Err,
        r is Err ==> is_error(r->Err_0, ApiErrorKind::BadRequest, "Cannot start a conversation with yourself"@),
        r is Ok ==> match first_common(mine@, theirs@) {
            Some(c) => r->Ok_0.conversation == c && !r->Ok_0.created,
            None => r->Ok_0.created,
        },
{
    let fresh = fresh_id();
    plan_direct_conversation(me, friend, mine, theirs, fresh)
}

/// A membership row: (conversation, user).
pub type MemberRow = (u128, u128);

/// The conversations that `user` belongs to, in the order of the rows.
pub open spec fn ids_of(rows: Seq<MemberRow>, user: u128) -> Seq<u128>
    decreases rows.len(),
{
    if rows.len() == 0 {
        Seq::empty()
    } else {
        let rest = ids_of(rows.drop_last(), user);
        if rows.last().1 == user {
            rest.push(rows.last().0)
        } else {
            rest
        }
    }
}

/// The conversation that a direct-conversation request of `a` and `b`
/// returns, and the membership table after it, where `fresh` is the id that
/// a new conversation would get.
pub open spec fn direct_outcome(rows: Seq<MemberRow>, a: u128, b: u128, fresh: u128) -> (
    u128,
    Seq<MemberRow>,
) {
    match first_common(ids_of(rows, a), ids_of(rows, b)) {
        Some(c) => (c, rows),
        None => (fresh, rows.push((fresh, a)).push((fresh, b))),
    }
}

proof fn lemma_first_common_none(mine: Seq<u128>, theirs: Seq<u128>)
    requires
        first_common(mine, theirs) is None,
    ensures
        forall|k: int| 0 <= k < mine.len() ==> !theirs.contains(#[trigger] mine[k]),
    decreases mine.len(),
{
    if mine.len() > 0 {
        lemma_first_common_none(mine.drop_first(), theirs);
        assert forall|k: int| 0 <= k < mine.len() implies !theirs.contains(#[trigger] mine[k]) by {
            if k > 0 {
                assert(mine[k] == mine.drop_first()[k - 1]);
            }
        }
    }
}

proof fn lemma_first_common_push(mine: Seq<u128>, theirs: Seq<u128>, f: u128)
    requires
        forall|k: int| 0 <= k < mine.len() ==> !theirs.contains(#[trigger] mine[k]),
    ensures
        first_common(mine.push(f), theirs.push(f)) == Some(f),
    decreases mine.len(),
{
    let m2 = mine.push(f);
    let t2 = theirs.push(f);
    assert(t2[t2.len() - 1] == f);
    assert(t2.contains(f));
    if mine.len() > 0 {
        assert(m2[0] == mine[0]);
        if mine[0] != f {
            assert(!t2.contains(mine[0])) by {
                if t2.contains(mine[0]) {
                    let k = choose|k: int| 0 <= k < t2.len() && t2[k] == mine[0];
                    if k < theirs.len() {
                        assert(theirs[k] == mine[0]);
                        assert(theirs.contains(mine[0]));
                    }
                }
            }
            assert(m2.drop_first() == mine.drop_first().push(f));
            assert forall|k: int| 0 <= k < mine.drop_first().len() implies !theirs.contains(
                #[trigger] mine.drop_first()[k],
            ) by {
                assert(mine.drop_first()[k] == mine[k + 1]);
            }
            lemma_first_common_push(mine.drop_first(), theirs, f);
        }
    }
}

/// Two users with no conversation in common: a direct-conversation request
/// stores one new conversation with one membership row for each of them and
/// returns its id; asking again for the same pair returns that same id and
/// stores nothing more, whatever id a new conversation would have got.
pub proof fn lemma_direct_conversation_idempotent(
    rows: Seq<MemberRow>,
    a: u128,
    b: u128,
    fresh: u128,
    fresh_again: u128,
)
    requires
        a != b,
        first_common(ids_of(rows, a), ids_of(rows, b)) is None,
    ensures
        direct_outcome(rows, a, b, fresh).0 == fresh,
        direct_outcome(rows, a, b, fresh).1 == rows.push((fresh, a)).push((fresh, b)),
        direct_outcome(direct_outcome(rows, a, b, fresh).1, a, b, fresh_again) == direct_outcome(
            rows,
            a,
            b,
            fresh,
        ),
{
    let rows2 = rows.push((fresh, a)).push((fresh, b));
    assert(rows2.drop_last() == rows.push((fresh, a)));
    assert(rows.push((fresh, a)).drop_last() == rows);
    let rows1 = rows.push((fresh, a));
    assert(rows2.last() == (fresh, b));
    assert(rows1.last() == (fresh, a));
    assert(ids_of(rows1, a) == ids_of(rows, a).push(fresh));
    assert(ids_of(rows1, b) == ids_of(rows, b));
    assert(ids_of(rows2, a) == ids_of(rows1, a));
    assert(ids_of(rows2, b) == ids_of(rows1, b).push(fresh));
    lemma_first_common_none(ids_of(rows, a), ids_of(rows, b));
    lemma_first_common_push(ids_of(rows, a), ids_of(rows, b), fresh);
}

} // verus!
