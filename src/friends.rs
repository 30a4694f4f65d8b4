use vstd::prelude::*;
use vstd::string::StringExecFns;
use crate::error::{is_error, ApiError, ApiErrorKind};

verus! {

/// What an add-friend request comes to, where it is granted.
pub enum FriendAction {
    /// The pending row between the two users becomes accepted.
    AcceptPending,
    /// A new row is stored, already accepted, with the smaller id first.
    Insert { user_a: u128, user_b: u128 },
}

/// The two users of a friendship row: the smaller id first.
pub open spec fn ordered(a: u128, b: u128) -> (u128, u128) {
    if a < b {
        (a, b)
    } else {
        (b, a)
    }
}

/// Orders two user ids as a friendship row stores them.
pub fn ordered_pair(a: u128, b: u128) -> (r: (u128, u128))
    ensures
        r == ordered(a, b),
{
    if a < b {
        (a, b)
    } else {
        (b, a)
    }
}

/// The friends named by friendship rows of a user: the second user of each
/// row where the user stands first, then the first user of each row where
/// the user stands second, each list in its order.
pub open spec fn friends_in(as_first: Seq<(u128, u128)>, as_second: Seq<(u128, u128)>) -> Seq<u128> {
    as_first.map_values(|r: (u128, u128)| r.1) + as_second.map_values(|r: (u128, u128)| r.0)
}

/// Lists the other user of each friendship row: `as_first` holds the rows in
/// which the user is `user_a`, `as_second` those in which it is `user_b`.
pub fn other_users(as_first: &Vec<(u128, u128)>, as_second: &Vec<(u128, u128)>) -> (r: Vec<u128>)
    ensures
        r@ == friends_in(as_first@, as_second@),
{
    let mut out: Vec<u128> = Vec::new();
    let mut i: usize = 0;
    while i < as_first.len()
        invariant
            i <= as_first@.len(),
            out@ == as_first@.take(i as int).map_values(|r: (u128, u128)| r.1),
        decreases as_first@.len() - i,
    {
        out.push(as_first[i].1);
        assert(as_first@.take(i as int + 1) == as_first@.take(i as int).push(as_first@[i as int]));
        i = i + 1;
    }
    assert(as_first@.take(as_first@.len() as int) == as_first@);
    let mut j: usize = 0;
    while j < as_second.len()
        invariant
            j <= as_second@.len(),
            out@ == as_first@.map_values(|r: (u128, u128)| r.1) + as_second@.take(j as int).map_values(
                |r: (u128, u128)| r.0,
            ),
        decreases as_second@.len() - j,
    {
        out.push(as_second[j].0);
        assert(as_second@.take(j as int + 1) == as_second@.take(j as int).push(as_second@[j as int]));
        j = j + 1;
    }
    assert(as_second@.take(as_second@.len() as int) == as_second@);
    out
}

/// The outcome of an add-friend request from `me` to `friend`, where
/// `friend_exists` says whether the friend has a profile and `existing` is
/// the status of the row that the two already share, if any: success, or
/// the kind and message of the error.
pub open spec fn friend_outcome(
    me: u128,
    friend: u128,
    friend_exists: bool,
    existing: Option<Seq<char>>,
) -> Result<(), (ApiErrorKind, Seq<char>)> {
    if me == friend {
        Err((ApiErrorKind::BadRequest, "You cannot add yourself as a friend"@))
    } else if !friend_exists {
        Err((ApiErrorKind::NotFound, "User not found"@))
    } else {
        match existing {
            None => Ok(()),
            Some(st) => if st == "accepted"@ {
                Err((ApiErrorKind::BadRequest, "You are already friends"@))
            } else if st == "pending"@ {
                Ok(())
            } else if st == "blocked"@ {
                Err((ApiErrorKind::BadRequest, "This friendship is blocked"@))
            } else {
                Err((ApiErrorKind::Internal, "Unknown friend status: "@ + st))
            },
        }
    }
}

/// Decides an add-friend request. Friend requests are accepted at once: a
/// pending row becomes accepted, and where there is no row a new accepted one
/// is stored.
pub fn decide_friend_request(
    me: u128,
    friend: u128,
    friend_exists: bool,
    existing: Option<String>,
) -> (r: Result<FriendAction, ApiError>)
    ensures
        match (r, friend_outcome(
            me,
            friend,
            friend_exists,
            match existing {
                Some(s) => Some(s@),
                None => None,
            },
        )) {
            (Ok(_), Ok(_)) => true,
            (Err(e), Err((k, m))) => is_error(e, k, m),
            _ => false,
        },
        r is Ok ==> (r->Ok_0 is AcceptPending <==> existing is Some),
        r is Ok && existing is None ==> r->Ok_0 == (FriendAction::Insert {
            user_a: ordered(me, friend).0,
            user_b: ordered(me, friend).1,
        }),
{
    if me == friend {
        return Err(ApiError::bad_request("You cannot add yourself as a friend"));
    }
    if !friend_exists {
        return Err(ApiError::NotFound(String::from_str("User not found")));
    }
    match existing {
        None => {
            let (user_a, user_b) = ordered_pair(me, friend);
            Ok(FriendAction::Insert { user_a, user_b })
        },
        Some(status) => {
            if status == String::from_str("accepted") {
                Err(ApiError::bad_request("You are already friends"))
            } else if status == String::from_str("pending") {
                Ok(FriendAction::AcceptPending)
            } else if status == String::from_str("blocked") {
                Err(ApiError::bad_request("This friendship is blocked"))
            } else {
                Err(
                    ApiError::Internal(
                        String::from_str("Unknown friend status: ").concat(status.as_str()),
                    ),
                )
            }
        },
    }
}

} // verus!
