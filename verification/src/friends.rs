//! Rules of friend requests: who may send, accept and withdraw one, and what
//! a refused insert means.
use vstd::prelude::*;
use vstd::string::*;
use crate::errors::AppError;
use crate::models::Id;

verus! {

/// How a database statement failed, as far as the rules read it.
#[derive(Clone, Debug, PartialEq, Eq)]
pub enum DbFailure {
    /// The database refused the statement; the violated constraint, if any.
    Database { constraint: Option<String> },
    /// Any other failure (connection, protocol, decoding).
    Other,
}

/// Which of a user's pending friend requests to list.
#[derive(Clone, Copy, Debug, PartialEq, Eq, Structural)]
pub enum FriendRequestType {
    /// Requests the user sent; each row names the receiver.
    Sent,
    /// Requests the user received; each row names the sender.
    Received,
}

/// The two users of a stored friend request.
#[derive(Clone, Copy, Debug, PartialEq, Eq, Structural)]
pub struct FriendRequestRowInternal {
    pub sender_id: Id,
    pub receiver_id: Id,
}

/// Text of the refusal of a request to oneself.
pub open spec fn self_request_message() -> Seq<char> {
    "Cannot send request to same ID!"@
}

/// Text of the refusal of a second request between the same two users.
pub open spec fn duplicate_request_message() -> Seq<char> {
    "A friend request already exists between these users."@
}

/// Text of the answer for an unknown request.
pub open spec fn unknown_request_message() -> Seq<char> {
    "Could not find this friend request!"@
}

/// A user cannot send a friend request to itself.
pub fn check_friend_request(sender_id: Id, receiver_id: Id) -> (checked: Result<(), AppError>)
    ensures
        checked is Ok <==> sender_id != receiver_id,
        checked matches Err(e) ==> (e matches AppError::BadRequest(msg) && msg@
            == self_request_message()),
{
    if sender_id == receiver_id {
        return Err(AppError::BadRequest(String::from_str("Cannot send request to same ID!")));
    }
    Ok(())
}

/// Whether `constraint` names the one-request-per-pair rule.
pub open spec fn is_pair_constraint(constraint: Option<String>) -> bool {
    constraint matches Some(c) && c@ == "unique_friend_pair"@
}

/// What a failed friend-request insert answers: a second request between
/// the same pair is a `BadRequest`, anything else a database error.
pub fn friend_request_insert_failure(failure: DbFailure) -> (error: AppError)
    ensures
        (failure matches DbFailure::Database { constraint } && is_pair_constraint(constraint))
            ==> (error matches AppError::BadRequest(msg) && msg@ == duplicate_request_message()),
        !(failure matches DbFailure::Database { constraint } && is_pair_constraint(constraint))
            ==> error == AppError::Database,
{
    match failure {
        DbFailure::Database { constraint: Some(c) } => {
            let pair = String::from_str("unique_friend_pair");
            if c == pair {
                AppError::BadRequest(
                    String::from_str("A friend request already exists between these users."),
                )
            } else {
                AppError::Database
            }
        },
        _ => AppError::Database,
    }
}

/// Only the receiver of a request may accept it. Returns the sender, who
/// becomes the user's friend.
pub fn authorize_accept(request: Option<FriendRequestRowInternal>, current_user_id: Id) -> (sender: Result<
    Id,
    AppError,
>)
    ensures
        request is None ==> (sender matches Err(AppError::NotFound(msg)) && msg@
            == unknown_request_message()),
        request matches Some(r) ==> (!may_accept(r, current_user_id) ==> sender == Err::<
            Id,
            AppError,
        >(AppError::Forbidden)),
        request matches Some(r) ==> (may_accept(r, current_user_id) ==> sender == Ok::<
            Id,
            AppError,
        >(r.sender_id)),
{
    let r = match request {
        Some(r) => r,
        None => {
            return Err(AppError::NotFound(String::from_str("Could not find this friend request!")));
        },
    };
    if r.receiver_id != current_user_id {
        return Err(AppError::Forbidden);
    }
    Ok(r.sender_id)
}

/// Either user of a request may withdraw or decline it.
pub fn authorize_delete(request: Option<FriendRequestRowInternal>, current_user_id: Id) -> (allowed: Result<
    (),
    AppError,
>)
    ensures
        request is None ==> (allowed matches Err(AppError::NotFound(msg)) && msg@
            == unknown_request_message()),
        request matches Some(r) ==> (allowed is Ok <==> may_delete(r, current_user_id)),
        request matches Some(r) ==> (allowed is Err ==> allowed == Err::<(), AppError>(
            AppError::Forbidden,
        )),
{
    let r = match request {
        Some(r) => r,
        None => {
            return Err(AppError::NotFound(String::from_str("Could not find this friend request!")));
        },
    };
    if r.sender_id != current_user_id && r.receiver_id != current_user_id {
        return Err(AppError::Forbidden);
    }
    Ok(())
}

/// Whether a listing of `kind` selects requests by their sender (and names
/// the receiver in each row) rather than by their receiver.
pub fn lists_by_sender(kind: FriendRequestType) -> (by_sender: bool)
    ensures
        by_sender <==> kind == FriendRequestType::Sent,
{
    match kind {
        FriendRequestType::Sent => true,
        FriendRequestType::Received => false,
    }
}

/// Whether `user` may accept `request`.
pub open spec fn may_accept(request: FriendRequestRowInternal, user: Id) -> bool {
    request.receiver_id == user
}

/// Whether `user` may withdraw or decline `request`.
pub open spec fn may_delete(request: FriendRequestRowInternal, user: Id) -> bool {
    request.sender_id == user || request.receiver_id == user
}

/// Whoever may accept a request may also decline it, and the sender, who may
/// withdraw it, may not accept it (unless it is addressed to itself, which
/// the send rule forbids).
pub proof fn law_accept_implies_delete(request: FriendRequestRowInternal, user: Id)
    ensures
        may_accept(request, user) ==> may_delete(request, user),
        request.sender_id != request.receiver_id && user == request.sender_id ==> !may_accept(
            request,
            user,
        ),
{
}

/// A user who is neither party of a request can neither accept nor delete it.
pub proof fn law_outsiders_cannot_touch(request: FriendRequestRowInternal, user: Id)
    requires
        user != request.sender_id,
        user != request.receiver_id,
    ensures
        !may_accept(request, user),
        !may_delete(request, user),
{
}

} // verus!
