//! Memberships of users in clubs and the rules of the endpoints that manage them.
use crate::reply::{text_reply, Reply, Status};
use crate::stamp::Stamp;
use vstd::prelude::*;

verus! {

/// The highest permission level a member can have; the lowest is 0.
pub const MAX_PERMISSION_LEVEL: i32 = 2;

/// A membership as the record store holds it.
#[derive(Debug)]
pub struct Membership {
    pub id: i64,
    pub user_id: i64,
    pub club_id: i64,
    pub permission_level: i64,
    pub created_at: Stamp,
}

/// Body of the request that creates a membership.
#[derive(Debug)]
pub struct CreateMembershipParams {
    pub user_id: i64,
    pub club_id: i64,
    pub permission_level: i32,
}

impl CreateMembershipParams {
    /// Whether the permission level is one of 0, 1 and 2.
    pub open spec fn spec_is_valid(&self) -> bool {
        0 <= self.permission_level <= MAX_PERMISSION_LEVEL
    }

    /// Whether the permission level is one of 0, 1 and 2.
    #[verifier::when_used_as_spec(spec_is_valid)]
    pub fn is_valid(&self) -> (r: bool)
        ensures
            r == self.spec_is_valid(),
    {
        0 <= self.permission_level && self.permission_level <= MAX_PERMISSION_LEVEL
    }
}

/// What the creation of a membership answers before the store is asked: 400 where the
/// permission level is not one of 0, 1 and 2, else the request as it came.
pub fn create_membership(params: CreateMembershipParams) -> (r: Result<
    CreateMembershipParams,
    Reply<Membership>,
>)
    ensures
        match r {
            Ok(accepted) => params.spec_is_valid() && accepted == params,
            Err(reply) => !params.spec_is_valid() && reply.is_text(
                Status::BadRequest,
                "Permission level must be between 0 and 2"@,
            ),
        },
{
    if params.is_valid() {
        Ok(params)
    } else {
        Err(text_reply(Status::BadRequest, "Permission level must be between 0 and 2"))
    }
}

/// The answer to the creation of a membership once it is stored: the membership, under
/// 201.
pub fn create_membership_reply(membership: Membership) -> (reply: Reply<Membership>)
    ensures
        reply.is_json(Status::Created, membership),
{
    Reply::Json { status: Status::Created, value: membership }
}

/// The answer to the deletion of a membership, by the number of rows that went: 404 for
/// none, else 200.
pub fn delete_membership(rows_affected: u64) -> (reply: Reply<()>)
    ensures
        rows_affected == 0 ==> reply.is_text(Status::NotFound, "Membership not found"@),
        rows_affected > 0 ==> reply.is_text(Status::Success, "Membership deleted successfully"@),
{
    if rows_affected == 0 {
        text_reply(Status::NotFound, "Membership not found")
    } else {
        text_reply(Status::Success, "Membership deleted successfully")
    }
}

/// The answer to the request for one membership: the membership, or 404 where none was
/// found.
pub fn get_membership_by_id(found: Option<Membership>) -> (reply: Reply<Membership>)
    ensures
        match found {
            Some(membership) => reply.is_json(Status::Success, membership),
            None => reply.is_text(Status::NotFound, "Membership not found"@),
        },
{
    match found {
        Some(membership) => Reply::Json { status: Status::Success, value: membership },
        None => text_reply(Status::NotFound, "Membership not found"),
    }
}

} // verus!
