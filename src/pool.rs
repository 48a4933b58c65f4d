//! Media pools: `/m/pool/list` and `/m/pool/assign`.
use vstd::prelude::*;
use crate::error::VelocityError;
use crate::json::{
    bool_field, i64_field, members_view, no_members, push_member, text_field, FromJson, Json,
    JsonValue,
};
use crate::session::{authorized_request, Velocity};
use crate::transport::{body_view, list_reply, reply_list, HttpReply, Method, Request};
use crate::{GID, MPID};

verus! {

/// `/m/pool/list - POST` Response structure
#[derive(Debug)]
pub struct MPoolListPOSTRes {
    pub mpid: MPID,
    pub name: String,
    pub write: bool,
    pub manage: bool,
}

impl FromJson for MPoolListPOSTRes {
    open spec fn json_decodes(j: Json) -> bool {
        &&& i64_field(j, "mpid"@) is Some
        &&& text_field(j, "name"@) is Some
        &&& bool_field(j, "write"@) is Some
        &&& bool_field(j, "manage"@) is Some
    }

    open spec fn json_describes(j: Json, v: MPoolListPOSTRes) -> bool {
        &&& i64_field(j, "mpid"@) == Some(v.mpid as int)
        &&& text_field(j, "name"@) == Some(v.name@)
        &&& bool_field(j, "write"@) == Some(v.write)
        &&& bool_field(j, "manage"@) == Some(v.manage)
    }

    fn from_json(j: &JsonValue) -> (r: Option<MPoolListPOSTRes>) {
        match (j.i64_member("mpid"), j.text_member("name"), j.bool_member("write"), j.bool_member("manage")) {
            (Some(mpid), Some(name), Some(write), Some(manage)) => Some(
                MPoolListPOSTRes { mpid, name, write, manage },
            ),
            _ => None,
        }
    }
}

/// The fields of an assignment of the pool `mpid` to the group `gid`.
pub open spec fn assign_fields(gid: GID, mpid: MPID, quota: u64, write: bool, manage: bool) -> Seq<
    (Seq<char>, Json),
> {
    seq![
        ("gid"@, Json::Number(gid as int)),
        ("mpid"@, Json::Number(mpid as int)),
        ("quota"@, Json::Number(quota as int)),
        ("write"@, Json::Bool(write)),
        ("manage"@, Json::Bool(manage)),
    ]
}

impl Velocity {
    /// The request that lists all pools assigned to the group with the provided `gid`
    ///
    /// To retrieve a list of all pools available, run this command against the
    /// `root` group (GID=0)
    /// # Arguments
    /// * `gid` - The group id of the group to look up
    pub fn pool_list(&self, gid: GID) -> (r: Result<Request, VelocityError>)
        ensures
            authorized_request(self@, r, Method::Post, "/m/pool/list"@, seq![("gid"@, Json::Number(gid as int))]),
    {
        let mut fields = no_members();
        push_member(&mut fields, "gid", JsonValue::Integer(gid as i128));
        self.authorized(Method::Post, "/m/pool/list", fields)
    }

    /// Reads the reply to `pool_list`: the pools under `pools`
    pub fn pool_list_reply(reply: HttpReply) -> (r: Result<Vec<MPoolListPOSTRes>, VelocityError>)
        ensures
            list_reply::<MPoolListPOSTRes>(reply.status, body_view(reply.body), "pools"@, r),
    {
        reply_list::<MPoolListPOSTRes>(reply, "pools")
    }

    /// The request that assigns a pool to a group
    /// # Arguments
    /// * `gid` - The group id of the group to assign to
    /// * `mpid` - The mediapool id of the pool to assign
    /// * `quota` - The quota in bytes for the assignment
    /// * `write` - If the group can write to pool media
    /// * `manage` - If the group can create, delete media and manage the pool
    pub fn pool_assign(&self, gid: GID, mpid: MPID, quota: u64, write: bool, manage: bool) -> (r:
        Result<Request, VelocityError>)
        ensures
            authorized_request(self@, r, Method::Put, "/m/pool/assign"@, assign_fields(gid, mpid, quota, write, manage)),
    {
        let mut fields = no_members();
        push_member(&mut fields, "gid", JsonValue::Integer(gid as i128));
        push_member(&mut fields, "mpid", JsonValue::Integer(mpid as i128));
        push_member(&mut fields, "quota", JsonValue::Integer(quota as i128));
        push_member(&mut fields, "write", JsonValue::Bool(write));
        push_member(&mut fields, "manage", JsonValue::Bool(manage));
        assert(members_view(fields@) =~= assign_fields(gid, mpid, quota, write, manage));
        self.authorized(Method::Put, "/m/pool/assign", fields)
    }

    /// The request that revokes all permissions of a group on a mediapool
    /// # Arguments
    /// * `gid` - The group id of the group to revoke from
    /// * `mpid` - The mediapool id of the pool to revoke
    pub fn pool_revoke(&self, gid: GID, mpid: MPID) -> (r: Result<Request, VelocityError>)
        ensures
            authorized_request(
                self@,
                r,
                Method::Delete,
                "/m/pool/assign"@,
                seq![("gid"@, Json::Number(gid as int)), ("mpid"@, Json::Number(mpid as int))],
            ),
    {
        let mut fields = no_members();
        push_member(&mut fields, "gid", JsonValue::Integer(gid as i128));
        push_member(&mut fields, "mpid", JsonValue::Integer(mpid as i128));
        assert(members_view(fields@) =~= seq![
            ("gid"@, Json::Number(gid as int)),
            ("mpid"@, Json::Number(mpid as int)),
        ]);
        self.authorized(Method::Delete, "/m/pool/assign", fields)
    }
}

} // verus!
