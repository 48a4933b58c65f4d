//! Groups: `/u/group` and `/u/group/list`.
use vstd::prelude::*;
use crate::error::VelocityError;
use crate::json::{
    i64_field, list_field_decodes, list_field_describes, members_view, no_members, push_member,
    text, text_field, FromJson, Json, JsonValue,
};
use crate::session::{authorized_request, Velocity};
use crate::transport::{body_view, list_reply, reply_list, HttpReply, Method, Request};
use crate::text::{decimal_i64, signed_decimal};
use crate::user::{permission_lines, push_permission_lines, Permission};
use crate::{GID, UID};

verus! {

/// Describes the membership of a user in a group
#[derive(Debug)]
pub struct GroupMembership {
    pub uid: UID,
    pub name: String,
    pub permissions: Vec<Permission>,
}

impl FromJson for GroupMembership {
    open spec fn json_decodes(j: Json) -> bool {
        &&& i64_field(j, "uid"@) is Some
        &&& text_field(j, "name"@) is Some
        &&& list_field_decodes::<Permission>(j, "permissions"@)
    }

    open spec fn json_describes(j: Json, v: GroupMembership) -> bool {
        &&& i64_field(j, "uid"@) == Some(v.uid as int)
        &&& text_field(j, "name"@) == Some(v.name@)
        &&& list_field_describes::<Permission>(j, "permissions"@, v.permissions@)
    }

    fn from_json(j: &JsonValue) -> (r: Option<GroupMembership>) {
        match (j.i64_member("uid"), j.text_member("name"), j.list_member::<Permission>("permissions")) {
            (Some(uid), Some(name), Some(permissions)) => Some(GroupMembership { uid, name, permissions }),
            _ => None,
        }
    }
}

/// A struct providing information about a group
#[derive(Debug)]
pub struct GroupInfo {
    pub name: String,
    pub gid: GID,
    pub parent_gid: GID,
    pub memberships: Vec<GroupMembership>,
}

impl FromJson for GroupInfo {
    open spec fn json_decodes(j: Json) -> bool {
        &&& text_field(j, "name"@) is Some
        &&& i64_field(j, "gid"@) is Some
        &&& i64_field(j, "parent_gid"@) is Some
        &&& list_field_decodes::<GroupMembership>(j, "memberships"@)
    }

    open spec fn json_describes(j: Json, v: GroupInfo) -> bool {
        &&& text_field(j, "name"@) == Some(v.name@)
        &&& i64_field(j, "gid"@) == Some(v.gid as int)
        &&& i64_field(j, "parent_gid"@) == Some(v.parent_gid as int)
        &&& list_field_describes::<GroupMembership>(j, "memberships"@, v.memberships@)
    }

    fn from_json(j: &JsonValue) -> (r: Option<GroupInfo>) {
        match (
            j.text_member("name"),
            j.i64_member("gid"),
            j.i64_member("parent_gid"),
            j.list_member::<GroupMembership>("memberships"),
        ) {
            (Some(name), Some(gid), Some(parent_gid), Some(memberships)) => Some(
                GroupInfo { name, gid, parent_gid, memberships },
            ),
            _ => None,
        }
    }
}

/// `/u/group - PUT` Response structure
#[derive(Debug)]
pub struct UGroupPUTRes {
    pub gid: GID,
    pub parent_gid: GID,
    pub name: String,
}

impl FromJson for UGroupPUTRes {
    open spec fn json_decodes(j: Json) -> bool {
        &&& i64_field(j, "gid"@) is Some
        &&& i64_field(j, "parent_gid"@) is Some
        &&& text_field(j, "name"@) is Some
    }

    open spec fn json_describes(j: Json, v: UGroupPUTRes) -> bool {
        &&& i64_field(j, "gid"@) == Some(v.gid as int)
        &&& i64_field(j, "parent_gid"@) == Some(v.parent_gid as int)
        &&& text_field(j, "name"@) == Some(v.name@)
    }

    fn from_json(j: &JsonValue) -> (r: Option<UGroupPUTRes>) {
        match (j.i64_member("gid"), j.i64_member("parent_gid"), j.text_member("name")) {
            (Some(gid), Some(parent_gid), Some(name)) => Some(UGroupPUTRes { gid, parent_gid, name }),
            _ => None,
        }
    }
}

/// `/u/group/list - POST` Response structure
#[derive(Debug)]
pub struct UGroupListPOSTRes {
    pub name: String,
    pub gid: GID,
    pub parent_gid: GID,
    pub permissions: Vec<Permission>,
}

impl FromJson for UGroupListPOSTRes {
    open spec fn json_decodes(j: Json) -> bool {
        &&& text_field(j, "name"@) is Some
        &&& i64_field(j, "gid"@) is Some
        &&& i64_field(j, "parent_gid"@) is Some
        &&& list_field_decodes::<Permission>(j, "permissions"@)
    }

    open spec fn json_describes(j: Json, v: UGroupListPOSTRes) -> bool {
        &&& text_field(j, "name"@) == Some(v.name@)
        &&& i64_field(j, "gid"@) == Some(v.gid as int)
        &&& i64_field(j, "parent_gid"@) == Some(v.parent_gid as int)
        &&& list_field_describes::<Permission>(j, "permissions"@, v.permissions@)
    }

    fn from_json(j: &JsonValue) -> (r: Option<UGroupListPOSTRes>) {
        match (
            j.text_member("name"),
            j.i64_member("gid"),
            j.i64_member("parent_gid"),
            j.list_member::<Permission>("permissions"),
        ) {
            (Some(name), Some(gid), Some(parent_gid), Some(permissions)) => Some(
                UGroupListPOSTRes { name, gid, parent_gid, permissions },
            ),
            _ => None,
        }
    }
}

/// The fields of a request that names a group.
pub open spec fn gid_fields(gid: GID) -> Seq<(Seq<char>, Json)> {
    seq![("gid"@, Json::Number(gid as int))]
}

fn gid_members(gid: GID) -> (r: Vec<(String, JsonValue)>)
    ensures
        members_view(r@) == gid_fields(gid),
{
    let mut fields = no_members();
    push_member(&mut fields, "gid", JsonValue::Integer(gid as i128));
    fields
}

impl Velocity {
    /// The request that provides group information
    /// # Arguments
    /// * `gid` - The group id of the group to inform about
    pub fn group_info(&self, gid: GID) -> (r: Result<Request, VelocityError>)
        ensures
            authorized_request(self@, r, Method::Post, "/u/group"@, gid_fields(gid)),
    {
        self.authorized(Method::Post, "/u/group", gid_members(gid))
    }

    /// The request that creates a new group within the Velocity system
    /// # Arguments
    /// * `parent_gid` - The `gid` of the parent group this new group should be a part of
    /// * `name` - A unique name for the new group within the parent group
    pub fn group_create(&self, parent_gid: GID, name: &str) -> (r: Result<Request, VelocityError>)
        ensures
            authorized_request(
                self@,
                r,
                Method::Put,
                "/u/group"@,
                seq![("name"@, Json::Text(name@)), ("parent_gid"@, Json::Number(parent_gid as int))],
            ),
    {
        let mut fields = no_members();
        push_member(&mut fields, "name", text(name));
        push_member(&mut fields, "parent_gid", JsonValue::Integer(parent_gid as i128));
        assert(members_view(fields@) =~= seq![
            ("name"@, Json::Text(name@)),
            ("parent_gid"@, Json::Number(parent_gid as int)),
        ]);
        self.authorized(Method::Put, "/u/group", fields)
    }

    /// The request that removes a group from the Velocity system
    /// # Arguments
    /// * `gid` - The `gid` of the group to remove
    pub fn group_remove(&self, gid: GID) -> (r: Result<Request, VelocityError>)
        ensures
            authorized_request(self@, r, Method::Delete, "/u/group"@, gid_fields(gid)),
    {
        self.authorized(Method::Delete, "/u/group", gid_members(gid))
    }

    /// The request that lists all groups visible to the current user
    pub fn group_list(&self) -> (r: Result<Request, VelocityError>)
        ensures
            authorized_request(self@, r, Method::Post, "/u/group/list"@, seq![]),
    {
        self.authorized(Method::Post, "/u/group/list", no_members())
    }

    /// Reads the reply to `group_list`: the groups under `groups`
    pub fn group_list_reply(reply: HttpReply) -> (r: Result<Vec<UGroupListPOSTRes>, VelocityError>)
        ensures
            list_reply::<UGroupListPOSTRes>(reply.status, body_view(reply.body), "groups"@, r),
    {
        reply_list::<UGroupListPOSTRes>(reply, "groups")
    }
}

/// The line that heads a membership of a user in a group.
pub open spec fn group_membership_line(m: GroupMembership) -> Seq<char> {
    " - User '"@ + m.name@ + "' ("@ + signed_decimal(m.uid as int) + "):\n"@
}

/// The lines that list the memberships `ms` with their permissions.
pub open spec fn group_membership_lines(ms: Seq<GroupMembership>) -> Seq<char>
    decreases ms.len(),
{
    if ms.len() == 0 {
        Seq::empty()
    } else {
        group_membership_lines(ms.drop_last()) + group_membership_line(ms.last())
            + permission_lines(ms.last().permissions@)
    }
}

/// How group information reads.
pub open spec fn group_info_text(g: GroupInfo) -> Seq<char> {
    "Memberships for group '"@ + g.name@ + "' ("@ + signed_decimal(g.gid as int) + ", parent: "@
        + signed_decimal(g.parent_gid as int) + ")\n"@ + group_membership_lines(g.memberships@)
}

impl GroupInfo {
    /// The members of this group, one line per user followed by a line per
    /// permission
    pub fn describe(&self) -> (r: String)
        ensures
            r@ == group_info_text(*self),
    {
        let mut out = "Memberships for group '".to_owned();
        out.append(self.name.as_str());
        out.append("' (");
        out.append(decimal_i64(self.gid).as_str());
        out.append(", parent: ");
        out.append(decimal_i64(self.parent_gid).as_str());
        out.append(")\n");
        let ghost head = out@;
        let ms = &self.memberships;
        let mut i: usize = 0;
        while i < ms.len()
            invariant
                0 <= i <= ms@.len(),
                ms == self.memberships,
                out@ == head + group_membership_lines(ms@.subrange(0, i as int)),
            decreases ms@.len() - i,
        {
            let m = &ms[i];
            out.append(" - User '");
            out.append(m.name.as_str());
            out.append("' (");
            out.append(decimal_i64(m.uid).as_str());
            out.append("):\n");
            push_permission_lines(&mut out, &m.permissions);
            proof {
                let next = ms@.subrange(0, i + 1);
                assert(next.drop_last() =~= ms@.subrange(0, i as int));
                assert(next.last() == ms@[i as int]);
            }
            i = i + 1;
        }
        assert(ms@.subrange(0, ms@.len() as int) =~= ms@);
        out
    }
}

} // verus!
