//! Users: `/u/user`, `/u/user/list` and `/u/user/permission`.
use vstd::prelude::*;
use crate::error::VelocityError;
use crate::json::{
    i64_field, list_field_decodes, list_field_describes, no_members, push_member, text,
    text_field, FromJson, Json, JsonValue,
};
use crate::session::{authorized_request, Velocity};
use crate::transport::{body_view, list_reply, reply_spec, reply_list, reply_value, HttpReply, Method, Request};
use crate::text::{decimal_i64, signed_decimal};
use crate::{GID, PID, UID};

verus! {

/// A permission
#[derive(Debug)]
pub struct Permission {
    pub pid: PID,
    pub name: String,
    pub description: String,
}

impl FromJson for Permission {
    open spec fn json_decodes(j: Json) -> bool {
        &&& i64_field(j, "pid"@) is Some
        &&& text_field(j, "name"@) is Some
        &&& text_field(j, "description"@) is Some
    }

    open spec fn json_describes(j: Json, v: Permission) -> bool {
        &&& i64_field(j, "pid"@) == Some(v.pid as int)
        &&& text_field(j, "name"@) == Some(v.name@)
        &&& text_field(j, "description"@) == Some(v.description@)
    }

    fn from_json(j: &JsonValue) -> (r: Option<Permission>) {
        match (j.i64_member("pid"), j.text_member("name"), j.text_member("description")) {
            (Some(pid), Some(name), Some(description)) => Some(Permission { pid, name, description }),
            _ => None,
        }
    }
}

/// Describes a membership of a user in a group
#[derive(Debug)]
pub struct Membership {
    pub gid: GID,
    pub parent_gid: GID,
    pub name: String,
    pub permissions: Vec<Permission>,
}

impl FromJson for Membership {
    open spec fn json_decodes(j: Json) -> bool {
        &&& i64_field(j, "gid"@) is Some
        &&& i64_field(j, "parent_gid"@) is Some
        &&& text_field(j, "name"@) is Some
        &&& list_field_decodes::<Permission>(j, "permissions"@)
    }

    open spec fn json_describes(j: Json, v: Membership) -> bool {
        &&& i64_field(j, "gid"@) == Some(v.gid as int)
        &&& i64_field(j, "parent_gid"@) == Some(v.parent_gid as int)
        &&& text_field(j, "name"@) == Some(v.name@)
        &&& list_field_describes::<Permission>(j, "permissions"@, v.permissions@)
    }

    fn from_json(j: &JsonValue) -> (r: Option<Membership>) {
        match (
            j.i64_member("gid"),
            j.i64_member("parent_gid"),
            j.text_member("name"),
            j.list_member::<Permission>("permissions"),
        ) {
            (Some(gid), Some(parent_gid), Some(name), Some(permissions)) => Some(
                Membership { gid, parent_gid, name, permissions },
            ),
            _ => None,
        }
    }
}

/// A struct providing information about a user
#[derive(Debug)]
pub struct UserInfo {
    pub uid: UID,
    pub name: String,
    pub memberships: Vec<Membership>,
}

impl FromJson for UserInfo {
    open spec fn json_decodes(j: Json) -> bool {
        &&& i64_field(j, "uid"@) is Some
        &&& text_field(j, "name"@) is Some
        &&& list_field_decodes::<Membership>(j, "memberships"@)
    }

    open spec fn json_describes(j: Json, v: UserInfo) -> bool {
        &&& i64_field(j, "uid"@) == Some(v.uid as int)
        &&& text_field(j, "name"@) == Some(v.name@)
        &&& list_field_describes::<Membership>(j, "memberships"@, v.memberships@)
    }

    fn from_json(j: &JsonValue) -> (r: Option<UserInfo>) {
        match (j.i64_member("uid"), j.text_member("name"), j.list_member::<Membership>("memberships")) {
            (Some(uid), Some(name), Some(memberships)) => Some(UserInfo { uid, name, memberships }),
            _ => None,
        }
    }
}

/// `/u/user - PUT` Response structure
#[derive(Debug)]
pub struct UUserPUTRes {
    pub uid: UID,
    pub name: String,
}

impl FromJson for UUserPUTRes {
    open spec fn json_decodes(j: Json) -> bool {
        &&& i64_field(j, "uid"@) is Some
        &&& text_field(j, "name"@) is Some
    }

    open spec fn json_describes(j: Json, v: UUserPUTRes) -> bool {
        &&& i64_field(j, "uid"@) == Some(v.uid as int)
        &&& text_field(j, "name"@) == Some(v.name@)
    }

    fn from_json(j: &JsonValue) -> (r: Option<UUserPUTRes>) {
        match (j.i64_member("uid"), j.text_member("name")) {
            (Some(uid), Some(name)) => Some(UUserPUTRes { uid, name }),
            _ => None,
        }
    }
}

/// `/u/user/list - POST` Response structure
#[derive(Debug)]
pub struct UUserListPOSTRes {
    pub uid: UID,
    pub name: String,
}

impl FromJson for UUserListPOSTRes {
    open spec fn json_decodes(j: Json) -> bool {
        &&& i64_field(j, "uid"@) is Some
        &&& text_field(j, "name"@) is Some
    }

    open spec fn json_describes(j: Json, v: UUserListPOSTRes) -> bool {
        &&& i64_field(j, "uid"@) == Some(v.uid as int)
        &&& text_field(j, "name"@) == Some(v.name@)
    }

    fn from_json(j: &JsonValue) -> (r: Option<UUserListPOSTRes>) {
        match (j.i64_member("uid"), j.text_member("name")) {
            (Some(uid), Some(name)) => Some(UUserListPOSTRes { uid, name }),
            _ => None,
        }
    }
}

/// The JSON value of an optional id: the number, or `null`.
pub open spec fn optional_id(id: Option<i64>) -> Json {
    match id {
        Some(n) => Json::Number(n as int),
        None => Json::Null,
    }
}

impl Velocity {
    /// The request that creates a new user with the provided credentials
    /// # Arguments
    /// * `username` - The unique username to use for the newly created user
    /// * `password` - The password to use for the newly created user
    pub fn user_create(&self, username: &str, password: &str) -> (r: Result<Request, VelocityError>)
        ensures
            authorized_request(
                self@,
                r,
                Method::Put,
                "/u/user"@,
                seq![("name"@, Json::Text(username@)), ("password"@, Json::Text(password@))],
            ),
    {
        let mut fields = no_members();
        push_member(&mut fields, "name", text(username));
        push_member(&mut fields, "password", text(password));
        assert(crate::json::members_view(fields@) =~= seq![
            ("name"@, Json::Text(username@)),
            ("password"@, Json::Text(password@)),
        ]);
        self.authorized(Method::Put, "/u/user", fields)
    }

    /// Reads the reply to `user_create`
    /// # Return
    /// The `uid` of the new user
    pub fn user_create_reply(reply: HttpReply) -> (r: Result<UID, VelocityError>)
        ensures
            reply_spec(
                reply.status,
                body_view(reply.body),
                r,
                |j: Json| UUserPUTRes::json_decodes(j),
                |j: Json, uid: UID| i64_field(j, "uid"@) == Some(uid as int),
            ),
    {
        match reply_value::<UUserPUTRes>(reply) {
            Ok(created) => Ok(created.uid),
            Err(e) => Err(e),
        }
    }

    /// The request that removes the user with the supplied user id
    /// # Arguments
    /// * `uid` - The `uid` of the user to remove
    pub fn user_remove(&self, uid: UID) -> (r: Result<Request, VelocityError>)
        ensures
            authorized_request(self@, r, Method::Delete, "/u/user"@, seq![("uid"@, Json::Number(uid as int))]),
    {
        let mut fields = no_members();
        push_member(&mut fields, "uid", JsonValue::Integer(uid as i128));
        self.authorized(Method::Delete, "/u/user", fields)
    }

    /// The request that retrieves information about a user
    /// # Arguments
    /// * `uid` - The `uid`, or None for the user that is authenticated by the current authkey
    pub fn user_info(&self, uid: Option<UID>) -> (r: Result<Request, VelocityError>)
        ensures
            authorized_request(self@, r, Method::Post, "/u/user"@, seq![("uid"@, optional_id(uid))]),
    {
        let mut fields = no_members();
        let id = match uid {
            Some(n) => JsonValue::Integer(n as i128),
            None => JsonValue::Null,
        };
        push_member(&mut fields, "uid", id);
        self.authorized(Method::Post, "/u/user", fields)
    }

    /// The request that lists all users on a velocity instance
    pub fn user_list(&self) -> (r: Result<Request, VelocityError>)
        ensures
            authorized_request(self@, r, Method::Post, "/u/user/list"@, seq![]),
    {
        self.authorized(Method::Post, "/u/user/list", no_members())
    }

    /// Reads the reply to `user_list`: the users under `users`
    pub fn user_list_reply(reply: HttpReply) -> (r: Result<Vec<UUserListPOSTRes>, VelocityError>)
        ensures
            list_reply::<UUserListPOSTRes>(reply.status, body_view(reply.body), "users"@, r),
    {
        reply_list::<UUserListPOSTRes>(reply, "users")
    }

    /// The request that adds a permission to a user on a group
    /// # Arguments
    /// * `gid` - The group to permit on
    /// * `uid` - The user to permit
    /// * `permission` - The permission string to permit
    pub fn user_add_permission(&self, gid: GID, uid: UID, permission: &str) -> (r: Result<
        Request,
        VelocityError,
    >)
        ensures
            authorized_request(self@, r, Method::Put, "/u/user/permission"@, permission_fields(gid, uid, permission@)),
    {
        self.authorized(Method::Put, "/u/user/permission", Self::permission_members(gid, uid, permission))
    }

    /// The request that revokes a permission of a user on a group
    /// # Arguments
    /// * `gid` - The group to revoke from
    /// * `uid` - The user to revoke the permission from
    /// * `permission` - The permission string to revoke
    pub fn user_revoke_permission(&self, gid: GID, uid: UID, permission: &str) -> (r: Result<
        Request,
        VelocityError,
    >)
        ensures
            authorized_request(self@, r, Method::Delete, "/u/user/permission"@, permission_fields(gid, uid, permission@)),
    {
        self.authorized(Method::Delete, "/u/user/permission", Self::permission_members(gid, uid, permission))
    }

    fn permission_members(gid: GID, uid: UID, permission: &str) -> (r: Vec<(String, JsonValue)>)
        ensures
            crate::json::members_view(r@) == permission_fields(gid, uid, permission@),
    {
        let mut fields = no_members();
        push_member(&mut fields, "gid", JsonValue::Integer(gid as i128));
        push_member(&mut fields, "uid", JsonValue::Integer(uid as i128));
        push_member(&mut fields, "permission", text(permission));
        fields
    }
}

/// The fields of a request on `/u/user/permission`.
pub open spec fn permission_fields(gid: GID, uid: UID, permission: Seq<char>) -> Seq<(Seq<char>, Json)> {
    seq![
        ("gid"@, Json::Number(gid as int)),
        ("uid"@, Json::Number(uid as int)),
        ("permission"@, Json::Text(permission)),
    ]
}

/// `s` padded with spaces on the right to two characters at least.
pub open spec fn pad2(s: Seq<char>) -> Seq<char> {
    if s.len() >= 2 {
        s
    } else {
        s + Seq::new((2 - s.len()) as nat, |i: int| ' ')
    }
}

/// The line that lists a permission.
pub open spec fn permission_line(p: Permission) -> Seq<char> {
    "   |- Permission ["@ + pad2(signed_decimal(p.pid as int)) + "] '"@ + p.name@ + "'\n"@
}

/// The lines that list the permissions `ps`, in order.
pub open spec fn permission_lines(ps: Seq<Permission>) -> Seq<char>
    decreases ps.len(),
{
    if ps.len() == 0 {
        Seq::empty()
    } else {
        permission_lines(ps.drop_last()) + permission_line(ps.last())
    }
}

/// The line that heads a membership of a user in a group.
pub open spec fn membership_line(m: Membership) -> Seq<char> {
    " - Group '"@ + m.name@ + "' ("@ + signed_decimal(m.gid as int) + "):\n"@
}

/// The lines that list the memberships `ms` with their permissions.
pub open spec fn membership_lines(ms: Seq<Membership>) -> Seq<char>
    decreases ms.len(),
{
    if ms.len() == 0 {
        Seq::empty()
    } else {
        membership_lines(ms.drop_last()) + membership_line(ms.last()) + permission_lines(
            ms.last().permissions@,
        )
    }
}

/// How user information reads.
pub open spec fn user_info_text(u: UserInfo) -> Seq<char> {
    "Memberships for user '"@ + u.name@ + "' ("@ + signed_decimal(u.uid as int) + ")\n"@
        + membership_lines(u.memberships@)
}

/// `s` padded with spaces on the right to two characters at least.
fn pad_two(s: String) -> (r: String)
    ensures
        r@ == pad2(s@),
{
    let mut r = s;
    proof {
        reveal_strlit(" ");
    }
    if r.unicode_len() < 2 {
        let ghost before = r@;
        let n = r.unicode_len();
        let mut k: usize = n;
        while k < 2
            invariant
                n <= k <= 2,
                n == before.len(),
                r@ == before + Seq::new((k - n) as nat, |i: int| ' '),
            decreases 2 - k,
        {
            r.append(" ");
            proof {
                reveal_strlit(" ");
                assert(" "@ == seq![' ']);
            }
            assert(r@ =~= before + Seq::new((k + 1 - n) as nat, |i: int| ' '));
            k = k + 1;
        }
    }
    r
}

/// Appends the lines that list the permissions `ps`.
pub fn push_permission_lines(out: &mut String, ps: &Vec<Permission>)
    ensures
        final(out)@ == old(out)@ + permission_lines(ps@),
{
    let mut i: usize = 0;
    while i < ps.len()
        invariant
            0 <= i <= ps@.len(),
            out@ == old(out)@ + permission_lines(ps@.subrange(0, i as int)),
        decreases ps@.len() - i,
    {
        let p = &ps[i];
        out.append("   |- Permission [");
        out.append(pad_two(decimal_i64(p.pid)).as_str());
        out.append("] '");
        out.append(p.name.as_str());
        out.append("'\n");
        proof {
            let next = ps@.subrange(0, i + 1);
            assert(next.drop_last() =~= ps@.subrange(0, i as int));
            assert(next.last() == ps@[i as int]);
        }
        i = i + 1;
    }
    assert(ps@.subrange(0, ps@.len() as int) =~= ps@);
}

impl UserInfo {
    /// The memberships of this user, one line per group followed by a line
    /// per permission
    pub fn describe(&self) -> (r: String)
        ensures
            r@ == user_info_text(*self),
    {
        let mut out = "Memberships for user '".to_owned();
        out.append(self.name.as_str());
        out.append("' (");
        out.append(decimal_i64(self.uid).as_str());
        out.append(")\n");
        let ghost head = out@;
        let ms = &self.memberships;
        let mut i: usize = 0;
        while i < ms.len()
            invariant
                0 <= i <= ms@.len(),
                ms == self.memberships,
                out@ == head + membership_lines(ms@.subrange(0, i as int)),
            decreases ms@.len() - i,
        {
            let m = &ms[i];
            out.append(" - Group '");
            out.append(m.name.as_str());
            out.append("' (");
            out.append(decimal_i64(m.gid).as_str());
            out.append("):\n");
            push_permission_lines(&mut out, &m.permissions);
            proof {
                let next = ms@.subrange(0, i + 1);
                assert(next.drop_last() =~= ms@.subrange(0, i as int));
                assert(next.last() == ms@[i as int]);
            }
            i = i + 1;
        }
        assert(ms@.subrange(0, ms@.len() as int) =~= ms@);
        out
    }
}

} // verus!
