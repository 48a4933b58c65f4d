//! Media: `/m/media/list`, `/m/media/create`, `/m/media/upload` and `/m/media`.
use vstd::prelude::*;
use crate::error::VelocityError;
use crate::json::{
    bool_field, i64_field, members_view, no_members, push_member, text, text_field, u64_field,
    FromJson, Json, JsonValue,
};
use crate::session::{authorized_request, Velocity};
use crate::text::{decimal, decimal_i64, decimal_u64, signed_decimal};
use crate::transport::{body_view, list_reply, reply_list, HttpReply, Method, Request};
use crate::{GID, MID, MPID};

verus! {

/// `/m/media/list - POST` Response structure
#[derive(Debug)]
pub struct MMediaListPOSTRes {
    pub mid: MID,
    pub mpid: MPID,
    pub name: String,
    /// The media type, sent as `type`
    pub ty: String,
    pub size: u64,
    pub readonly: bool,
}

impl FromJson for MMediaListPOSTRes {
    open spec fn json_decodes(j: Json) -> bool {
        &&& text_field(j, "mid"@) is Some
        &&& i64_field(j, "mpid"@) is Some
        &&& text_field(j, "name"@) is Some
        &&& text_field(j, "type"@) is Some
        &&& u64_field(j, "size"@) is Some
        &&& bool_field(j, "readonly"@) is Some
    }

    open spec fn json_describes(j: Json, v: MMediaListPOSTRes) -> bool {
        &&& text_field(j, "mid"@) == Some(v.mid@)
        &&& i64_field(j, "mpid"@) == Some(v.mpid as int)
        &&& text_field(j, "name"@) == Some(v.name@)
        &&& text_field(j, "type"@) == Some(v.ty@)
        &&& u64_field(j, "size"@) == Some(v.size as int)
        &&& bool_field(j, "readonly"@) == Some(v.readonly)
    }

    fn from_json(j: &JsonValue) -> (r: Option<MMediaListPOSTRes>) {
        match (
            j.text_member("mid"),
            j.i64_member("mpid"),
            j.text_member("name"),
            j.text_member("type"),
            j.u64_member("size"),
            j.bool_member("readonly"),
        ) {
            (Some(mid), Some(mpid), Some(name), Some(ty), Some(size), Some(readonly)) => Some(
                MMediaListPOSTRes { mid, mpid, name, ty, size, readonly },
            ),
            _ => None,
        }
    }
}

/// `/m/media/create - PUT` Response structure
#[derive(Debug)]
pub struct MMediaCreatePUTRes {
    pub mid: MID,
    pub size: u64,
}

impl FromJson for MMediaCreatePUTRes {
    open spec fn json_decodes(j: Json) -> bool {
        &&& text_field(j, "mid"@) is Some
        &&& u64_field(j, "size"@) is Some
    }

    open spec fn json_describes(j: Json, v: MMediaCreatePUTRes) -> bool {
        &&& text_field(j, "mid"@) == Some(v.mid@)
        &&& u64_field(j, "size"@) == Some(v.size as int)
    }

    fn from_json(j: &JsonValue) -> (r: Option<MMediaCreatePUTRes>) {
        match (j.text_member("mid"), j.u64_member("size")) {
            (Some(mid), Some(size)) => Some(MMediaCreatePUTRes { mid, size }),
            _ => None,
        }
    }
}

/// `/m/media/upload - PUT` Response structure
#[derive(Debug)]
pub struct MMediaUploadPUTRes {
    pub mid: MID,
    pub size: u64,
}

impl FromJson for MMediaUploadPUTRes {
    open spec fn json_decodes(j: Json) -> bool {
        &&& text_field(j, "mid"@) is Some
        &&& u64_field(j, "size"@) is Some
    }

    open spec fn json_describes(j: Json, v: MMediaUploadPUTRes) -> bool {
        &&& text_field(j, "mid"@) == Some(v.mid@)
        &&& u64_field(j, "size"@) == Some(v.size as int)
    }

    fn from_json(j: &JsonValue) -> (r: Option<MMediaUploadPUTRes>) {
        match (j.text_member("mid"), j.u64_member("size")) {
            (Some(mid), Some(size)) => Some(MMediaUploadPUTRes { mid, size }),
            _ => None,
        }
    }
}

/// An upload of raw bytes: its metadata travels in headers, the file in the body.
#[derive(Debug)]
pub struct UploadRequest {
    pub method: Method,
    pub endpoint: String,
    /// Header names and values, in the order they are set
    pub headers: Vec<(String, String)>,
    /// The number of bytes the body carries
    pub content_length: u64,
}

/// The headers as plain values.
pub open spec fn headers_view(h: Seq<(String, String)>) -> Seq<(Seq<char>, Seq<char>)> {
    Seq::new(h.len(), |i: int| (h[i].0@, h[i].1@))
}

/// The text of a boolean header.
pub open spec fn flag_text(b: bool) -> Seq<char> {
    if b {
        "true"@
    } else {
        "false"@
    }
}

/// The headers of an upload: its length, the authkey, the pool, the group,
/// the name, the type and the read-only flag.
pub open spec fn upload_headers(
    key: Seq<char>,
    mpid: MPID,
    gid: GID,
    name: Seq<char>,
    ty: Seq<char>,
    readonly: bool,
    size: u64,
) -> Seq<(Seq<char>, Seq<char>)> {
    seq![
        ("Content-Length"@, decimal(size as nat)),
        ("x-velocity-authkey"@, key),
        ("x-velocity-mpid"@, signed_decimal(mpid as int)),
        ("x-velocity-gid"@, signed_decimal(gid as int)),
        ("x-velocity-name"@, name),
        ("x-velocity-type"@, ty),
        ("x-velocity-readonly"@, flag_text(readonly)),
    ]
}

fn push_header(headers: &mut Vec<(String, String)>, name: &str, value: String)
    ensures
        headers_view(final(headers)@) == headers_view(old(headers)@).push((name@, value@)),
{
    headers.push((name.to_owned(), value));
    assert(headers_view(final(headers)@) =~= headers_view(old(headers)@).push((name@, value@)));
}

fn flag(b: bool) -> (r: String)
    ensures
        r@ == flag_text(b),
{
    if b {
        "true".to_owned()
    } else {
        "false".to_owned()
    }
}

impl Velocity {
    /// The request that lists all available media for a group
    /// # Arguments
    /// * `gid` - The group id of the group to list of
    pub fn media_list(&self, gid: GID) -> (r: Result<Request, VelocityError>)
        ensures
            authorized_request(self@, r, Method::Post, "/m/media/list"@, seq![("gid"@, Json::Number(gid as int))]),
    {
        let mut fields = no_members();
        push_member(&mut fields, "gid", JsonValue::Integer(gid as i128));
        self.authorized(Method::Post, "/m/media/list", fields)
    }

    /// Reads the reply to `media_list`: the media under `media`
    pub fn media_list_reply(reply: HttpReply) -> (r: Result<Vec<MMediaListPOSTRes>, VelocityError>)
        ensures
            list_reply::<MMediaListPOSTRes>(reply.status, body_view(reply.body), "media"@, r),
    {
        reply_list::<MMediaListPOSTRes>(reply, "media")
    }

    /// The request that allocates new media on the hypervisor
    /// # Arguments
    /// * `mpid` - The mediapool id where the media should live in
    /// * `gid` - The group id that should own the newly created media
    /// * `name` - A user-friendly name for the new media
    /// * `ty` - A string describing the type of media to use - see the Velocity API documentation
    /// * `size` - The size in bytes for the new media
    pub fn media_allocate(&self, mpid: MPID, gid: GID, name: &str, ty: &str, size: u64) -> (r: Result<
        Request,
        VelocityError,
    >)
        ensures
            authorized_request(
                self@,
                r,
                Method::Put,
                "/m/media/create"@,
                seq![
                    ("mpid"@, Json::Number(mpid as int)),
                    ("gid"@, Json::Number(gid as int)),
                    ("name"@, Json::Text(name@)),
                    ("type"@, Json::Text(ty@)),
                    ("size"@, Json::Number(size as int)),
                ],
            ),
    {
        let mut fields = no_members();
        push_member(&mut fields, "mpid", JsonValue::Integer(mpid as i128));
        push_member(&mut fields, "gid", JsonValue::Integer(gid as i128));
        push_member(&mut fields, "name", text(name));
        push_member(&mut fields, "type", text(ty));
        push_member(&mut fields, "size", JsonValue::Integer(size as i128));
        assert(members_view(fields@) =~= seq![
            ("mpid"@, Json::Number(mpid as int)),
            ("gid"@, Json::Number(gid as int)),
            ("name"@, Json::Text(name@)),
            ("type"@, Json::Text(ty@)),
            ("size"@, Json::Number(size as int)),
        ]);
        self.authorized(Method::Put, "/m/media/create", fields)
    }

    /// The request that uploads a file of `size` bytes as a new piece of media
    /// # Arguments
    /// * `mpid` - The mediapool id where the media should live in
    /// * `gid` - The group id that should own the newly created media
    /// * `name` - A user-friendly name for the new media
    /// * `ty` - A string describing the type of media to use - see the Velocity API documentation
    /// * `readonly` - If the file should be read-only
    /// * `size` - The size of the file in bytes
    pub fn media_upload(
        &self,
        mpid: MPID,
        gid: GID,
        name: &str,
        ty: &str,
        readonly: bool,
        size: u64,
    ) -> (r: Result<UploadRequest, VelocityError>)
        ensures
            self@.authkey is None ==> (r matches Err(e) && e@ == crate::error::not_authenticated()),
            self@.authkey matches Some(k) ==> (r matches Ok(q) && {
                &&& q.method == Method::Put
                &&& q.endpoint@ == "/m/media/upload"@
                &&& q.content_length == size
                &&& headers_view(q.headers@) == upload_headers(k.key, mpid, gid, name@, ty@, readonly, size)
            }),
    {
        let authkey = match self.get_authkey() {
            Ok(k) => k,
            Err(e) => return Err(e),
        };
        let mut headers: Vec<(String, String)> = Vec::new();
        assert(headers_view(headers@) =~= Seq::<(Seq<char>, Seq<char>)>::empty());
        push_header(&mut headers, "Content-Length", decimal_u64(size));
        push_header(&mut headers, "x-velocity-authkey", authkey.key().to_owned());
        push_header(&mut headers, "x-velocity-mpid", decimal_i64(mpid));
        push_header(&mut headers, "x-velocity-gid", decimal_i64(gid));
        push_header(&mut headers, "x-velocity-name", name.to_owned());
        push_header(&mut headers, "x-velocity-type", ty.to_owned());
        push_header(&mut headers, "x-velocity-readonly", flag(readonly));
        assert(headers_view(headers@) =~= upload_headers(authkey@.key, mpid, gid, name@, ty@, readonly, size));
        Ok(UploadRequest { method: Method::Put, endpoint: "/m/media/upload".to_owned(), headers, content_length: size })
    }

    /// The request that removes a piece of media and deletes it
    /// # Arguments
    /// * `mid` - The media id of the media to remove
    pub fn media_remove(&self, mid: MID) -> (r: Result<Request, VelocityError>)
        ensures
            authorized_request(self@, r, Method::Delete, "/m/media"@, seq![("mid"@, Json::Text(mid@))]),
    {
        let mut fields = no_members();
        push_member(&mut fields, "mid", JsonValue::Text(mid));
        self.authorized(Method::Delete, "/m/media", fields)
    }
}

} // verus!
