//! Host NICs: `/v/nic/list`.
use vstd::prelude::*;
use crate::error::VelocityError;
use crate::json::{i64_field, no_members, text_field, FromJson, Json, JsonValue};
use crate::session::{authorized_request, Velocity};
use crate::transport::{body_view, list_reply, reply_list, HttpReply, Method, Request};
use crate::NICID;

verus! {

/// `/v/nic/list - POST` Response structure
#[derive(Debug)]
pub struct VNICListPOSTRes {
    pub nicid: NICID,
    pub description: String,
    pub identifier: String,
}

impl FromJson for VNICListPOSTRes {
    open spec fn json_decodes(j: Json) -> bool {
        &&& i64_field(j, "nicid"@) is Some
        &&& text_field(j, "description"@) is Some
        &&& text_field(j, "identifier"@) is Some
    }

    open spec fn json_describes(j: Json, v: VNICListPOSTRes) -> bool {
        &&& i64_field(j, "nicid"@) == Some(v.nicid as int)
        &&& text_field(j, "description"@) == Some(v.description@)
        &&& text_field(j, "identifier"@) == Some(v.identifier@)
    }

    fn from_json(j: &JsonValue) -> (r: Option<VNICListPOSTRes>) {
        match (j.i64_member("nicid"), j.text_member("description"), j.text_member("identifier")) {
            (Some(nicid), Some(description), Some(identifier)) => Some(
                VNICListPOSTRes { nicid, description, identifier },
            ),
            _ => None,
        }
    }
}

impl Velocity {
    /// The request that lists all host NICs available for bridge mode
    pub fn nic_list(&self) -> (r: Result<Request, VelocityError>)
        ensures
            authorized_request(self@, r, Method::Post, "/v/nic/list"@, seq![]),
    {
        self.authorized(Method::Post, "/v/nic/list", no_members())
    }

    /// Reads the reply to `nic_list`: the NICs under `host_nics`
    pub fn nic_list_reply(reply: HttpReply) -> (r: Result<Vec<VNICListPOSTRes>, VelocityError>)
        ensures
            list_reply::<VNICListPOSTRes>(reply.status, body_view(reply.body), "host_nics"@, r),
    {
        reply_list::<VNICListPOSTRes>(reply, "host_nics")
    }
}

} // verus!
