//! Virtual machines: `/v/vm/efi`, and the configuration they are made from.
use vstd::prelude::*;
use crate::error::VelocityError;
use crate::json::{
    i64_field, json_list, list_to_json, members_view, no_members, object, push_member, text,
    FromJson, Json, JsonValue, ToJson,
};
use crate::session::{authorized_request, Velocity};
use crate::transport::{body_view, reply_spec, reply_value, HttpReply, Method, Request};
use crate::{GID, MID, NICID, VMID};

verus! {

/// A configuration for a display for a virtual machine
#[derive(Debug)]
pub struct DisplayConfig {
    /// A user-friendly name for the display
    pub name: String,
    /// The width in pixels
    pub width: u32,
    /// The height in pixels
    pub height: u32,
    /// The pixels per inch value
    pub ppi: u32,
}

/// The possible modes a disk can be attached to a virtual machine
#[derive(Debug, Clone, Copy, PartialEq, Eq, Structural)]
#[allow(clippy::upper_case_acronyms)]
pub enum DiskMode {
    /// Attach the disk over `USB`
    USB,
    /// Attach the disk using a block device
    BLOCK,
    /// Attach the disk over `VIRTIO`
    VIRTIO,
}

/// A configuration for a disk to attach to a virtual machine
#[derive(Debug)]
pub struct DiskConfig {
    /// The media id of the piece of media to attach
    pub mid: MID,
    /// The mode to use for the disk
    pub mode: DiskMode,
    /// If the disk should be read-only
    pub readonly: bool,
}

/// The possible types a NIC can be in a virtual machine
#[derive(Debug, Clone, Copy, PartialEq, Eq, Structural)]
#[allow(clippy::upper_case_acronyms)]
pub enum NICType {
    /// A `NAT` NIC
    NAT,
    /// A `BRIDGE` NIC, requiring a host NIC
    BRIDGE,
}

/// A configuration for a virtual machine NIC
#[derive(Debug)]
pub struct NICConfig {
    /// The type of NIC to use, sent as `type`
    pub ty: NICType,
    /// If `ty` is `BRIDGE`, supply the host `NICID`
    pub host: Option<NICID>,
}

/// A core virtual machine configuration that is common across
/// all virtual machine types
#[derive(Debug)]
pub struct CoreVM {
    /// The name for the virtual machine
    pub name: String,
    /// The group id the virtual machine should belong to
    pub gid: GID,
    /// The amount of CPUs the virtual machine should be allowed to use
    pub cpus: u32,
    /// The amount of memory
    pub memory: u64,
    pub displays: Vec<DisplayConfig>,
    pub disks: Vec<DiskConfig>,
    pub nics: Vec<NICConfig>,
    pub autostart: bool,
}

/// A configuration for a `EFI` virtual machine
#[derive(Debug)]
pub struct EFIVMConfig {
    /// The core virtual machine configuration
    pub core: CoreVM,
    /// If this virtual machine should use the `rosetta` translation layer if available
    pub rosetta: bool,
}

/// The name of a disk mode.
pub open spec fn disk_mode_name(m: DiskMode) -> Seq<char> {
    match m {
        DiskMode::USB => "USB"@,
        DiskMode::BLOCK => "BLOCK"@,
        DiskMode::VIRTIO => "VIRTIO"@,
    }
}

/// The name of a NIC type.
pub open spec fn nic_type_name(t: NICType) -> Seq<char> {
    match t {
        NICType::NAT => "NAT"@,
        NICType::BRIDGE => "BRIDGE"@,
    }
}

/// The message for a disk mode that is not known.
pub open spec fn disk_mode_hint() -> Seq<char> {
    "Available modes: 'USB', 'BLOCK', 'VIRTIO'"@
}

/// The message for a NIC type that is not known.
pub open spec fn nic_type_hint() -> Seq<char> {
    "Available modes: 'NAT', 'BRIDGE'"@
}

impl DiskMode {
    /// Reads a disk mode from its name
    pub fn parse(s: &str) -> (r: Result<DiskMode, String>)
        ensures
            s@ == "USB"@ ==> r == Ok::<DiskMode, String>(DiskMode::USB),
            s@ == "BLOCK"@ ==> r == Ok::<DiskMode, String>(DiskMode::BLOCK),
            s@ == "VIRTIO"@ ==> r == Ok::<DiskMode, String>(DiskMode::VIRTIO),
            s@ != "USB"@ && s@ != "BLOCK"@ && s@ != "VIRTIO"@ ==> (r matches Err(e) && e@
                == disk_mode_hint()),
    {
        proof {
            reveal_strlit("USB");
            reveal_strlit("BLOCK");
            reveal_strlit("VIRTIO");
            assert("USB"@.len() == 3 && "BLOCK"@.len() == 5 && "VIRTIO"@.len() == 6);
        }
        let given = s.to_owned();
        if given == "USB".to_owned() {
            Ok(DiskMode::USB)
        } else if given == "BLOCK".to_owned() {
            Ok(DiskMode::BLOCK)
        } else if given == "VIRTIO".to_owned() {
            Ok(DiskMode::VIRTIO)
        } else {
            Err("Available modes: 'USB', 'BLOCK', 'VIRTIO'".to_owned())
        }
    }
}

impl std::str::FromStr for DiskMode {
    type Err = String;

    fn from_str(s: &str) -> Result<Self, Self::Err> {
        DiskMode::parse(s)
    }
}

impl NICType {
    /// Reads a NIC type from its name
    pub fn parse(s: &str) -> (r: Result<NICType, String>)
        ensures
            s@ == "NAT"@ ==> r == Ok::<NICType, String>(NICType::NAT),
            s@ == "BRIDGE"@ ==> r == Ok::<NICType, String>(NICType::BRIDGE),
            s@ != "NAT"@ && s@ != "BRIDGE"@ ==> (r matches Err(e) && e@ == nic_type_hint()),
    {
        proof {
            reveal_strlit("NAT");
            reveal_strlit("BRIDGE");
            assert("NAT"@.len() == 3 && "BRIDGE"@.len() == 6);
        }
        let given = s.to_owned();
        if given == "NAT".to_owned() {
            Ok(NICType::NAT)
        } else if given == "BRIDGE".to_owned() {
            Ok(NICType::BRIDGE)
        } else {
            Err("Available modes: 'NAT', 'BRIDGE'".to_owned())
        }
    }
}

impl std::str::FromStr for NICType {
    type Err = String;

    fn from_str(s: &str) -> Result<Self, Self::Err> {
        NICType::parse(s)
    }
}

impl ToJson for DisplayConfig {
    open spec fn json(&self) -> Json {
        Json::Object(
            seq![
                ("name"@, Json::Text(self.name@)),
                ("width"@, Json::Number(self.width as int)),
                ("height"@, Json::Number(self.height as int)),
                ("ppi"@, Json::Number(self.ppi as int)),
            ],
        )
    }

    fn to_json(&self) -> (r: JsonValue) {
        let mut m = no_members();
        push_member(&mut m, "name", text(self.name.as_str()));
        push_member(&mut m, "width", JsonValue::Integer(self.width as i128));
        push_member(&mut m, "height", JsonValue::Integer(self.height as i128));
        push_member(&mut m, "ppi", JsonValue::Integer(self.ppi as i128));
        assert(members_view(m@) =~= self.json()->Object_0);
        object(m)
    }
}

impl ToJson for DiskMode {
    open spec fn json(&self) -> Json {
        Json::Text(disk_mode_name(*self))
    }

    fn to_json(&self) -> (r: JsonValue) {
        match self {
            DiskMode::USB => text("USB"),
            DiskMode::BLOCK => text("BLOCK"),
            DiskMode::VIRTIO => text("VIRTIO"),
        }
    }
}

impl ToJson for DiskConfig {
    open spec fn json(&self) -> Json {
        Json::Object(
            seq![
                ("mid"@, Json::Text(self.mid@)),
                ("mode"@, self.mode.json()),
                ("readonly"@, Json::Bool(self.readonly)),
            ],
        )
    }

    fn to_json(&self) -> (r: JsonValue) {
        let mut m = no_members();
        push_member(&mut m, "mid", text(self.mid.as_str()));
        push_member(&mut m, "mode", self.mode.to_json());
        push_member(&mut m, "readonly", JsonValue::Bool(self.readonly));
        assert(members_view(m@) =~= self.json()->Object_0);
        object(m)
    }
}

impl ToJson for NICType {
    open spec fn json(&self) -> Json {
        Json::Text(nic_type_name(*self))
    }

    fn to_json(&self) -> (r: JsonValue) {
        match self {
            NICType::NAT => text("NAT"),
            NICType::BRIDGE => text("BRIDGE"),
        }
    }
}

/// The JSON value of an optional host NIC id: the number, or `null`.
pub open spec fn host_json(host: Option<NICID>) -> Json {
    match host {
        Some(n) => Json::Number(n as int),
        None => Json::Null,
    }
}

impl ToJson for NICConfig {
    open spec fn json(&self) -> Json {
        Json::Object(seq![("type"@, self.ty.json()), ("host"@, host_json(self.host))])
    }

    fn to_json(&self) -> (r: JsonValue) {
        let mut m = no_members();
        push_member(&mut m, "type", self.ty.to_json());
        let host = match self.host {
            Some(n) => JsonValue::Integer(n as i128),
            None => JsonValue::Null,
        };
        push_member(&mut m, "host", host);
        assert(members_view(m@) =~= self.json()->Object_0);
        object(m)
    }
}

/// The members that a core configuration contributes to a request body.
pub open spec fn core_fields(c: CoreVM) -> Seq<(Seq<char>, Json)> {
    seq![
        ("name"@, Json::Text(c.name@)),
        ("gid"@, Json::Number(c.gid as int)),
        ("cpus"@, Json::Number(c.cpus as int)),
        ("memory"@, Json::Number(c.memory as int)),
        ("displays"@, json_list(c.displays@)),
        ("disks"@, json_list(c.disks@)),
        ("nics"@, json_list(c.nics@)),
        ("autostart"@, Json::Bool(c.autostart)),
    ]
}

/// The members of an EFI machine's request body: the core members, then
/// `rosetta`.
pub open spec fn efi_fields(c: EFIVMConfig) -> Seq<(Seq<char>, Json)> {
    core_fields(c.core).push(("rosetta"@, Json::Bool(c.rosetta)))
}

impl Velocity {
    /// The request that creates a new EFI virtual machine
    /// # Arguments
    /// * `vm_config` - A config that describes the virtual machine
    pub fn vm_efi_create(&self, vm_config: &EFIVMConfig) -> (r: Result<Request, VelocityError>)
        ensures
            authorized_request(self@, r, Method::Put, "/v/vm/efi"@, efi_fields(*vm_config)),
    {
        let core = &vm_config.core;
        let mut m = no_members();
        push_member(&mut m, "name", text(core.name.as_str()));
        push_member(&mut m, "gid", JsonValue::Integer(core.gid as i128));
        push_member(&mut m, "cpus", JsonValue::Integer(core.cpus as i128));
        push_member(&mut m, "memory", JsonValue::Integer(core.memory as i128));
        push_member(&mut m, "displays", list_to_json(&core.displays));
        push_member(&mut m, "disks", list_to_json(&core.disks));
        push_member(&mut m, "nics", list_to_json(&core.nics));
        push_member(&mut m, "autostart", JsonValue::Bool(core.autostart));
        push_member(&mut m, "rosetta", JsonValue::Bool(vm_config.rosetta));
        assert(members_view(m@) =~= efi_fields(*vm_config));
        self.authorized(Method::Put, "/v/vm/efi", m)
    }

    /// Reads the reply to `vm_efi_create`: the id of the new machine, under `vmid`
    pub fn vm_efi_create_reply(reply: HttpReply) -> (r: Result<VMID, VelocityError>)
        ensures
            reply_spec(
                reply.status,
                body_view(reply.body),
                r,
                |j: Json| i64_field(j, "vmid"@) is Some,
                |j: Json, vmid: VMID| i64_field(j, "vmid"@) == Some(vmid as int),
            ),
    {
        match reply_value::<VVMEFIPUTRes>(reply) {
            Ok(created) => Ok(created.vmid),
            Err(e) => Err(e),
        }
    }
}

/// `/v/vm/efi - PUT` Response structure
pub struct VVMEFIPUTRes {
    pub vmid: VMID,
}

impl FromJson for VVMEFIPUTRes {
    open spec fn json_decodes(j: Json) -> bool {
        i64_field(j, "vmid"@) is Some
    }

    open spec fn json_describes(j: Json, v: VVMEFIPUTRes) -> bool {
        i64_field(j, "vmid"@) == Some(v.vmid as int)
    }

    fn from_json(j: &JsonValue) -> (r: Option<VVMEFIPUTRes>) {
        match j.i64_member("vmid") {
            Some(vmid) => Some(VVMEFIPUTRes { vmid }),
            None => None,
        }
    }
}

} // verus!
