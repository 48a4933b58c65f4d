use velocity::group::{GroupInfo, GroupMembership};
use velocity::json::JsonValue;
use velocity::session::Velocity;
use velocity::transport::{reply_value, HttpReply, Method};
use velocity::user::{Membership, Permission, UserInfo};
use velocity::vm::{CoreVM, DiskConfig, DiskMode, DisplayConfig, EFIVMConfig, NICConfig, NICType};

fn obj(members: Vec<(&str, JsonValue)>) -> JsonValue {
    JsonValue::Object(members.into_iter().map(|(k, v)| (k.to_string(), v)).collect())
}

fn text(s: &str) -> JsonValue {
    JsonValue::Text(s.to_string())
}

fn num(n: i128) -> JsonValue {
    JsonValue::Integer(n)
}

fn ok(body: JsonValue) -> HttpReply {
    HttpReply { status: 200, body: Ok(body) }
}

fn authenticated(key: &str) -> Velocity {
    let mut v = Velocity::new("http://localhost:8090");
    v.authenticate_reply(ok(obj(vec![("authkey", text(key)), ("expires", num(100))]))).unwrap();
    v
}

/// The body as `key=value` items, in order, with nested values written compactly.
fn show(v: &JsonValue) -> String {
    match v {
        JsonValue::Null => "null".to_string(),
        JsonValue::Bool(b) => b.to_string(),
        JsonValue::Integer(n) => n.to_string(),
        JsonValue::Fraction => "fraction".to_string(),
        JsonValue::Text(s) => format!("'{}'", s),
        JsonValue::Array(items) => {
            format!("[{}]", items.iter().map(show).collect::<Vec<_>>().join(","))
        }
        JsonValue::Object(m) => format!(
            "{{{}}}",
            m.iter().map(|(k, v)| format!("{}={}", k, show(v))).collect::<Vec<_>>().join(",")
        ),
    }
}

#[test]
fn group_create_then_list_includes_new_group() {
    let v = authenticated("abc");
    let q = v.group_create(0, "eng").unwrap();
    assert_eq!(q.method, Method::Put);
    assert_eq!(q.endpoint, "/u/group");
    assert_eq!(show(&q.body), "{authkey='abc',name='eng',parent_gid=0}");
    let created = reply_value::<velocity::group::UGroupPUTRes>(ok(obj(vec![
        ("gid", num(5)),
        ("parent_gid", num(0)),
        ("name", text("eng")),
    ])))
    .unwrap();
    assert_eq!((created.gid, created.parent_gid, created.name.as_str()), (5, 0, "eng"));

    let l = v.group_list().unwrap();
    assert_eq!(l.method, Method::Post);
    assert_eq!(l.endpoint, "/u/group/list");
    assert_eq!(show(&l.body), "{authkey='abc'}");
    let groups = Velocity::group_list_reply(ok(obj(vec![(
        "groups",
        JsonValue::Array(vec![
            obj(vec![
                ("name", text("root")),
                ("gid", num(0)),
                ("parent_gid", num(0)),
                ("permissions", JsonValue::Array(vec![])),
            ]),
            obj(vec![
                ("name", text("eng")),
                ("gid", num(5)),
                ("parent_gid", num(0)),
                ("permissions", JsonValue::Array(vec![])),
            ]),
        ]),
    )])))
    .unwrap();
    assert!(groups.iter().any(|g| g.name == "eng"
        && g.gid == created.gid
        && g.parent_gid == created.parent_gid));
}

#[test]
fn user_requests() {
    let v = authenticated("k");
    let q = v.user_create("alice", "pw").unwrap();
    assert_eq!((q.method, q.endpoint.as_str()), (Method::Put, "/u/user"));
    assert_eq!(show(&q.body), "{authkey='k',name='alice',password='pw'}");
    let q = v.user_remove(9).unwrap();
    assert_eq!((q.method, q.endpoint.as_str()), (Method::Delete, "/u/user"));
    assert_eq!(show(&q.body), "{authkey='k',uid=9}");
    let q = v.user_info(None).unwrap();
    assert_eq!((q.method, q.endpoint.as_str()), (Method::Post, "/u/user"));
    assert_eq!(show(&q.body), "{authkey='k',uid=null}");
    let q = v.user_info(Some(3)).unwrap();
    assert_eq!(show(&q.body), "{authkey='k',uid=3}");
    let q = v.user_list().unwrap();
    assert_eq!((q.method, q.endpoint.as_str()), (Method::Post, "/u/user/list"));
    let q = v.user_add_permission(2, 3, "velocity.user.view").unwrap();
    assert_eq!((q.method, q.endpoint.as_str()), (Method::Put, "/u/user/permission"));
    assert_eq!(show(&q.body), "{authkey='k',gid=2,uid=3,permission='velocity.user.view'}");
    let q = v.user_revoke_permission(2, 3, "x").unwrap();
    assert_eq!((q.method, q.endpoint.as_str()), (Method::Delete, "/u/user/permission"));
}

#[test]
fn user_create_reply_gives_uid() {
    let uid = Velocity::user_create_reply(ok(obj(vec![("uid", num(12)), ("name", text("alice"))])));
    assert_eq!(uid.unwrap(), 12);
    let missing = Velocity::user_create_reply(ok(obj(vec![("uid", num(12))])));
    assert!(missing.is_err());
}

#[test]
fn group_requests() {
    let v = authenticated("k");
    let q = v.group_info(4).unwrap();
    assert_eq!((q.method, q.endpoint.as_str()), (Method::Post, "/u/group"));
    assert_eq!(show(&q.body), "{authkey='k',gid=4}");
    let q = v.group_remove(4).unwrap();
    assert_eq!((q.method, q.endpoint.as_str()), (Method::Delete, "/u/group"));
    assert_eq!(show(&q.body), "{authkey='k',gid=4}");
}

#[test]
fn pool_requests() {
    let v = authenticated("k");
    let q = v.pool_list(0).unwrap();
    assert_eq!((q.method, q.endpoint.as_str()), (Method::Post, "/m/pool/list"));
    assert_eq!(show(&q.body), "{authkey='k',gid=0}");
    let q = v.pool_assign(2, 1, 1073741824, true, false).unwrap();
    assert_eq!((q.method, q.endpoint.as_str()), (Method::Put, "/m/pool/assign"));
    assert_eq!(
        show(&q.body),
        "{authkey='k',gid=2,mpid=1,quota=1073741824,write=true,manage=false}"
    );
    let q = v.pool_revoke(2, 1).unwrap();
    assert_eq!((q.method, q.endpoint.as_str()), (Method::Delete, "/m/pool/assign"));
    assert_eq!(show(&q.body), "{authkey='k',gid=2,mpid=1}");
    let pools = Velocity::pool_list_reply(ok(obj(vec![(
        "pools",
        JsonValue::Array(vec![obj(vec![
            ("mpid", num(1)),
            ("name", text("local")),
            ("write", JsonValue::Bool(true)),
            ("manage", JsonValue::Bool(false)),
        ])]),
    )])))
    .unwrap();
    assert_eq!(pools.len(), 1);
    assert_eq!((pools[0].mpid, pools[0].name.as_str(), pools[0].write, pools[0].manage), (1, "local", true, false));
}

#[test]
fn media_requests() {
    let v = authenticated("k");
    let q = v.media_list(3).unwrap();
    assert_eq!((q.method, q.endpoint.as_str()), (Method::Post, "/m/media/list"));
    assert_eq!(show(&q.body), "{authkey='k',gid=3}");
    let q = v.media_allocate(1, 3, "disk", "DISK", 2048).unwrap();
    assert_eq!((q.method, q.endpoint.as_str()), (Method::Put, "/m/media/create"));
    assert_eq!(show(&q.body), "{authkey='k',mpid=1,gid=3,name='disk',type='DISK',size=2048}");
    let q = v.media_remove("m-7".to_string()).unwrap();
    assert_eq!((q.method, q.endpoint.as_str()), (Method::Delete, "/m/media"));
    assert_eq!(show(&q.body), "{authkey='k',mid='m-7'}");
    let media = Velocity::media_list_reply(ok(obj(vec![(
        "media",
        JsonValue::Array(vec![obj(vec![
            ("mid", text("m-7")),
            ("mpid", num(1)),
            ("name", text("disk")),
            ("type", text("DISK")),
            ("size", num(2048)),
            ("readonly", JsonValue::Bool(false)),
        ])]),
    )])))
    .unwrap();
    assert_eq!(media[0].ty, "DISK");
    assert_eq!(media[0].size, 2048);
    let negative_size = Velocity::media_list_reply(ok(obj(vec![(
        "media",
        JsonValue::Array(vec![obj(vec![
            ("mid", text("m-7")),
            ("mpid", num(1)),
            ("name", text("disk")),
            ("type", text("DISK")),
            ("size", num(-1)),
            ("readonly", JsonValue::Bool(false)),
        ])]),
    )])));
    assert!(negative_size.is_err());
}

#[test]
fn nic_list_request_and_reply() {
    let v = authenticated("k");
    let q = v.nic_list().unwrap();
    assert_eq!((q.method, q.endpoint.as_str()), (Method::Post, "/v/nic/list"));
    let nics = Velocity::nic_list_reply(ok(obj(vec![(
        "host_nics",
        JsonValue::Array(vec![obj(vec![
            ("nicid", num(0)),
            ("description", text("Ethernet")),
            ("identifier", text("en0")),
        ])]),
    )])))
    .unwrap();
    assert_eq!((nics[0].nicid, nics[0].identifier.as_str()), (0, "en0"));
}

#[test]
fn vm_efi_create_request_flattens_config() {
    let v = authenticated("k");
    let config = EFIVMConfig {
        core: CoreVM {
            name: "vm1".to_string(),
            gid: 2,
            cpus: 4,
            memory: 4096,
            displays: vec![DisplayConfig { name: "main".to_string(), width: 1920, height: 1080, ppi: 72 }],
            disks: vec![DiskConfig { mid: "m-1".to_string(), mode: DiskMode::VIRTIO, readonly: false }],
            nics: vec![
                NICConfig { ty: NICType::NAT, host: None },
                NICConfig { ty: NICType::BRIDGE, host: Some(1) },
            ],
            autostart: true,
        },
        rosetta: true,
    };
    let q = v.vm_efi_create(&config).unwrap();
    assert_eq!((q.method, q.endpoint.as_str()), (Method::Put, "/v/vm/efi"));
    assert_eq!(
        show(&q.body),
        "{authkey='k',name='vm1',gid=2,cpus=4,memory=4096,\
         displays=[{name='main',width=1920,height=1080,ppi=72}],\
         disks=[{mid='m-1',mode='VIRTIO',readonly=false}],\
         nics=[{type='NAT',host=null},{type='BRIDGE',host=1}],\
         autostart=true,rosetta=true}"
    );
    assert_eq!(Velocity::vm_efi_create_reply(ok(obj(vec![("vmid", num(31))]))).unwrap(), 31);
}

fn permission(pid: i128, name: &str) -> JsonValue {
    obj(vec![("pid", num(pid)), ("name", text(name)), ("description", text("d"))])
}

#[test]
fn user_info_reads_nested_memberships() {
    let body = obj(vec![
        ("uid", num(1)),
        ("name", text("alice")),
        (
            "memberships",
            JsonValue::Array(vec![obj(vec![
                ("gid", num(0)),
                ("parent_gid", num(0)),
                ("name", text("root")),
                ("permissions", JsonValue::Array(vec![permission(3, "a.b"), permission(12, "c")])),
            ])]),
        ),
    ]);
    let info: UserInfo = reply_value(ok(body)).unwrap();
    assert_eq!(info.memberships.len(), 1);
    assert_eq!(info.memberships[0].permissions[1].pid, 12);
    assert_eq!(
        info.describe(),
        "Memberships for user 'alice' (1)\n - Group 'root' (0):\n   |- Permission [3 ] 'a.b'\n   |- Permission [12] 'c'\n"
    );
}

#[test]
fn group_info_description() {
    let info = GroupInfo {
        name: "eng".to_string(),
        gid: 5,
        parent_gid: 0,
        memberships: vec![GroupMembership {
            uid: 7,
            name: "bob".to_string(),
            permissions: vec![Permission { pid: 100, name: "x".to_string(), description: String::new() }],
        }],
    };
    assert_eq!(
        info.describe(),
        "Memberships for group 'eng' (5, parent: 0)\n - User 'bob' (7):\n   |- Permission [100] 'x'\n"
    );
    let empty = UserInfo { uid: -2, name: "n".to_string(), memberships: Vec::<Membership>::new() };
    assert_eq!(empty.describe(), "Memberships for user 'n' (-2)\n");
}
