use velocity::input::YesNo;
use velocity::text::{decimal_i64, decimal_u64};
use velocity::vm::{DiskMode, NICType};
use velocity::wizard::{Answer, CoreStep, CoreVmWizard, DiskWizard, DisplayWizard, NicWizard};

fn accepted(a: Answer) {
    assert!(matches!(a, Answer::Accepted), "expected the line to be taken, got {:?}", a);
}

fn rejected(a: Answer) -> String {
    match a {
        Answer::Rejected(m) => m,
        Answer::Accepted => panic!("expected the line to be rejected"),
    }
}

#[test]
fn yes_no_parsing() {
    assert_eq!("y".parse::<YesNo>(), Ok(YesNo::YES));
    assert_eq!("n".parse::<YesNo>(), Ok(YesNo::NO));
    assert_eq!("yes".parse::<YesNo>(), Err("Expected 'y' or 'n'".to_string()));
    let b: bool = YesNo::YES.into();
    assert!(b);
    assert!(!YesNo::NO.as_bool());
}

#[test]
fn disk_mode_and_nic_type_parsing() {
    assert_eq!("USB".parse::<DiskMode>(), Ok(DiskMode::USB));
    assert_eq!("BLOCK".parse::<DiskMode>(), Ok(DiskMode::BLOCK));
    assert_eq!("VIRTIO".parse::<DiskMode>(), Ok(DiskMode::VIRTIO));
    assert_eq!(
        "usb".parse::<DiskMode>(),
        Err("Available modes: 'USB', 'BLOCK', 'VIRTIO'".to_string())
    );
    assert_eq!("NAT".parse::<NICType>(), Ok(NICType::NAT));
    assert_eq!("BRIDGE".parse::<NICType>(), Ok(NICType::BRIDGE));
    assert_eq!("nat".parse::<NICType>(), Err("Available modes: 'NAT', 'BRIDGE'".to_string()));
}

#[test]
fn numbers_are_read_as_std_reads_them() {
    let mut w = DisplayWizard::new();
    accepted(w.answer("y"));
    accepted(w.answer("side"));
    rejected(w.answer(""));
    rejected(w.answer("-1"));
    rejected(w.answer("4294967296"));
    rejected(w.answer(" 5"));
    accepted(w.answer("+7"));
    accepted(w.answer("4294967295"));
    accepted(w.answer("010"));
    accepted(w.answer("n"));
    let d = &w.displays[0];
    assert_eq!((d.width, d.height, d.ppi), (7, 4294967295, 10));

    let mut c = CoreVmWizard::new(1, "big");
    accepted(c.answer("2"));
    accepted(c.answer("4294967296"));
    assert_eq!(c.memory, 4294967296);

    let mut n = NicWizard::new();
    accepted(n.answer("y"));
    accepted(n.answer("BRIDGE"));
    rejected(n.answer("1x"));
    accepted(n.answer("-12"));
    assert_eq!(n.nics[0].host, Some(-12));
}

#[test]
fn decimal_text() {
    assert_eq!(decimal_u64(0), "0");
    assert_eq!(decimal_u64(1234567890), "1234567890");
    assert_eq!(decimal_u64(u64::MAX), "18446744073709551615");
    assert_eq!(decimal_i64(-45), "-45");
    assert_eq!(decimal_i64(i64::MAX), "9223372036854775807");
}

#[test]
fn display_wizard_collects_displays() {
    let mut w = DisplayWizard::new();
    assert_eq!(w.prompt(), "Add another display? (y/n) > ");
    assert_eq!(rejected(w.answer("maybe")), "Expected 'y' or 'n'");
    accepted(w.answer("y"));
    assert_eq!(w.prompt(), "Display name > ");
    accepted(w.answer("main"));
    assert_eq!(w.prompt(), "Display width > ");
    rejected(w.answer("wide"));
    assert_eq!(w.prompt(), "Display width > ");
    accepted(w.answer("1920"));
    accepted(w.answer("1080"));
    assert_eq!(w.prompt(), "Display ppi > ");
    accepted(w.answer("72"));
    accepted(w.answer("n"));
    assert!(w.is_finished());
    assert_eq!(w.displays.len(), 1);
    let d = &w.displays[0];
    assert_eq!((d.name.as_str(), d.width, d.height, d.ppi), ("main", 1920, 1080, 72));
}

#[test]
fn disk_wizard_collects_disks() {
    let mut w = DiskWizard::new();
    accepted(w.answer("y"));
    assert_eq!(w.prompt(), "MID > ");
    accepted(w.answer("m-1"));
    assert_eq!(w.prompt(), "Disk mode (USB/BLOCK/VIRTIO) > ");
    assert_eq!(rejected(w.answer("SATA")), "Available modes: 'USB', 'BLOCK', 'VIRTIO'");
    accepted(w.answer("BLOCK"));
    assert_eq!(w.prompt(), "Readonly (y/n) > ");
    accepted(w.answer("y"));
    accepted(w.answer("n"));
    assert!(w.is_finished());
    assert_eq!(w.disks.len(), 1);
    assert_eq!(w.disks[0].mid, "m-1");
    assert_eq!(w.disks[0].mode, DiskMode::BLOCK);
    assert!(w.disks[0].readonly);
}

#[test]
fn nic_wizard_asks_host_for_bridge_only() {
    let mut w = NicWizard::new();
    accepted(w.answer("y"));
    assert_eq!(w.prompt(), "NIC type (NAT/BRIDGE) > ");
    accepted(w.answer("NAT"));
    assert_eq!(w.prompt(), "Add another NIC? (y/n) > ");
    accepted(w.answer("y"));
    accepted(w.answer("BRIDGE"));
    assert_eq!(w.prompt(), "Host NIC id > ");
    rejected(w.answer("en0"));
    accepted(w.answer("2"));
    accepted(w.answer("n"));
    assert!(w.is_finished());
    assert_eq!(w.nics.len(), 2);
    assert_eq!((w.nics[0].ty, w.nics[0].host), (NICType::NAT, None));
    assert_eq!((w.nics[1].ty, w.nics[1].host), (NICType::BRIDGE, Some(2)));
}

#[test]
fn core_vm_wizard_confirmed() {
    let mut w = CoreVmWizard::new(3, "vm1");
    assert_eq!(w.prompt(), "CPU count > ");
    rejected(w.answer("four"));
    accepted(w.answer("4"));
    assert_eq!(w.prompt(), "Memory in MiB > ");
    accepted(w.answer("8192"));
    assert_eq!(w.prompt(), "Add another display? (y/n) > ");
    accepted(w.answer("n"));
    assert_eq!(w.prompt(), "Add another disk? (y/n) > ");
    accepted(w.answer("n"));
    assert_eq!(w.prompt(), "Add another NIC? (y/n) > ");
    accepted(w.answer("y"));
    accepted(w.answer("NAT"));
    accepted(w.answer("n"));
    assert_eq!(w.prompt(), "Autostart (y/n) > ");
    accepted(w.answer("y"));
    assert_eq!(w.step, CoreStep::Confirm);
    assert_eq!(w.prompt(), "Confirm config (y/n) > ");
    accepted(w.answer("y"));
    assert!(w.is_finished());
    let vm = w.finish().unwrap();
    assert_eq!((vm.name.as_str(), vm.gid, vm.cpus, vm.memory, vm.autostart), ("vm1", 3, 4, 8192, true));
    assert_eq!(vm.nics.len(), 1);
    assert!(vm.displays.is_empty() && vm.disks.is_empty());
}

#[test]
fn core_vm_wizard_declined() {
    let mut w = CoreVmWizard::new(0, "x");
    for line in ["1", "512", "n", "n", "n", "n"] {
        accepted(w.answer(line));
    }
    accepted(w.answer("n"));
    assert_eq!(w.step, CoreStep::Declined);
    assert!(w.finish().is_none());
}
