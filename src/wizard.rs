//! Configuration wizards that ask for the parts of a virtual machine one
//! question at a time.
//!
//! A wizard says which question to ask (`prompt`) and takes the line typed in
//! reply (`answer`). A line it cannot read is rejected with a message, and the
//! same question is asked again.
use vstd::prelude::*;
use crate::input::{
    parse_i64, parse_u32, parse_u64, signed_text, unsigned_text, yes_no_hint, yes_no_of, YesNo,
};
use crate::vm::{
    disk_mode_hint, nic_type_hint, CoreVM, DiskConfig, DiskMode, DisplayConfig, NICConfig, NICType,
};
use crate::GID;

verus! {

/// How a wizard took a line.
#[derive(Debug)]
pub enum Answer {
    /// The line was taken, and the wizard moved on
    Accepted,
    /// The line could not be read, for the reason given; the question stands
    Rejected(String),
}

/// Whether `s` writes an integer that fits in a `u32`.
pub open spec fn u32_text(s: Seq<char>) -> Option<u32> {
    match unsigned_text(s) {
        Some(v) => if v <= u32::MAX {
            Some(v as u32)
        } else {
            None
        },
        None => None,
    }
}

/// Whether `s` writes an integer that fits in a `u64`.
pub open spec fn u64_text(s: Seq<char>) -> Option<u64> {
    match unsigned_text(s) {
        Some(v) => if v <= u64::MAX {
            Some(v as u64)
        } else {
            None
        },
        None => None,
    }
}

/// Whether `s` writes an integer that fits in an `i64`.
pub open spec fn i64_text(s: Seq<char>) -> Option<i64> {
    match signed_text(s) {
        Some(v) => if i64::MIN <= v <= i64::MAX {
            Some(v as i64)
        } else {
            None
        },
        None => None,
    }
}

/// The disk mode that `s` names, if any.
pub open spec fn disk_mode_of(s: Seq<char>) -> Option<DiskMode> {
    if s == "USB"@ {
        Some(DiskMode::USB)
    } else if s == "BLOCK"@ {
        Some(DiskMode::BLOCK)
    } else if s == "VIRTIO"@ {
        Some(DiskMode::VIRTIO)
    } else {
        None
    }
}

/// The NIC type that `s` names, if any.
pub open spec fn nic_type_of(s: Seq<char>) -> Option<NICType> {
    if s == "NAT"@ {
        Some(NICType::NAT)
    } else if s == "BRIDGE"@ {
        Some(NICType::BRIDGE)
    } else {
        None
    }
}

/// Whether `r` rejects a line with the message `m`.
pub open spec fn rejected_with(r: Answer, m: Seq<char>) -> bool {
    r matches Answer::Rejected(e) && e@ == m
}

// ---------------------------------------------------------------- displays

/// The question a display wizard is at.
#[derive(Debug)]
pub enum DisplayStep {
    More,
    Name,
    Width { name: String },
    Height { name: String, width: u32 },
    Ppi { name: String, width: u32, height: u32 },
    Finished,
}

/// Asks for the displays of a virtual machine.
#[derive(Debug)]
pub struct DisplayWizard {
    pub step: DisplayStep,
    pub displays: Vec<DisplayConfig>,
}

/// The question asked at each step.
pub open spec fn display_prompt(step: DisplayStep) -> Seq<char> {
    match step {
        DisplayStep::More => "Add another display? (y/n) > "@,
        DisplayStep::Name => "Display name > "@,
        DisplayStep::Width { .. } => "Display width > "@,
        DisplayStep::Height { .. } => "Display height > "@,
        DisplayStep::Ppi { .. } => "Display ppi > "@,
        DisplayStep::Finished => ""@,
    }
}

/// How a display wizard goes from `old` to `new` on the line `line`.
pub open spec fn display_answered(
    old: DisplayWizard,
    new: DisplayWizard,
    line: Seq<char>,
    r: Answer,
) -> bool {
    match old.step {
        DisplayStep::More => match yes_no_of(line) {
            Some(YesNo::YES) => r is Accepted && new == DisplayWizard { step: DisplayStep::Name, ..old },
            Some(YesNo::NO) => r is Accepted && new == DisplayWizard {
                step: DisplayStep::Finished,
                ..old
            },
            None => rejected_with(r, yes_no_hint()) && new == old,
        },
        DisplayStep::Name => r is Accepted && new.displays == old.displays && (new.step matches DisplayStep::Width { name } && name@ == line),
        DisplayStep::Width { name } => match u32_text(line) {
            Some(width) => r is Accepted && new == DisplayWizard {
                step: DisplayStep::Height { name, width },
                ..old
            },
            None => r is Rejected && new == old,
        },
        DisplayStep::Height { name, width } => match u32_text(line) {
            Some(height) => r is Accepted && new == DisplayWizard {
                step: DisplayStep::Ppi { name, width, height },
                ..old
            },
            None => r is Rejected && new == old,
        },
        DisplayStep::Ppi { name, width, height } => match u32_text(line) {
            Some(ppi) => r is Accepted && new.step == DisplayStep::More && new.displays@
                == old.displays@.push(DisplayConfig { name, width, height, ppi }),
            None => r is Rejected && new == old,
        },
        DisplayStep::Finished => new == old,
    }
}

impl DisplayWizard {
    /// A wizard that has asked nothing yet
    pub fn new() -> (r: DisplayWizard)
        ensures
            r.step == DisplayStep::More,
            r.displays@.len() == 0,
    {
        DisplayWizard { step: DisplayStep::More, displays: Vec::new() }
    }

    /// Whether every display has been given
    pub fn is_finished(&self) -> (r: bool)
        ensures
            r == (self.step is Finished),
    {
        match self.step {
            DisplayStep::Finished => true,
            _ => false,
        }
    }

    /// The question to ask next
    pub fn prompt(&self) -> (r: &'static str)
        ensures
            r@ == display_prompt(self.step),
    {
        match self.step {
            DisplayStep::More => "Add another display? (y/n) > ",
            DisplayStep::Name => "Display name > ",
            DisplayStep::Width { .. } => "Display width > ",
            DisplayStep::Height { .. } => "Display height > ",
            DisplayStep::Ppi { .. } => "Display ppi > ",
            DisplayStep::Finished => "",
        }
    }

    /// Takes the line typed in reply to the current question
    pub fn answer(&mut self, line: &str) -> (r: Answer)
        ensures
            display_answered(*old(self), *final(self), line@, r),
    {
        match &self.step {
            DisplayStep::More => match YesNo::parse(line) {
                Ok(YesNo::YES) => {
                    self.step = DisplayStep::Name;
                    Answer::Accepted
                },
                Ok(YesNo::NO) => {
                    self.step = DisplayStep::Finished;
                    Answer::Accepted
                },
                Err(e) => Answer::Rejected(e),
            },
            DisplayStep::Name => {
                self.step = DisplayStep::Width { name: line.to_owned() };
                Answer::Accepted
            },
            DisplayStep::Width { name } => match parse_u32(line) {
                Ok(width) => {
                    let name = name.clone();
                    self.step = DisplayStep::Height { name, width };
                    Answer::Accepted
                },
                Err(e) => Answer::Rejected(e),
            },
            DisplayStep::Height { name, width } => match parse_u32(line) {
                Ok(height) => {
                    let name = name.clone();
                    let width = *width;
                    self.step = DisplayStep::Ppi { name, width, height };
                    Answer::Accepted
                },
                Err(e) => Answer::Rejected(e),
            },
            DisplayStep::Ppi { name, width, height } => match parse_u32(line) {
                Ok(ppi) => {
                    let display = DisplayConfig {
                        name: name.clone(),
                        width: *width,
                        height: *height,
                        ppi,
                    };
                    self.displays.push(display);
                    self.step = DisplayStep::More;
                    Answer::Accepted
                },
                Err(e) => Answer::Rejected(e),
            },
            DisplayStep::Finished => Answer::Accepted,
        }
    }
}

// ---------------------------------------------------------------- disks

/// The question a disk wizard is at.
#[derive(Debug)]
pub enum DiskStep {
    More,
    Mid,
    Mode { mid: String },
    Readonly { mid: String, mode: DiskMode },
    Finished,
}

/// Asks for the disks of a virtual machine.
#[derive(Debug)]
pub struct DiskWizard {
    pub step: DiskStep,
    pub disks: Vec<DiskConfig>,
}

/// The question asked at each step.
pub open spec fn disk_prompt(step: DiskStep) -> Seq<char> {
    match step {
        DiskStep::More => "Add another disk? (y/n) > "@,
        DiskStep::Mid => "MID > "@,
        DiskStep::Mode { .. } => "Disk mode (USB/BLOCK/VIRTIO) > "@,
        DiskStep::Readonly { .. } => "Readonly (y/n) > "@,
        DiskStep::Finished => ""@,
    }
}

/// How a disk wizard goes from `old` to `new` on the line `line`.
pub open spec fn disk_answered(old: DiskWizard, new: DiskWizard, line: Seq<char>, r: Answer) -> bool {
    match old.step {
        DiskStep::More => match yes_no_of(line) {
            Some(YesNo::YES) => r is Accepted && new == DiskWizard { step: DiskStep::Mid, ..old },
            Some(YesNo::NO) => r is Accepted && new == DiskWizard { step: DiskStep::Finished, ..old },
            None => rejected_with(r, yes_no_hint()) && new == old,
        },
        DiskStep::Mid => r is Accepted && new.disks == old.disks && (new.step matches DiskStep::Mode {
            mid,
        } && mid@ == line),
        DiskStep::Mode { mid } => match disk_mode_of(line) {
            Some(mode) => r is Accepted && new == DiskWizard {
                step: DiskStep::Readonly { mid, mode },
                ..old
            },
            None => rejected_with(r, disk_mode_hint()) && new == old,
        },
        DiskStep::Readonly { mid, mode } => match yes_no_of(line) {
            Some(a) => r is Accepted && new.step == DiskStep::More && new.disks@ == old.disks@.push(
                DiskConfig { mid, mode, readonly: a == YesNo::YES },
            ),
            None => rejected_with(r, yes_no_hint()) && new == old,
        },
        DiskStep::Finished => new == old,
    }
}

impl DiskWizard {
    /// A wizard that has asked nothing yet
    pub fn new() -> (r: DiskWizard)
        ensures
            r.step == DiskStep::More,
            r.disks@.len() == 0,
    {
        DiskWizard { step: DiskStep::More, disks: Vec::new() }
    }

    /// Whether every disk has been given
    pub fn is_finished(&self) -> (r: bool)
        ensures
            r == (self.step is Finished),
    {
        match self.step {
            DiskStep::Finished => true,
            _ => false,
        }
    }

    /// The question to ask next
    pub fn prompt(&self) -> (r: &'static str)
        ensures
            r@ == disk_prompt(self.step),
    {
        match self.step {
            DiskStep::More => "Add another disk? (y/n) > ",
            DiskStep::Mid => "MID > ",
            DiskStep::Mode { .. } => "Disk mode (USB/BLOCK/VIRTIO) > ",
            DiskStep::Readonly { .. } => "Readonly (y/n) > ",
            DiskStep::Finished => "",
        }
    }

    /// Takes the line typed in reply to the current question
    pub fn answer(&mut self, line: &str) -> (r: Answer)
        ensures
            disk_answered(*old(self), *final(self), line@, r),
    {
        match &self.step {
            DiskStep::More => match YesNo::parse(line) {
                Ok(YesNo::YES) => {
                    self.step = DiskStep::Mid;
                    Answer::Accepted
                },
                Ok(YesNo::NO) => {
                    self.step = DiskStep::Finished;
                    Answer::Accepted
                },
                Err(e) => Answer::Rejected(e),
            },
            DiskStep::Mid => {
                self.step = DiskStep::Mode { mid: line.to_owned() };
                Answer::Accepted
            },
            DiskStep::Mode { mid } => match DiskMode::parse(line) {
                Ok(mode) => {
                    let mid = mid.clone();
                    self.step = DiskStep::Readonly { mid, mode };
                    Answer::Accepted
                },
                Err(e) => Answer::Rejected(e),
            },
            DiskStep::Readonly { mid, mode } => match YesNo::parse(line) {
                Ok(a) => {
                    let disk = DiskConfig { mid: mid.clone(), mode: *mode, readonly: a.as_bool() };
                    self.disks.push(disk);
                    self.step = DiskStep::More;
                    Answer::Accepted
                },
                Err(e) => Answer::Rejected(e),
            },
            DiskStep::Finished => Answer::Accepted,
        }
    }
}

// ---------------------------------------------------------------- NICs

/// The question a NIC wizard is at.
#[derive(Debug)]
pub enum NicStep {
    More,
    Type,
    Host,
    Finished,
}

/// Asks for the NICs of a virtual machine.
#[derive(Debug)]
pub struct NicWizard {
    pub step: NicStep,
    pub nics: Vec<NICConfig>,
}

/// The question asked at each step.
pub open spec fn nic_prompt(step: NicStep) -> Seq<char> {
    match step {
        NicStep::More => "Add another NIC? (y/n) > "@,
        NicStep::Type => "NIC type (NAT/BRIDGE) > "@,
        NicStep::Host => "Host NIC id > "@,
        NicStep::Finished => ""@,
    }
}

/// How a NIC wizard goes from `old` to `new` on the line `line`. A `NAT` NIC
/// is complete at once; a `BRIDGE` NIC asks for its host NIC.
pub open spec fn nic_answered(old: NicWizard, new: NicWizard, line: Seq<char>, r: Answer) -> bool {
    match old.step {
        NicStep::More => match yes_no_of(line) {
            Some(YesNo::YES) => r is Accepted && new == NicWizard { step: NicStep::Type, ..old },
            Some(YesNo::NO) => r is Accepted && new == NicWizard { step: NicStep::Finished, ..old },
            None => rejected_with(r, yes_no_hint()) && new == old,
        },
        NicStep::Type => match nic_type_of(line) {
            Some(NICType::NAT) => r is Accepted && new.step == NicStep::More && new.nics@
                == old.nics@.push(NICConfig { ty: NICType::NAT, host: None }),
            Some(NICType::BRIDGE) => r is Accepted && new == NicWizard { step: NicStep::Host, ..old },
            None => rejected_with(r, nic_type_hint()) && new == old,
        },
        NicStep::Host => match i64_text(line) {
            Some(host) => r is Accepted && new.step == NicStep::More && new.nics@ == old.nics@.push(
                NICConfig { ty: NICType::BRIDGE, host: Some(host) },
            ),
            None => r is Rejected && new == old,
        },
        NicStep::Finished => new == old,
    }
}

impl NicWizard {
    /// A wizard that has asked nothing yet
    pub fn new() -> (r: NicWizard)
        ensures
            r.step == NicStep::More,
            r.nics@.len() == 0,
    {
        NicWizard { step: NicStep::More, nics: Vec::new() }
    }

    /// Whether every NIC has been given
    pub fn is_finished(&self) -> (r: bool)
        ensures
            r == (self.step is Finished),
    {
        match self.step {
            NicStep::Finished => true,
            _ => false,
        }
    }

    /// The question to ask next
    pub fn prompt(&self) -> (r: &'static str)
        ensures
            r@ == nic_prompt(self.step),
    {
        match self.step {
            NicStep::More => "Add another NIC? (y/n) > ",
            NicStep::Type => "NIC type (NAT/BRIDGE) > ",
            NicStep::Host => "Host NIC id > ",
            NicStep::Finished => "",
        }
    }

    /// Takes the line typed in reply to the current question
    pub fn answer(&mut self, line: &str) -> (r: Answer)
        ensures
            nic_answered(*old(self), *final(self), line@, r),
    {
        match self.step {
            NicStep::More => match YesNo::parse(line) {
                Ok(YesNo::YES) => {
                    self.step = NicStep::Type;
                    Answer::Accepted
                },
                Ok(YesNo::NO) => {
                    self.step = NicStep::Finished;
                    Answer::Accepted
                },
                Err(e) => Answer::Rejected(e),
            },
            NicStep::Type => match NICType::parse(line) {
                Ok(NICType::NAT) => {
                    self.nics.push(NICConfig { ty: NICType::NAT, host: None });
                    self.step = NicStep::More;
                    Answer::Accepted
                },
                Ok(NICType::BRIDGE) => {
                    self.step = NicStep::Host;
                    Answer::Accepted
                },
                Err(e) => Answer::Rejected(e),
            },
            NicStep::Host => match parse_i64(line) {
                Ok(host) => {
                    self.nics.push(NICConfig { ty: NICType::BRIDGE, host: Some(host) });
                    self.step = NicStep::More;
                    Answer::Accepted
                },
                Err(e) => Answer::Rejected(e),
            },
            NicStep::Finished => Answer::Accepted,
        }
    }
}

// ---------------------------------------------------------------- core VM

/// The question a virtual machine wizard is at.
#[derive(Debug, Clone, Copy, PartialEq, Eq, Structural)]
pub enum CoreStep {
    Cpus,
    Memory,
    Displays,
    Disks,
    Nics,
    Autostart,
    Confirm,
    Confirmed,
    Declined,
}

/// Asks for the common properties of a virtual machine, then for its
/// confirmation.
#[derive(Debug)]
pub struct CoreVmWizard {
    pub step: CoreStep,
    pub name: String,
    pub gid: GID,
    pub cpus: u32,
    pub memory: u64,
    pub displays: DisplayWizard,
    pub disks: DiskWizard,
    pub nics: NicWizard,
    pub autostart: bool,
}

/// The question asked at each step.
pub open spec fn core_prompt(w: CoreVmWizard) -> Seq<char> {
    match w.step {
        CoreStep::Cpus => "CPU count > "@,
        CoreStep::Memory => "Memory in MiB > "@,
        CoreStep::Displays => display_prompt(w.displays.step),
        CoreStep::Disks => disk_prompt(w.disks.step),
        CoreStep::Nics => nic_prompt(w.nics.step),
        CoreStep::Autostart => "Autostart (y/n) > "@,
        CoreStep::Confirm => "Confirm config (y/n) > "@,
        _ => ""@,
    }
}

/// How a virtual machine wizard goes from `old` to `new` on the line `line`:
/// the displays, disks and NICs are asked in turn by their own wizards.
pub open spec fn core_answered(old: CoreVmWizard, new: CoreVmWizard, line: Seq<char>, r: Answer) -> bool {
    match old.step {
        CoreStep::Cpus => match u32_text(line) {
            Some(cpus) => r is Accepted && new == CoreVmWizard {
                step: CoreStep::Memory,
                cpus,
                ..old
            },
            None => r is Rejected && new == old,
        },
        CoreStep::Memory => match u64_text(line) {
            Some(memory) => r is Accepted && new == CoreVmWizard {
                step: CoreStep::Displays,
                memory,
                ..old
            },
            None => r is Rejected && new == old,
        },
        CoreStep::Displays => display_answered(old.displays, new.displays, line, r) && new
            == CoreVmWizard {
            step: if new.displays.step is Finished {
                CoreStep::Disks
            } else {
                CoreStep::Displays
            },
            displays: new.displays,
            ..old
        },
        CoreStep::Disks => disk_answered(old.disks, new.disks, line, r) && new == CoreVmWizard {
            step: if new.disks.step is Finished {
                CoreStep::Nics
            } else {
                CoreStep::Disks
            },
            disks: new.disks,
            ..old
        },
        CoreStep::Nics => nic_answered(old.nics, new.nics, line, r) && new == CoreVmWizard {
            step: if new.nics.step is Finished {
                CoreStep::Autostart
            } else {
                CoreStep::Nics
            },
            nics: new.nics,
            ..old
        },
        CoreStep::Autostart => match yes_no_of(line) {
            Some(a) => r is Accepted && new == CoreVmWizard {
                step: CoreStep::Confirm,
                autostart: a == YesNo::YES,
                ..old
            },
            None => rejected_with(r, yes_no_hint()) && new == old,
        },
        CoreStep::Confirm => match yes_no_of(line) {
            Some(YesNo::YES) => r is Accepted && new == CoreVmWizard {
                step: CoreStep::Confirmed,
                ..old
            },
            Some(YesNo::NO) => r is Accepted && new == CoreVmWizard { step: CoreStep::Declined, ..old },
            None => rejected_with(r, yes_no_hint()) && new == old,
        },
        _ => new == old,
    }
}

impl CoreVmWizard {
    /// A wizard for a machine named `name` in the group `gid`, that has asked
    /// nothing yet
    pub fn new(gid: GID, name: &str) -> (r: CoreVmWizard)
        ensures
            r.wf(),
            r.step == CoreStep::Cpus,
            r.name@ == name@,
            r.gid == gid,
    {
        CoreVmWizard {
            step: CoreStep::Cpus,
            name: name.to_owned(),
            gid,
            cpus: 0,
            memory: 0,
            displays: DisplayWizard::new(),
            disks: DiskWizard::new(),
            nics: NicWizard::new(),
            autostart: false,
        }
    }

    /// Whether each part's wizard is finished exactly when its turn is over.
    pub open spec fn wf(&self) -> bool {
        let s = self.step;
        &&& (s == CoreStep::Cpus || s == CoreStep::Memory || s == CoreStep::Displays)
            == !(self.displays.step is Finished)
        &&& (s == CoreStep::Cpus || s == CoreStep::Memory || s == CoreStep::Displays || s
            == CoreStep::Disks) == !(self.disks.step is Finished)
        &&& (s == CoreStep::Cpus || s == CoreStep::Memory || s == CoreStep::Displays || s
            == CoreStep::Disks || s == CoreStep::Nics) == !(self.nics.step is Finished)
    }

    /// Whether the configuration was confirmed or declined
    pub fn is_finished(&self) -> (r: bool)
        ensures
            r == (self.step == CoreStep::Confirmed || self.step == CoreStep::Declined),
    {
        self.step == CoreStep::Confirmed || self.step == CoreStep::Declined
    }

    /// The question to ask next
    pub fn prompt(&self) -> (r: &'static str)
        ensures
            r@ == core_prompt(*self),
    {
        match self.step {
            CoreStep::Cpus => "CPU count > ",
            CoreStep::Memory => "Memory in MiB > ",
            CoreStep::Displays => self.displays.prompt(),
            CoreStep::Disks => self.disks.prompt(),
            CoreStep::Nics => self.nics.prompt(),
            CoreStep::Autostart => "Autostart (y/n) > ",
            CoreStep::Confirm => "Confirm config (y/n) > ",
            _ => "",
        }
    }

    /// Takes the line typed in reply to the current question
    pub fn answer(&mut self, line: &str) -> (r: Answer)
        ensures
            old(self).wf() ==> final(self).wf(),
            core_answered(*old(self), *final(self), line@, r),
    {
        match self.step {
            CoreStep::Cpus => match parse_u32(line) {
                Ok(cpus) => {
                    self.cpus = cpus;
                    self.step = CoreStep::Memory;
                    Answer::Accepted
                },
                Err(e) => Answer::Rejected(e),
            },
            CoreStep::Memory => match parse_u64(line) {
                Ok(memory) => {
                    self.memory = memory;
                    self.step = CoreStep::Displays;
                    Answer::Accepted
                },
                Err(e) => Answer::Rejected(e),
            },
            CoreStep::Displays => {
                let r = self.displays.answer(line);
                if self.displays.is_finished() {
                    self.step = CoreStep::Disks;
                }
                r
            },
            CoreStep::Disks => {
                let r = self.disks.answer(line);
                if self.disks.is_finished() {
                    self.step = CoreStep::Nics;
                }
                r
            },
            CoreStep::Nics => {
                let r = self.nics.answer(line);
                if self.nics.is_finished() {
                    self.step = CoreStep::Autostart;
                }
                r
            },
            CoreStep::Autostart => match YesNo::parse(line) {
                Ok(a) => {
                    self.autostart = a.as_bool();
                    self.step = CoreStep::Confirm;
                    Answer::Accepted
                },
                Err(e) => Answer::Rejected(e),
            },
            CoreStep::Confirm => match YesNo::parse(line) {
                Ok(YesNo::YES) => {
                    self.step = CoreStep::Confirmed;
                    Answer::Accepted
                },
                Ok(YesNo::NO) => {
                    self.step = CoreStep::Declined;
                    Answer::Accepted
                },
                Err(e) => Answer::Rejected(e),
            },
            _ => Answer::Accepted,
        }
    }

    /// The configuration that was confirmed, or `None` where it was not
    pub fn finish(self) -> (r: Option<CoreVM>)
        ensures
            r is Some <==> self.step == CoreStep::Confirmed,
            r matches Some(vm) ==> {
                &&& vm.name == self.name
                &&& vm.gid == self.gid
                &&& vm.cpus == self.cpus
                &&& vm.memory == self.memory
                &&& vm.displays == self.displays.displays
                &&& vm.disks == self.disks.disks
                &&& vm.nics == self.nics.nics
                &&& vm.autostart == self.autostart
            },
    {
        if self.step == CoreStep::Confirmed {
            Some(
                CoreVM {
                    name: self.name,
                    gid: self.gid,
                    cpus: self.cpus,
                    memory: self.memory,
                    displays: self.displays.displays,
                    disks: self.disks.disks,
                    nics: self.nics.nics,
                    autostart: self.autostart,
                },
            )
        } else {
            None
        }
    }
}

} // verus!
