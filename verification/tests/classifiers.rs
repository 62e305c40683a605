use rust_sdc_clients::vmapi::text::same_text;
use rust_sdc_clients::vmapi::{
    classify_brand, classify_state, Brand, DiskModel, MachineState, MachineType, NicModel,
    SmartMachine, State, VirtualMachine, ZfsDataCompression,
};

const ALL_STATES: [(State, &str); 21] = [
    (State::Active, "active"),
    (State::Configured, "configured"),
    (State::Deleted, "deleted"),
    (State::Destroyed, "destroyed"),
    (State::Down, "down"),
    (State::Failed, "failed"),
    (State::Halt, "halt"),
    (State::Halting, "halting"),
    (State::Incomplete, "incomplete"),
    (State::Installed, "installed"),
    (State::Off, "off"),
    (State::Offline, "offline"),
    (State::Provisioning, "provisioning"),
    (State::Ready, "ready"),
    (State::Running, "running"),
    (State::ShuttingDown, "shutting_down"),
    (State::Stopped, "stopped"),
    (State::Stopping, "stopping"),
    (State::Unavailable, "unavailable"),
    (State::Unknown, "unknown"),
    (State::Unreachable, "unreachable"),
];

const ALL_BRANDS: [(Brand, &str); 6] = [
    (Brand::BHYVE, "bhyve"),
    (Brand::KVM, "kvm"),
    (Brand::LX, "lx"),
    (Brand::Joyent, "joyent"),
    (Brand::JoyentMinimal, "joyent-minimal"),
    (Brand::Unknown, "unknown"),
];

fn expected_state(tag: &str) -> MachineState {
    match tag {
        "configured" | "incomplete" | "unavailable" | "provisioning" => MachineState::Provisioning,
        "ready" => MachineState::Ready,
        "running" => MachineState::Running,
        "halting" | "stopping" | "shutting_down" => MachineState::Stopping,
        "off" | "down" | "installed" | "stopped" => MachineState::Stopped,
        "unreachable" => MachineState::Offline,
        "destroyed" => MachineState::Deleted,
        "failed" => MachineState::Failed,
        _ => MachineState::Unknown,
    }
}

#[test]
fn recognized_brands_have_their_documented_type() {
    assert_eq!(classify_brand(Some("bhyve")), MachineType::VirtualMachine);
    assert_eq!(classify_brand(Some("kvm")), MachineType::VirtualMachine);
    assert_eq!(classify_brand(Some("lx")), MachineType::SmartMachine);
    assert_eq!(classify_brand(Some("joyent")), MachineType::SmartMachine);
    assert_eq!(classify_brand(Some("joyent-minimal")), MachineType::SmartMachine);
}

#[test]
fn unrecognized_or_absent_brand_is_unknown() {
    assert_eq!(classify_brand(None), MachineType::Unknown);
    assert_eq!(classify_brand(Some("unknown")), MachineType::Unknown);
    assert_eq!(classify_brand(Some("")), MachineType::Unknown);
    assert_eq!(classify_brand(Some("xen")), MachineType::Unknown);
    assert_eq!(classify_brand(Some("KVM")), MachineType::Unknown);
    assert_eq!(classify_brand(Some("kvm ")), MachineType::Unknown);
    assert_eq!(classify_brand(Some("joyent-minima")), MachineType::Unknown);
    assert_eq!(classify_brand(Some("joyent_minimal")), MachineType::Unknown);
}

#[test]
fn brand_to_machine_type_follows_the_table() {
    assert_eq!(Brand::BHYVE.to_machine_type(), MachineType::VirtualMachine);
    assert_eq!(Brand::KVM.to_machine_type(), MachineType::VirtualMachine);
    assert_eq!(Brand::LX.to_machine_type(), MachineType::SmartMachine);
    assert_eq!(Brand::Joyent.to_machine_type(), MachineType::SmartMachine);
    assert_eq!(Brand::JoyentMinimal.to_machine_type(), MachineType::SmartMachine);
    assert_eq!(Brand::Unknown.to_machine_type(), MachineType::Unknown);
}

#[test]
fn brand_tags_round_trip() {
    for (brand, tag) in ALL_BRANDS {
        assert_eq!(brand.as_str(), tag);
        assert_eq!(Brand::parse(tag), brand);
        assert_eq!(Brand::parse(brand.as_str()), brand);
        assert_eq!(classify_brand(Some(tag)), brand.to_machine_type());
    }
    assert_eq!(Brand::parse("vmware"), Brand::Unknown);
    assert_eq!(Brand::parse(""), Brand::Unknown);
}

#[test]
fn machine_type_names() {
    assert_eq!(MachineType::SmartMachine.as_str(), "smartmachine");
    assert_eq!(MachineType::VirtualMachine.as_str(), "virtualmachine");
    assert_eq!(MachineType::Unknown.as_str(), "unknown");
}

#[test]
fn brand_families_are_told_apart() {
    assert_ne!(VirtualMachine::BHYVE, VirtualMachine::KVM);
    assert_ne!(SmartMachine::Joyent, SmartMachine::JoyentMinimal);
    assert_ne!(SmartMachine::Joyent, SmartMachine::LX);
}

#[test]
fn every_recognized_state_follows_the_table() {
    for (state, tag) in ALL_STATES {
        assert_eq!(classify_state(Some(tag)), expected_state(tag), "{}", tag);
        assert_eq!(state.canonical(), expected_state(tag), "{}", tag);
    }
}

#[test]
fn state_table_entry_by_entry() {
    assert_eq!(classify_state(Some("configured")), MachineState::Provisioning);
    assert_eq!(classify_state(Some("incomplete")), MachineState::Provisioning);
    assert_eq!(classify_state(Some("unavailable")), MachineState::Provisioning);
    assert_eq!(classify_state(Some("provisioning")), MachineState::Provisioning);
    assert_eq!(classify_state(Some("ready")), MachineState::Ready);
    assert_eq!(classify_state(Some("running")), MachineState::Running);
    assert_eq!(classify_state(Some("halting")), MachineState::Stopping);
    assert_eq!(classify_state(Some("stopping")), MachineState::Stopping);
    assert_eq!(classify_state(Some("shutting_down")), MachineState::Stopping);
    assert_eq!(classify_state(Some("off")), MachineState::Stopped);
    assert_eq!(classify_state(Some("down")), MachineState::Stopped);
    assert_eq!(classify_state(Some("installed")), MachineState::Stopped);
    assert_eq!(classify_state(Some("stopped")), MachineState::Stopped);
    assert_eq!(classify_state(Some("unreachable")), MachineState::Offline);
    assert_eq!(classify_state(Some("destroyed")), MachineState::Deleted);
    assert_eq!(classify_state(Some("failed")), MachineState::Failed);
    assert_eq!(classify_state(Some("active")), MachineState::Unknown);
    assert_eq!(classify_state(Some("halt")), MachineState::Unknown);
    assert_eq!(classify_state(Some("offline")), MachineState::Unknown);
    assert_eq!(classify_state(Some("unknown")), MachineState::Unknown);
}

#[test]
fn raw_deleted_state_is_unknown_and_destroyed_is_deleted() {
    assert_eq!(classify_state(Some("deleted")), MachineState::Unknown);
    assert_eq!(State::Deleted.canonical(), MachineState::Unknown);
    assert_eq!(State::Deleted.to_machine_state(), "unknown");
    assert_eq!(classify_state(Some("destroyed")), MachineState::Deleted);
    assert_eq!(State::Destroyed.to_machine_state(), "deleted");
}

#[test]
fn other_state_strings_and_absence_are_unknown() {
    assert_eq!(classify_state(None), MachineState::Unknown);
    assert_eq!(classify_state(Some("")), MachineState::Unknown);
    assert_eq!(classify_state(Some("Running")), MachineState::Unknown);
    assert_eq!(classify_state(Some("shutting-down")), MachineState::Unknown);
    assert_eq!(classify_state(Some("shutting down")), MachineState::Unknown);
    assert_eq!(classify_state(Some("rebooting")), MachineState::Unknown);
    assert_eq!(classify_state(Some("unreachabl")), MachineState::Unknown);
    assert_eq!(classify_state(Some("unavailablf")), MachineState::Unknown);
    assert_eq!(classify_state(Some("stoppedd")), MachineState::Unknown);
}

#[test]
fn state_tags_round_trip() {
    for (state, tag) in ALL_STATES {
        assert_eq!(state.as_str(), tag);
        assert_eq!(State::parse(tag), state);
    }
    assert_eq!(State::parse("paused"), State::Unknown);
}

#[test]
fn to_machine_state_names_the_canonical_state() {
    assert_eq!(State::Configured.to_machine_state(), "provisioning");
    assert_eq!(State::Incomplete.to_machine_state(), "provisioning");
    assert_eq!(State::Unavailable.to_machine_state(), "provisioning");
    assert_eq!(State::Provisioning.to_machine_state(), "provisioning");
    assert_eq!(State::Ready.to_machine_state(), "ready");
    assert_eq!(State::Running.to_machine_state(), "running");
    assert_eq!(State::Halting.to_machine_state(), "stopping");
    assert_eq!(State::Stopping.to_machine_state(), "stopping");
    assert_eq!(State::ShuttingDown.to_machine_state(), "stopping");
    assert_eq!(State::Off.to_machine_state(), "stopped");
    assert_eq!(State::Down.to_machine_state(), "stopped");
    assert_eq!(State::Installed.to_machine_state(), "stopped");
    assert_eq!(State::Stopped.to_machine_state(), "stopped");
    assert_eq!(State::Unreachable.to_machine_state(), "offline");
    assert_eq!(State::Failed.to_machine_state(), "failed");
    assert_eq!(State::Active.to_machine_state(), "unknown");
    assert_eq!(State::Halt.to_machine_state(), "unknown");
    assert_eq!(State::Offline.to_machine_state(), "unknown");
    assert_eq!(State::Unknown.to_machine_state(), "unknown");
}

#[test]
fn canonical_state_names() {
    assert_eq!(MachineState::Provisioning.as_str(), "provisioning");
    assert_eq!(MachineState::Ready.as_str(), "ready");
    assert_eq!(MachineState::Running.as_str(), "running");
    assert_eq!(MachineState::Stopping.as_str(), "stopping");
    assert_eq!(MachineState::Stopped.as_str(), "stopped");
    assert_eq!(MachineState::Offline.as_str(), "offline");
    assert_eq!(MachineState::Deleted.as_str(), "deleted");
    assert_eq!(MachineState::Failed.as_str(), "failed");
    assert_eq!(MachineState::Unknown.as_str(), "unknown");
}

#[test]
fn compression_names() {
    assert_eq!(ZfsDataCompression::Gzip.as_str(), "gzip");
    assert_eq!(ZfsDataCompression::Gzip1.as_str(), "gzip-1");
    assert_eq!(ZfsDataCompression::Gzip2.as_str(), "gzip-2");
    assert_eq!(ZfsDataCompression::Gzip3.as_str(), "gzip-3");
    assert_eq!(ZfsDataCompression::Gzip4.as_str(), "gzip-4");
    assert_eq!(ZfsDataCompression::Gzip5.as_str(), "gzip-5");
    assert_eq!(ZfsDataCompression::Gzip6.as_str(), "gzip-6");
    assert_eq!(ZfsDataCompression::Gzip7.as_str(), "gzip-7");
    assert_eq!(ZfsDataCompression::Gzip8.as_str(), "gzip-8");
    assert_eq!(ZfsDataCompression::Gzip9.as_str(), "gzip-9");
    assert_eq!(ZfsDataCompression::On.as_str(), "on");
    assert_eq!(ZfsDataCompression::Off.as_str(), "off");
    assert_eq!(ZfsDataCompression::Lz4.as_str(), "lz4");
    assert_eq!(ZfsDataCompression::Lzjb.as_str(), "lzjb");
    assert_eq!(ZfsDataCompression::Zle.as_str(), "zle");
}

#[test]
fn device_model_names() {
    assert_eq!(NicModel::Virtio.as_str(), "virtio");
    assert_eq!(NicModel::E1000.as_str(), "e1000");
    assert_eq!(NicModel::Rtl8139.as_str(), "rtl8139");
    assert_eq!(DiskModel::Virtio.as_str(), "virtio");
    assert_eq!(DiskModel::Ide.as_str(), "ide");
    assert_eq!(DiskModel::Scsi.as_str(), "scsi");
}

#[test]
fn same_text_compares_whole_texts() {
    assert!(same_text("", ""));
    assert!(same_text("kvm", "kvm"));
    assert!(!same_text("kvm", "kvn"));
    assert!(!same_text("kvm", "kv"));
    assert!(!same_text("kv", "kvm"));
    assert!(!same_text("", "a"));
    assert!(same_text("zon\u{e9}", "zon\u{e9}"));
    assert!(!same_text("zon\u{e9}", "zone"));
}
