//! The raw machine record, as the provider returns it.

use crate::vmapi::brand::Brand;
use crate::vmapi::disk::{clone_disks, Disk, DiskView};
use crate::vmapi::models::{DiskModel, NicModel, ZfsDataCompression};
use crate::vmapi::nic::{clone_nics, Nic, NicView};
use crate::vmapi::opaque::clone_document;
use crate::vmapi::state::State;
use crate::vmapi::text::{clone_text, clone_texts};
use chrono::NaiveDateTime;
use serde_json::Value;
use uuid::Uuid;
use vstd::prelude::*;

verus! {

/// One machine of the fleet, hardware-virtualized or zone, as the provider
/// reports it. Only the identifier is always there: what else a record holds
/// depends on the machine's brand and on the provider's version.
#[derive(Debug, PartialEq)]
pub struct Vm {
    pub alias: Option<String>,
    pub autoboot: Option<bool>,
    pub billing_id: Option<Uuid>,
    pub brand: Option<Brand>,
    pub cpu_cap: Option<i32>,
    pub cpu_shares: Option<i32>,
    /// Hardware-virtualized machines only.
    pub cpu_type: Option<String>,
    pub datasets: Option<Vec<String>>,
    pub datacenter_name: Option<String>,
    /// Hardware-virtualized machines only. By the fleet's convention the first
    /// disk is the boot disk and the second the first data disk.
    pub disks: Option<Vec<Disk>>,
    /// In UTC, as every timestamp of the record.
    pub create_timestamp: Option<NaiveDateTime>,
    pub destroyed: Option<NaiveDateTime>,
    /// Zones only.
    pub delegate_dataset: Option<bool>,
    pub dns_domain: Option<String>,
    pub do_not_inventory: Option<bool>,
    pub docker: Option<bool>,
    pub exit_status: Option<i32>,
    pub exit_timestamp: Option<NaiveDateTime>,
    /// The one aggregate disk size that a zone reports in place of a disk list.
    pub flexible_disk_size: Option<i32>,
    pub firewall_enabled: Option<bool>,
    /// Hardware-virtualized machines only.
    pub free_space: Option<i32>,
    /// Hardware-virtualized machines only.
    pub fs_allowed: Option<String>,
    pub hostname: Option<String>,
    /// The image the machine was made from. A hardware-virtualized machine may
    /// name it on its first disk instead.
    pub image_uuid: Option<Uuid>,
    pub customer_metadata: Option<Value>,
    /// Zones only.
    pub indestructible_delegated: Option<bool>,
    /// Zones only.
    pub indestructible_zoneroot: Option<bool>,
    pub last_modified: Option<NaiveDateTime>,
    pub internal_metadata: Option<Value>,
    pub limit_priv: Option<String>,
    pub maintain_resolvers: Option<bool>,
    pub max_locked_memory: Option<i32>,
    pub max_lwps: Option<i32>,
    pub max_physical_memory: Option<i32>,
    pub max_swap: Option<i32>,
    pub mdata_exec_timeout: Option<i32>,
    pub nics: Option<Vec<Nic>>,
    pub owner_uuid: Option<Uuid>,
    pub platform_buildstamp: Option<String>,
    pub quota: Option<i32>,
    pub ram: Option<i32>,
    pub resolvers: Option<Vec<String>>,
    pub snapshots: Option<Vec<String>>,
    pub tags: Option<Value>,
    pub tmpfs: Option<i32>,
    pub zfs_data_compression: Option<ZfsDataCompression>,
    pub zfs_io_priority: Option<i32>,
    pub zfs_snapshot_limit: Option<i32>,
    pub zlog_max_size: Option<i32>,
    pub zone_path: Option<String>,
    pub zonedid: Option<i32>,
    pub zoneid: Option<i32>,
    pub com1: Option<String>,
    pub com2: Option<String>,
    pub zlog_mode: Option<String>,
    pub zlog_name: Option<String>,
    pub vcpus: Option<i32>,
    pub disk_driver: Option<DiskModel>,
    pub nic_driver: Option<NicModel>,
    /// The compute node the machine is placed on.
    pub server_uuid: Option<Uuid>,
    pub state: Option<State>,
    pub zone_state: Option<State>,
    /// The machine's identifier: always present, and the record's durable key.
    pub uuid: Uuid,
}

/// What a `Vm` holds.
pub struct VmView {
    pub alias: Option<Seq<char>>,
    pub autoboot: Option<bool>,
    pub billing_id: Option<Uuid>,
    pub brand: Option<Brand>,
    pub cpu_cap: Option<i32>,
    pub cpu_shares: Option<i32>,
    pub cpu_type: Option<Seq<char>>,
    pub datasets: Option<Seq<Seq<char>>>,
    pub datacenter_name: Option<Seq<char>>,
    pub disks: Option<Seq<DiskView>>,
    pub create_timestamp: Option<NaiveDateTime>,
    pub destroyed: Option<NaiveDateTime>,
    pub delegate_dataset: Option<bool>,
    pub dns_domain: Option<Seq<char>>,
    pub do_not_inventory: Option<bool>,
    pub docker: Option<bool>,
    pub exit_status: Option<i32>,
    pub exit_timestamp: Option<NaiveDateTime>,
    pub flexible_disk_size: Option<i32>,
    pub firewall_enabled: Option<bool>,
    pub free_space: Option<i32>,
    pub fs_allowed: Option<Seq<char>>,
    pub hostname: Option<Seq<char>>,
    pub image_uuid: Option<Uuid>,
    pub customer_metadata: Option<Value>,
    pub indestructible_delegated: Option<bool>,
    pub indestructible_zoneroot: Option<bool>,
    pub last_modified: Option<NaiveDateTime>,
    pub internal_metadata: Option<Value>,
    pub limit_priv: Option<Seq<char>>,
    pub maintain_resolvers: Option<bool>,
    pub max_locked_memory: Option<i32>,
    pub max_lwps: Option<i32>,
    pub max_physical_memory: Option<i32>,
    pub max_swap: Option<i32>,
    pub mdata_exec_timeout: Option<i32>,
    pub nics: Option<Seq<NicView>>,
    pub owner_uuid: Option<Uuid>,
    pub platform_buildstamp: Option<Seq<char>>,
    pub quota: Option<i32>,
    pub ram: Option<i32>,
    pub resolvers: Option<Seq<Seq<char>>>,
    pub snapshots: Option<Seq<Seq<char>>>,
    pub tags: Option<Value>,
    pub tmpfs: Option<i32>,
    pub zfs_data_compression: Option<ZfsDataCompression>,
    pub zfs_io_priority: Option<i32>,
    pub zfs_snapshot_limit: Option<i32>,
    pub zlog_max_size: Option<i32>,
    pub zone_path: Option<Seq<char>>,
    pub zonedid: Option<i32>,
    pub zoneid: Option<i32>,
    pub com1: Option<Seq<char>>,
    pub com2: Option<Seq<char>>,
    pub zlog_mode: Option<Seq<char>>,
    pub zlog_name: Option<Seq<char>>,
    pub vcpus: Option<i32>,
    pub disk_driver: Option<DiskModel>,
    pub nic_driver: Option<NicModel>,
    pub server_uuid: Option<Uuid>,
    pub state: Option<State>,
    pub zone_state: Option<State>,
    pub uuid: Uuid,
}

impl View for Vm {
    type V = VmView;

    open spec fn view(&self) -> VmView {
        VmView {
            alias: self.alias.deep_view(),
            autoboot: self.autoboot,
            billing_id: self.billing_id,
            brand: self.brand,
            cpu_cap: self.cpu_cap,
            cpu_shares: self.cpu_shares,
            cpu_type: self.cpu_type.deep_view(),
            datasets: self.datasets.deep_view(),
            datacenter_name: self.datacenter_name.deep_view(),
            disks: self.disks.deep_view(),
            create_timestamp: self.create_timestamp,
            destroyed: self.destroyed,
            delegate_dataset: self.delegate_dataset,
            dns_domain: self.dns_domain.deep_view(),
            do_not_inventory: self.do_not_inventory,
            docker: self.docker,
            exit_status: self.exit_status,
            exit_timestamp: self.exit_timestamp,
            flexible_disk_size: self.flexible_disk_size,
            firewall_enabled: self.firewall_enabled,
            free_space: self.free_space,
            fs_allowed: self.fs_allowed.deep_view(),
            hostname: self.hostname.deep_view(),
            image_uuid: self.image_uuid,
            customer_metadata: self.customer_metadata,
            indestructible_delegated: self.indestructible_delegated,
            indestructible_zoneroot: self.indestructible_zoneroot,
            last_modified: self.last_modified,
            internal_metadata: self.internal_metadata,
            limit_priv: self.limit_priv.deep_view(),
            maintain_resolvers: self.maintain_resolvers,
            max_locked_memory: self.max_locked_memory,
            max_lwps: self.max_lwps,
            max_physical_memory: self.max_physical_memory,
            max_swap: self.max_swap,
            mdata_exec_timeout: self.mdata_exec_timeout,
            nics: self.nics.deep_view(),
            owner_uuid: self.owner_uuid,
            platform_buildstamp: self.platform_buildstamp.deep_view(),
            quota: self.quota,
            ram: self.ram,
            resolvers: self.resolvers.deep_view(),
            snapshots: self.snapshots.deep_view(),
            tags: self.tags,
            tmpfs: self.tmpfs,
            zfs_data_compression: self.zfs_data_compression,
            zfs_io_priority: self.zfs_io_priority,
            zfs_snapshot_limit: self.zfs_snapshot_limit,
            zlog_max_size: self.zlog_max_size,
            zone_path: self.zone_path.deep_view(),
            zonedid: self.zonedid,
            zoneid: self.zoneid,
            com1: self.com1.deep_view(),
            com2: self.com2.deep_view(),
            zlog_mode: self.zlog_mode.deep_view(),
            zlog_name: self.zlog_name.deep_view(),
            vcpus: self.vcpus,
            disk_driver: self.disk_driver,
            nic_driver: self.nic_driver,
            server_uuid: self.server_uuid,
            state: self.state,
            zone_state: self.zone_state,
            uuid: self.uuid,
        }
    }
}

impl DeepView for Vm {
    type V = VmView;

    open spec fn deep_view(&self) -> VmView {
        self@
    }
}

impl VmView {
    /// The record of which nothing is known but its identifier.
    pub open spec fn bare(uuid: Uuid) -> VmView {
        VmView {
            alias: None,
            autoboot: None,
            billing_id: None,
            brand: None,
            cpu_cap: None,
            cpu_shares: None,
            cpu_type: None,
            datasets: None,
            datacenter_name: None,
            disks: None,
            create_timestamp: None,
            destroyed: None,
            delegate_dataset: None,
            dns_domain: None,
            do_not_inventory: None,
            docker: None,
            exit_status: None,
            exit_timestamp: None,
            flexible_disk_size: None,
            firewall_enabled: None,
            free_space: None,
            fs_allowed: None,
            hostname: None,
            image_uuid: None,
            customer_metadata: None,
            indestructible_delegated: None,
            indestructible_zoneroot: None,
            last_modified: None,
            internal_metadata: None,
            limit_priv: None,
            maintain_resolvers: None,
            max_locked_memory: None,
            max_lwps: None,
            max_physical_memory: None,
            max_swap: None,
            mdata_exec_timeout: None,
            nics: None,
            owner_uuid: None,
            platform_buildstamp: None,
            quota: None,
            ram: None,
            resolvers: None,
            snapshots: None,
            tags: None,
            tmpfs: None,
            zfs_data_compression: None,
            zfs_io_priority: None,
            zfs_snapshot_limit: None,
            zlog_max_size: None,
            zone_path: None,
            zonedid: None,
            zoneid: None,
            com1: None,
            com2: None,
            zlog_mode: None,
            zlog_name: None,
            vcpus: None,
            disk_driver: None,
            nic_driver: None,
            server_uuid: None,
            state: None,
            zone_state: None,
            uuid,
        }
    }
}

impl Vm {
    /// The record of which nothing is known but its identifier.
    pub fn new(uuid: Uuid) -> (r: Vm)
        ensures
            r@ == VmView::bare(uuid),
    {
        Vm {
            alias: None,
            autoboot: None,
            billing_id: None,
            brand: None,
            cpu_cap: None,
            cpu_shares: None,
            cpu_type: None,
            datasets: None,
            datacenter_name: None,
            disks: None,
            create_timestamp: None,
            destroyed: None,
            delegate_dataset: None,
            dns_domain: None,
            do_not_inventory: None,
            docker: None,
            exit_status: None,
            exit_timestamp: None,
            flexible_disk_size: None,
            firewall_enabled: None,
            free_space: None,
            fs_allowed: None,
            hostname: None,
            image_uuid: None,
            customer_metadata: None,
            indestructible_delegated: None,
            indestructible_zoneroot: None,
            last_modified: None,
            internal_metadata: None,
            limit_priv: None,
            maintain_resolvers: None,
            max_locked_memory: None,
            max_lwps: None,
            max_physical_memory: None,
            max_swap: None,
            mdata_exec_timeout: None,
            nics: None,
            owner_uuid: None,
            platform_buildstamp: None,
            quota: None,
            ram: None,
            resolvers: None,
            snapshots: None,
            tags: None,
            tmpfs: None,
            zfs_data_compression: None,
            zfs_io_priority: None,
            zfs_snapshot_limit: None,
            zlog_max_size: None,
            zone_path: None,
            zonedid: None,
            zoneid: None,
            com1: None,
            com2: None,
            zlog_mode: None,
            zlog_name: None,
            vcpus: None,
            disk_driver: None,
            nic_driver: None,
            server_uuid: None,
            state: None,
            zone_state: None,
            uuid,
        }
    }
}

impl Clone for Vm {
    fn clone(&self) -> (r: Self)
        ensures
            r@ == self@,
    {
        Vm {
            alias: clone_text(&self.alias),
            autoboot: self.autoboot,
            billing_id: self.billing_id,
            brand: self.brand,
            cpu_cap: self.cpu_cap,
            cpu_shares: self.cpu_shares,
            cpu_type: clone_text(&self.cpu_type),
            datasets: clone_texts(&self.datasets),
            datacenter_name: clone_text(&self.datacenter_name),
            disks: clone_disks(&self.disks),
            create_timestamp: self.create_timestamp,
            destroyed: self.destroyed,
            delegate_dataset: self.delegate_dataset,
            dns_domain: clone_text(&self.dns_domain),
            do_not_inventory: self.do_not_inventory,
            docker: self.docker,
            exit_status: self.exit_status,
            exit_timestamp: self.exit_timestamp,
            flexible_disk_size: self.flexible_disk_size,
            firewall_enabled: self.firewall_enabled,
            free_space: self.free_space,
            fs_allowed: clone_text(&self.fs_allowed),
            hostname: clone_text(&self.hostname),
            image_uuid: self.image_uuid,
            customer_metadata: clone_document(&self.customer_metadata),
            indestructible_delegated: self.indestructible_delegated,
            indestructible_zoneroot: self.indestructible_zoneroot,
            last_modified: self.last_modified,
            internal_metadata: clone_document(&self.internal_metadata),
            limit_priv: clone_text(&self.limit_priv),
            maintain_resolvers: self.maintain_resolvers,
            max_locked_memory: self.max_locked_memory,
            max_lwps: self.max_lwps,
            max_physical_memory: self.max_physical_memory,
            max_swap: self.max_swap,
            mdata_exec_timeout: self.mdata_exec_timeout,
            nics: clone_nics(&self.nics),
            owner_uuid: self.owner_uuid,
            platform_buildstamp: clone_text(&self.platform_buildstamp),
            quota: self.quota,
            ram: self.ram,
            resolvers: clone_texts(&self.resolvers),
            snapshots: clone_texts(&self.snapshots),
            tags: clone_document(&self.tags),
            tmpfs: self.tmpfs,
            zfs_data_compression: self.zfs_data_compression,
            zfs_io_priority: self.zfs_io_priority,
            zfs_snapshot_limit: self.zfs_snapshot_limit,
            zlog_max_size: self.zlog_max_size,
            zone_path: clone_text(&self.zone_path),
            zonedid: self.zonedid,
            zoneid: self.zoneid,
            com1: clone_text(&self.com1),
            com2: clone_text(&self.com2),
            zlog_mode: clone_text(&self.zlog_mode),
            zlog_name: clone_text(&self.zlog_name),
            vcpus: self.vcpus,
            disk_driver: self.disk_driver,
            nic_driver: self.nic_driver,
            server_uuid: self.server_uuid,
            state: self.state,
            zone_state: self.zone_state,
            uuid: self.uuid,
        }
    }
}

} // verus!
