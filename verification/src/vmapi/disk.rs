//! The virtual disks of a hardware-virtualized machine.

use crate::vmapi::models::ZfsDataCompression;
use uuid::Uuid;
use vstd::prelude::*;

verus! {

/// One virtual disk, as the provider reports it.
#[derive(Debug, PartialEq)]
pub struct Disk {
    pub block_size: Option<i32>,
    pub boot: bool,
    pub compression: Option<ZfsDataCompression>,
    pub image_name: Option<String>,
    pub image_size: Option<i32>,
    pub image_uuid: Option<Uuid>,
    pub media: String,
    pub model: String,
    /// The path of the disk's device node on the compute node.
    pub path: String,
    pub pci_slot: String,
    pub refreservation: Option<i32>,
    pub size: Option<i32>,
    pub uuid: Uuid,
}

/// What a `Disk` holds.
pub struct DiskView {
    pub block_size: Option<i32>,
    pub boot: bool,
    pub compression: Option<ZfsDataCompression>,
    pub image_name: Option<Seq<char>>,
    pub image_size: Option<i32>,
    pub image_uuid: Option<Uuid>,
    pub media: Seq<char>,
    pub model: Seq<char>,
    pub path: Seq<char>,
    pub pci_slot: Seq<char>,
    pub refreservation: Option<i32>,
    pub size: Option<i32>,
    pub uuid: Uuid,
}

impl View for Disk {
    type V = DiskView;

    open spec fn view(&self) -> DiskView {
        DiskView {
            block_size: self.block_size,
            boot: self.boot,
            compression: self.compression,
            image_name: self.image_name.deep_view(),
            image_size: self.image_size,
            image_uuid: self.image_uuid,
            media: self.media@,
            model: self.model@,
            path: self.path@,
            pci_slot: self.pci_slot@,
            refreservation: self.refreservation,
            size: self.size,
            uuid: self.uuid,
        }
    }
}

impl DeepView for Disk {
    type V = DiskView;

    open spec fn deep_view(&self) -> DiskView {
        self@
    }
}

impl Clone for Disk {
    fn clone(&self) -> (r: Self)
        ensures
            r@ == self@,
    {
        Disk {
            block_size: self.block_size,
            boot: self.boot,
            compression: self.compression,
            image_name: self.image_name.clone(),
            image_size: self.image_size,
            image_uuid: self.image_uuid,
            media: self.media.clone(),
            model: self.model.clone(),
            path: self.path.clone(),
            pci_slot: self.pci_slot.clone(),
            refreservation: self.refreservation,
            size: self.size,
            uuid: self.uuid,
        }
    }
}

/// A copy of an optional list of disks.
pub fn clone_disks(disks: &Option<Vec<Disk>>) -> (r: Option<Vec<Disk>>)
    ensures
        r.deep_view() == disks.deep_view(),
{
    match disks {
        Some(list) => {
            let copy = list.clone();
            assert(copy.deep_view() =~= list.deep_view());
            Some(copy)
        },
        None => None,
    }
}

} // verus!
