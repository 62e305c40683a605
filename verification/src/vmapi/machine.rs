//! The canonical machine descriptor.

use crate::vmapi::brand::{Brand, MachineType};
use crate::vmapi::disk::{clone_disks, Disk, DiskView};
use crate::vmapi::nic::{clone_nics, Nic, NicView};
use crate::vmapi::opaque::clone_document;
use crate::vmapi::state::MachineState;
use crate::vmapi::text::clone_text;
use chrono::NaiveDateTime;
use serde_json::Value;
use uuid::Uuid;
use vstd::prelude::*;

verus! {

/// A machine in canonical, brand-agnostic form.
#[derive(Debug, PartialEq)]
pub struct Machine {
    /// The identifier of the record this descriptor was made from.
    pub id: Uuid,
    pub name: Option<String>,
    pub machine_type: MachineType,
    /// The record's own brand, kept for diagnostics.
    pub brand: Option<Brand>,
    pub state: MachineState,
    pub memory: Option<i32>,
    pub metadata: Option<Value>,
    pub tags: Option<Value>,
    pub created: Option<NaiveDateTime>,
    pub updated: Option<NaiveDateTime>,
    pub firewall_enabled: Option<bool>,
    pub compute_node: Option<Uuid>,
    pub delegate_dataset: bool,
    pub docker: bool,
    pub nics: Option<Vec<Nic>>,
    /// The record's disk list, as it was.
    pub disks: Option<Vec<Disk>>,
    /// The size of the primary disk, where the record tells it.
    pub disk: Option<i32>,
    /// The image the machine was made from.
    pub image: Uuid,
}

/// What a `Machine` holds.
pub struct MachineView {
    pub id: Uuid,
    pub name: Option<Seq<char>>,
    pub machine_type: MachineType,
    pub brand: Option<Brand>,
    pub state: MachineState,
    pub memory: Option<i32>,
    pub metadata: Option<Value>,
    pub tags: Option<Value>,
    pub created: Option<NaiveDateTime>,
    pub updated: Option<NaiveDateTime>,
    pub firewall_enabled: Option<bool>,
    pub compute_node: Option<Uuid>,
    pub delegate_dataset: bool,
    pub docker: bool,
    pub nics: Option<Seq<NicView>>,
    pub disks: Option<Seq<DiskView>>,
    pub disk: Option<i32>,
    pub image: Uuid,
}

impl View for Machine {
    type V = MachineView;

    open spec fn view(&self) -> MachineView {
        MachineView {
            id: self.id,
            name: self.name.deep_view(),
            machine_type: self.machine_type,
            brand: self.brand,
            state: self.state,
            memory: self.memory,
            metadata: self.metadata,
            tags: self.tags,
            created: self.created,
            updated: self.updated,
            firewall_enabled: self.firewall_enabled,
            compute_node: self.compute_node,
            delegate_dataset: self.delegate_dataset,
            docker: self.docker,
            nics: self.nics.deep_view(),
            disks: self.disks.deep_view(),
            disk: self.disk,
            image: self.image,
        }
    }
}

impl DeepView for Machine {
    type V = MachineView;

    open spec fn deep_view(&self) -> MachineView {
        self@
    }
}

impl Clone for Machine {
    fn clone(&self) -> (r: Self)
        ensures
            r@ == self@,
    {
        Machine {
            id: self.id,
            name: clone_text(&self.name),
            machine_type: self.machine_type,
            brand: self.brand,
            state: self.state,
            memory: self.memory,
            metadata: clone_document(&self.metadata),
            tags: clone_document(&self.tags),
            created: self.created,
            updated: self.updated,
            firewall_enabled: self.firewall_enabled,
            compute_node: self.compute_node,
            delegate_dataset: self.delegate_dataset,
            docker: self.docker,
            nics: clone_nics(&self.nics),
            disks: clone_disks(&self.disks),
            disk: self.disk,
            image: self.image,
        }
    }
}

/// Why a record could not be normalized.
#[derive(Clone, Copy, Debug, PartialEq, Eq)]
pub enum NormalizeError {
    /// Neither the record nor its first disk names an image. `id` is the
    /// identifier of the record.
    UnresolvableImage { id: Uuid },
}

impl NormalizeError {
    /// The identifier of the record that could not be normalized.
    pub open spec fn spec_id(self) -> Uuid {
        match self {
            NormalizeError::UnresolvableImage { id } => id,
        }
    }

    /// The identifier of the record that could not be normalized.
    pub fn id(&self) -> (r: Uuid)
        ensures
            r == self.spec_id(),
    {
        match *self {
            NormalizeError::UnresolvableImage { id } => id,
        }
    }
}

} // verus!
