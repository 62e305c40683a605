//! From raw records to canonical descriptors: the disk and image fallback
//! chains, the normalization of one record, and of a batch.

use crate::vmapi::brand::{Brand, MachineType};
use crate::vmapi::disk::{clone_disks, Disk, DiskView};
use crate::vmapi::machine::{Machine, MachineView, NormalizeError};
use crate::vmapi::nic::clone_nics;
use crate::vmapi::opaque::clone_document;
use crate::vmapi::state::{MachineState, State};
use crate::vmapi::text::clone_text;
use crate::vmapi::vm::{Vm, VmView};
use uuid::Uuid;
use vstd::prelude::*;

verus! {

/// The primary disk size of a record: its flexible disk size where it has one;
/// else the size of its second disk, where it lists two or more; else absent.
pub open spec fn spec_resolve_disk_size(
    flexible_disk_size: Option<i32>,
    disks: Option<Seq<DiskView>>,
) -> Option<i32> {
    if flexible_disk_size is Some {
        flexible_disk_size
    } else if disks is Some && disks->0.len() >= 2 {
        disks->0[1].size
    } else {
        None
    }
}

/// The image of a record: the one it names itself, where it does; else the one
/// its first disk names, where it has a disk; else none.
pub open spec fn spec_resolve_image(
    image_uuid: Option<Uuid>,
    disks: Option<Seq<DiskView>>,
) -> Option<Uuid> {
    if image_uuid is Some {
        image_uuid
    } else if disks is Some && disks->0.len() >= 1 {
        disks->0[0].image_uuid
    } else {
        None
    }
}

/// The machine type of a record's brand; a record without a brand is of
/// unknown type.
pub open spec fn spec_machine_type(brand: Option<Brand>) -> MachineType {
    match brand {
        Some(b) => b.spec_to_machine_type(),
        None => MachineType::Unknown,
    }
}

/// The canonical state of a record's state; a record without a state is in
/// an unknown one.
pub open spec fn spec_machine_state(state: Option<State>) -> MachineState {
    match state {
        Some(s) => s.spec_canonical(),
        None => MachineState::Unknown,
    }
}

impl VmView {
    /// The canonical descriptor of this record, or why it has none.
    pub open spec fn normalized(self) -> Result<MachineView, NormalizeError> {
        match spec_resolve_image(self.image_uuid, self.disks) {
            None => Err(NormalizeError::UnresolvableImage { id: self.uuid }),
            Some(image) => Ok(
                MachineView {
                    id: self.uuid,
                    name: self.alias,
                    machine_type: spec_machine_type(self.brand),
                    brand: self.brand,
                    state: spec_machine_state(self.state),
                    memory: self.ram,
                    metadata: self.customer_metadata,
                    tags: self.tags,
                    created: self.create_timestamp,
                    updated: self.last_modified,
                    firewall_enabled: self.firewall_enabled,
                    compute_node: self.server_uuid,
                    delegate_dataset: self.delegate_dataset == Some(true),
                    docker: self.docker == Some(true),
                    nics: self.nics,
                    disks: self.disks,
                    disk: spec_resolve_disk_size(self.flexible_disk_size, self.disks),
                    image,
                },
            ),
        }
    }
}

/// Resolves the primary disk size of a record from its flexible disk size and
/// its disk list. That no size can be told is an answer, not an error.
pub fn resolve_disk_size(
    flexible_disk_size: Option<i32>,
    disks: &Option<Vec<Disk>>,
) -> (r: Option<i32>)
    ensures
        r == spec_resolve_disk_size(flexible_disk_size, disks.deep_view()),
{
    if flexible_disk_size.is_some() {
        return flexible_disk_size;
    }
    match disks {
        Some(list) => {
            if list.len() >= 2 {
                list[1].size
            } else {
                None
            }
        },
        None => None,
    }
}

/// Resolves the image of a record from the image it names itself and its disk
/// list. `None` where neither names one: an empty disk list, or a first disk
/// without an image, resolves nothing.
pub fn resolve_image(image_uuid: Option<Uuid>, disks: &Option<Vec<Disk>>) -> (r: Option<Uuid>)
    ensures
        r == spec_resolve_image(image_uuid, disks.deep_view()),
{
    if image_uuid.is_some() {
        return image_uuid;
    }
    match disks {
        Some(list) => {
            if list.len() >= 1 {
                list[0].image_uuid
            } else {
                None
            }
        },
        None => None,
    }
}

/// What `r` holds, with the descriptor by its view.
pub open spec fn outcome_view(
    r: Result<Machine, NormalizeError>,
) -> Result<MachineView, NormalizeError> {
    match r {
        Ok(m) => Ok(m@),
        Err(e) => Err(e),
    }
}

impl Vm {
    /// Normalizes this record into a canonical descriptor.
    ///
    /// Brand and state are classified, which cannot fail. The image is
    /// resolved, and a record that names none, itself or on its first disk, is
    /// the one that has no descriptor: the error carries its identifier. All
    /// else is taken over as it is; the two flags that a descriptor always has
    /// are `false` where the record does not tell them.
    pub fn to_machine(&self) -> (r: Result<Machine, NormalizeError>)
        ensures
            outcome_view(r) == self@.normalized(),
    {
        let machine_type = match self.brand {
            Some(b) => b.to_machine_type(),
            None => MachineType::Unknown,
        };
        let state = match self.state {
            Some(s) => s.canonical(),
            None => MachineState::Unknown,
        };
        let disk = resolve_disk_size(self.flexible_disk_size, &self.disks);
        let image = match resolve_image(self.image_uuid, &self.disks) {
            Some(image) => image,
            None => {
                return Err(NormalizeError::UnresolvableImage { id: self.uuid });
            },
        };
        let delegate_dataset = match self.delegate_dataset {
            Some(b) => b,
            None => false,
        };
        let docker = match self.docker {
            Some(b) => b,
            None => false,
        };
        Ok(
            Machine {
                id: self.uuid,
                name: clone_text(&self.alias),
                machine_type,
                brand: self.brand,
                state,
                memory: self.ram,
                metadata: clone_document(&self.customer_metadata),
                tags: clone_document(&self.tags),
                created: self.create_timestamp,
                updated: self.last_modified,
                firewall_enabled: self.firewall_enabled,
                compute_node: self.server_uuid,
                delegate_dataset,
                docker,
                nics: clone_nics(&self.nics),
                disks: clone_disks(&self.disks),
                disk,
                image,
            },
        )
    }
}

/// The descriptors of the records of a batch that have one, in the batch's order.
pub open spec fn spec_batch_machines(vms: Seq<VmView>) -> Seq<MachineView>
    decreases vms.len(),
{
    if vms.len() == 0 {
        Seq::empty()
    } else {
        let before = spec_batch_machines(vms.drop_last());
        match vms.last().normalized() {
            Ok(m) => before.push(m),
            Err(_) => before,
        }
    }
}

/// The errors of the records of a batch that have no descriptor, in the
/// batch's order.
pub open spec fn spec_batch_errors(vms: Seq<VmView>) -> Seq<NormalizeError>
    decreases vms.len(),
{
    if vms.len() == 0 {
        Seq::empty()
    } else {
        let before = spec_batch_errors(vms.drop_last());
        match vms.last().normalized() {
            Ok(_) => before,
            Err(e) => before.push(e),
        }
    }
}

/// What came of a batch of records: the descriptors of those that could be
/// normalized, and for each of the others an error that names it.
#[derive(Debug, PartialEq)]
pub struct NormalizedBatch {
    pub machines: Vec<Machine>,
    pub errors: Vec<NormalizeError>,
}

/// Normalizes each record of a batch by itself. A record that has no
/// descriptor adds an error and takes nothing from the others.
pub fn normalize_batch(vms: &[Vm]) -> (r: NormalizedBatch)
    ensures
        r.machines.deep_view() == spec_batch_machines(vms.deep_view()),
        r.errors@ == spec_batch_errors(vms.deep_view()),
        r.machines.len() + r.errors.len() == vms.len(),
{
    let mut machines: Vec<Machine> = Vec::new();
    let mut errors: Vec<NormalizeError> = Vec::new();
    let mut i: usize = 0;
    assert(vms.deep_view().take(0) =~= Seq::<VmView>::empty());
    assert(machines.deep_view() =~= Seq::<MachineView>::empty());
    while i < vms.len()
        invariant
            i <= vms.len(),
            machines.deep_view() == spec_batch_machines(vms.deep_view().take(i as int)),
            errors@ == spec_batch_errors(vms.deep_view().take(i as int)),
            machines.len() + errors.len() == i,
        decreases vms.len() - i,
    {
        let ghost done = vms.deep_view().take(i as int);
        let ghost next = vms.deep_view().take(i + 1);
        let ghost before = machines.deep_view();
        assert(next.drop_last() =~= done);
        assert(next.last() == vms[i as int]@);
        match vms[i].to_machine() {
            Ok(m) => {
                machines.push(m);
                assert(machines.deep_view() =~= before.push(m@));
            },
            Err(e) => {
                errors.push(e);
                assert(machines.deep_view() =~= before);
            },
        }
        i += 1;
    }
    assert(vms.deep_view().take(i as int) =~= vms.deep_view());
    NormalizedBatch { machines, errors }
}

/// Takes what a fetch returned. The records of a fetch that succeeded are
/// normalized as a batch; the error of one that failed is handed on as it is.
pub fn normalize_fetched<E>(fetched: Result<Vec<Vm>, E>) -> (r: Result<NormalizedBatch, E>)
    ensures
        match fetched {
            Ok(vms) => r is Ok && r->Ok_0.machines.deep_view() == spec_batch_machines(
                vms.deep_view(),
            ) && r->Ok_0.errors@ == spec_batch_errors(vms.deep_view()),
            Err(e) => r == Err::<NormalizedBatch, E>(e),
        },
{
    match fetched {
        Ok(vms) => {
            let records = vms.as_slice();
            assert(records.deep_view() =~= vms.deep_view());
            Ok(normalize_batch(records))
        },
        Err(e) => Err(e),
    }
}

/// Normalization never alters the identity of a record: a descriptor has the
/// identifier of its record, and so has an error.
pub proof fn lemma_normalization_keeps_the_identifier(vm: VmView)
    ensures
        match vm.normalized() {
            Ok(m) => m.id == vm.uuid,
            Err(e) => e.spec_id() == vm.uuid,
        },
{
}

/// Normalization is a function of the record: whatever two runs on records
/// that hold the same return, they return the same.
pub proof fn lemma_normalization_is_repeatable(
    first: Vm,
    second: Vm,
    first_outcome: Result<Machine, NormalizeError>,
    second_outcome: Result<Machine, NormalizeError>,
)
    requires
        first@ == second@,
        outcome_view(first_outcome) == first@.normalized(),
        outcome_view(second_outcome) == second@.normalized(),
    ensures
        outcome_view(first_outcome) == outcome_view(second_outcome),
{
}

/// A record has a descriptor exactly if it names an image, itself or on its
/// first disk.
pub proof fn lemma_normalized_iff_image_resolves(vm: VmView)
    ensures
        vm.normalized() is Ok <==> spec_resolve_image(vm.image_uuid, vm.disks) is Some,
        vm.normalized() is Ok ==> Some(vm.normalized()->Ok_0.image) == spec_resolve_image(
            vm.image_uuid,
            vm.disks,
        ),
{
}

/// Every record of a batch ends up as a descriptor or as an error, never as
/// both and never as neither.
pub proof fn lemma_batch_accounts_for_every_record(vms: Seq<VmView>)
    ensures
        spec_batch_machines(vms).len() + spec_batch_errors(vms).len() == vms.len(),
    decreases vms.len(),
{
    if vms.len() > 0 {
        lemma_batch_accounts_for_every_record(vms.drop_last());
    }
}

/// What a batch yields is what its parts yield, one after the other: the
/// records of one part have no bearing on what comes of the other.
pub proof fn lemma_batch_of_parts(a: Seq<VmView>, b: Seq<VmView>)
    ensures
        spec_batch_machines(a + b) == spec_batch_machines(a) + spec_batch_machines(b),
        spec_batch_errors(a + b) == spec_batch_errors(a) + spec_batch_errors(b),
    decreases b.len(),
{
    if b.len() == 0 {
        assert(a + b =~= a);
        assert(spec_batch_machines(a) + spec_batch_machines(b) =~= spec_batch_machines(a));
        assert(spec_batch_errors(a) + spec_batch_errors(b) =~= spec_batch_errors(a));
    } else {
        lemma_batch_of_parts(a, b.drop_last());
        assert((a + b).drop_last() =~= a + b.drop_last());
        assert((a + b).last() == b.last());
        match b.last().normalized() {
            Ok(m) => {
                assert(spec_batch_machines(a + b) =~= spec_batch_machines(a)
                    + spec_batch_machines(b));
            },
            Err(e) => {
                assert(spec_batch_errors(a + b) =~= spec_batch_errors(a) + spec_batch_errors(b));
            },
        }
    }
}

/// A batch of one record yields that record's descriptor, or its error.
pub proof fn lemma_batch_of_one(vm: VmView)
    ensures
        vm.normalized() is Ok ==> spec_batch_machines(seq![vm]) == seq![vm.normalized()->Ok_0]
            && spec_batch_errors(seq![vm]) == Seq::<NormalizeError>::empty(),
        vm.normalized() is Err ==> spec_batch_machines(seq![vm]) == Seq::<MachineView>::empty()
            && spec_batch_errors(seq![vm]) == seq![vm.normalized()->Err_0],
{
    let one = seq![vm];
    assert(one.drop_last() =~= Seq::<VmView>::empty());
    assert(one.last() == vm);
    assert(spec_batch_machines(one.drop_last()) =~= Seq::<MachineView>::empty());
    assert(spec_batch_errors(one.drop_last()) =~= Seq::<NormalizeError>::empty());
    if vm.normalized() is Ok {
        assert(spec_batch_machines(one) =~= seq![vm.normalized()->Ok_0]);
    } else {
        assert(spec_batch_errors(one) =~= seq![vm.normalized()->Err_0]);
    }
}

/// Batch isolation. A record without a descriptor, wherever it stands in a
/// batch, leaves the descriptors as they are without it and adds its own error
/// between the errors of the records before it and of those after it.
pub proof fn lemma_failing_record_is_isolated(vms: Seq<VmView>, at: int)
    requires
        0 <= at < vms.len(),
        vms[at].normalized() is Err,
    ensures
        spec_batch_machines(vms) == spec_batch_machines(vms.remove(at)),
        spec_batch_errors(vms) == spec_batch_errors(vms.take(at)).push(
            vms[at].normalized()->Err_0,
        ) + spec_batch_errors(vms.skip(at + 1)),
{
    let before = vms.take(at);
    let after = vms.skip(at + 1);
    let one = seq![vms[at]];
    assert(vms =~= before + one + after);
    assert(vms.remove(at) =~= before + after);
    lemma_batch_of_one(vms[at]);
    lemma_batch_of_parts(before, one);
    lemma_batch_of_parts(before + one, after);
    lemma_batch_of_parts(before, after);
    assert(spec_batch_machines(before) + Seq::<MachineView>::empty() =~= spec_batch_machines(
        before,
    ));
    assert(spec_batch_errors(before) + seq![vms[at].normalized()->Err_0]
        =~= spec_batch_errors(before).push(vms[at].normalized()->Err_0));
}

} // verus!
