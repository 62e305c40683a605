//! Virtualization brands and the machine type each one stands for.

use crate::vmapi::text::same_text;
use vstd::prelude::*;

verus! {

/// The virtualization technology a machine runs under, as the provider tags it.
#[derive(Clone, Copy, PartialEq, Eq, Debug, Structural)]
pub enum Brand {
    BHYVE,
    KVM,
    LX,
    Joyent,
    JoyentMinimal,
    Unknown,
}

/// The brands that run a full guest operating system under hardware virtualization.
#[derive(Clone, Copy, PartialEq, Eq, Debug, Structural)]
pub enum VirtualMachine {
    BHYVE,
    KVM,
}

/// The brands that run as containers on the host's kernel.
#[derive(Clone, Copy, PartialEq, Eq, Debug, Structural)]
pub enum SmartMachine {
    Joyent,
    JoyentMinimal,
    LX,
}

/// The canonical machine type: what kind of virtualization a brand amounts to.
#[derive(Clone, Copy, PartialEq, Eq, Debug, Structural)]
pub enum MachineType {
    SmartMachine,
    VirtualMachine,
    Unknown,
}

impl Brand {
    /// The provider's tag for this brand.
    pub open spec fn spec_as_str(self) -> Seq<char> {
        match self {
            Brand::BHYVE => "bhyve"@,
            Brand::KVM => "kvm"@,
            Brand::LX => "lx"@,
            Brand::Joyent => "joyent"@,
            Brand::JoyentMinimal => "joyent-minimal"@,
            Brand::Unknown => "unknown"@,
        }
    }

    /// The brand a tag names; a tag outside the vocabulary names no known brand.
    pub open spec fn spec_parse(tag: Seq<char>) -> Brand {
        if tag == "bhyve"@ {
            Brand::BHYVE
        } else if tag == "kvm"@ {
            Brand::KVM
        } else if tag == "lx"@ {
            Brand::LX
        } else if tag == "joyent"@ {
            Brand::Joyent
        } else if tag == "joyent-minimal"@ {
            Brand::JoyentMinimal
        } else {
            Brand::Unknown
        }
    }

    /// The machine type of this brand.
    pub open spec fn spec_to_machine_type(self) -> MachineType {
        match self {
            Brand::BHYVE | Brand::KVM => MachineType::VirtualMachine,
            Brand::LX | Brand::Joyent | Brand::JoyentMinimal => MachineType::SmartMachine,
            Brand::Unknown => MachineType::Unknown,
        }
    }

    /// The provider's tag for this brand.
    pub fn as_str(&self) -> (r: &'static str)
        ensures
            r@ == self.spec_as_str(),
    {
        match *self {
            Brand::BHYVE => "bhyve",
            Brand::KVM => "kvm",
            Brand::LX => "lx",
            Brand::Joyent => "joyent",
            Brand::JoyentMinimal => "joyent-minimal",
            Brand::Unknown => "unknown",
        }
    }

    /// Reads a brand tag. Brand vocabularies grow, so a tag that is not
    /// recognized gives `Brand::Unknown` and never an error.
    pub fn parse(tag: &str) -> (r: Brand)
        ensures
            r == Brand::spec_parse(tag@),
    {
        if same_text(tag, "bhyve") {
            Brand::BHYVE
        } else if same_text(tag, "kvm") {
            Brand::KVM
        } else if same_text(tag, "lx") {
            Brand::LX
        } else if same_text(tag, "joyent") {
            Brand::Joyent
        } else if same_text(tag, "joyent-minimal") {
            Brand::JoyentMinimal
        } else {
            Brand::Unknown
        }
    }

    /// The machine type of this brand. Total: `Brand::Unknown` has the type
    /// `MachineType::Unknown`.
    pub fn to_machine_type(&self) -> (r: MachineType)
        ensures
            r == self.spec_to_machine_type(),
    {
        match *self {
            Brand::BHYVE => MachineType::VirtualMachine,
            Brand::KVM => MachineType::VirtualMachine,
            Brand::LX => MachineType::SmartMachine,
            Brand::Joyent => MachineType::SmartMachine,
            Brand::JoyentMinimal => MachineType::SmartMachine,
            Brand::Unknown => MachineType::Unknown,
        }
    }
}

impl MachineType {
    /// The name of this machine type.
    pub open spec fn spec_as_str(self) -> Seq<char> {
        match self {
            MachineType::SmartMachine => "smartmachine"@,
            MachineType::VirtualMachine => "virtualmachine"@,
            MachineType::Unknown => "unknown"@,
        }
    }

    /// The name of this machine type.
    pub fn as_str(&self) -> (r: &'static str)
        ensures
            r@ == self.spec_as_str(),
    {
        match *self {
            MachineType::SmartMachine => "smartmachine",
            MachineType::VirtualMachine => "virtualmachine",
            MachineType::Unknown => "unknown",
        }
    }
}

/// The machine type of an optional brand tag: `bhyve` and `kvm` are
/// hardware-virtualized, `lx`, `joyent` and `joyent-minimal` are OS-virtualized,
/// and an absent or any other tag is unknown.
pub open spec fn spec_classify_brand(tag: Option<Seq<char>>) -> MachineType {
    match tag {
        None => MachineType::Unknown,
        Some(t) => if t == "bhyve"@ || t == "kvm"@ {
            MachineType::VirtualMachine
        } else if t == "lx"@ || t == "joyent"@ || t == "joyent-minimal"@ {
            MachineType::SmartMachine
        } else {
            MachineType::Unknown
        },
    }
}

/// Classifies an optional brand tag. Total: there is no tag it fails on.
pub fn classify_brand(tag: Option<&str>) -> (r: MachineType)
    ensures
        r == spec_classify_brand(tag.deep_view()),
{
    match tag {
        None => MachineType::Unknown,
        Some(t) => Brand::parse(t).to_machine_type(),
    }
}

/// Reading the tag of a brand gives that brand back, so no two brands share a tag.
pub proof fn lemma_brand_tag_round_trip(brand: Brand)
    ensures
        Brand::spec_parse(brand.spec_as_str()) == brand,
{
    reveal_strlit("bhyve");
    reveal_strlit("kvm");
    reveal_strlit("lx");
    reveal_strlit("joyent");
    reveal_strlit("joyent-minimal");
    reveal_strlit("unknown");
    assert("bhyve"@.len() == 5);
    assert("kvm"@.len() == 3);
    assert("lx"@.len() == 2);
    assert("joyent"@.len() == 6);
    assert("joyent-minimal"@.len() == 14);
    assert("unknown"@.len() == 7);
}

/// Classifying a tag is reading it as a brand and taking that brand's type.
pub proof fn lemma_classify_brand_reads_the_tag(tag: Seq<char>)
    ensures
        spec_classify_brand(Some(tag)) == Brand::spec_parse(tag).spec_to_machine_type(),
{
}

/// The type of a machine whose brand is absent is that of `Brand::Unknown`.
pub proof fn lemma_absent_brand_is_unknown()
    ensures
        spec_classify_brand(None) == Brand::Unknown.spec_to_machine_type(),
        spec_classify_brand(None) == MachineType::Unknown,
{
}

} // verus!
