//! The provider's names for compression settings and device models.

use vstd::prelude::*;

verus! {

/// The compression applied to a ZFS dataset.
#[derive(Clone, Copy, PartialEq, Eq, Debug, Structural)]
pub enum ZfsDataCompression {
    Gzip,
    Gzip1,
    Gzip2,
    Gzip3,
    Gzip4,
    Gzip5,
    Gzip6,
    Gzip7,
    Gzip8,
    Gzip9,
    On,
    Off,
    Lz4,
    Lzjb,
    Zle,
}

impl ZfsDataCompression {
    /// The provider's name for this setting.
    pub open spec fn spec_as_str(self) -> Seq<char> {
        match self {
            ZfsDataCompression::Gzip => "gzip"@,
            ZfsDataCompression::Gzip1 => "gzip-1"@,
            ZfsDataCompression::Gzip2 => "gzip-2"@,
            ZfsDataCompression::Gzip3 => "gzip-3"@,
            ZfsDataCompression::Gzip4 => "gzip-4"@,
            ZfsDataCompression::Gzip5 => "gzip-5"@,
            ZfsDataCompression::Gzip6 => "gzip-6"@,
            ZfsDataCompression::Gzip7 => "gzip-7"@,
            ZfsDataCompression::Gzip8 => "gzip-8"@,
            ZfsDataCompression::Gzip9 => "gzip-9"@,
            ZfsDataCompression::On => "on"@,
            ZfsDataCompression::Off => "off"@,
            ZfsDataCompression::Lz4 => "lz4"@,
            ZfsDataCompression::Lzjb => "lzjb"@,
            ZfsDataCompression::Zle => "zle"@,
        }
    }

    /// The provider's name for this setting.
    pub fn as_str(&self) -> (r: &'static str)
        ensures
            r@ == self.spec_as_str(),
    {
        match *self {
            ZfsDataCompression::Gzip => "gzip",
            ZfsDataCompression::Gzip1 => "gzip-1",
            ZfsDataCompression::Gzip2 => "gzip-2",
            ZfsDataCompression::Gzip3 => "gzip-3",
            ZfsDataCompression::Gzip4 => "gzip-4",
            ZfsDataCompression::Gzip5 => "gzip-5",
            ZfsDataCompression::Gzip6 => "gzip-6",
            ZfsDataCompression::Gzip7 => "gzip-7",
            ZfsDataCompression::Gzip8 => "gzip-8",
            ZfsDataCompression::Gzip9 => "gzip-9",
            ZfsDataCompression::On => "on",
            ZfsDataCompression::Off => "off",
            ZfsDataCompression::Lz4 => "lz4",
            ZfsDataCompression::Lzjb => "lzjb",
            ZfsDataCompression::Zle => "zle",
        }
    }
}

/// The device model of a virtual network interface.
#[derive(Clone, Copy, PartialEq, Eq, Debug, Structural)]
pub enum NicModel {
    Virtio,
    E1000,
    Rtl8139,
}

impl NicModel {
    /// The provider's name for this setting.
    pub open spec fn spec_as_str(self) -> Seq<char> {
        match self {
            NicModel::Virtio => "virtio"@,
            NicModel::E1000 => "e1000"@,
            NicModel::Rtl8139 => "rtl8139"@,
        }
    }

    /// The provider's name for this setting.
    pub fn as_str(&self) -> (r: &'static str)
        ensures
            r@ == self.spec_as_str(),
    {
        match *self {
            NicModel::Virtio => "virtio",
            NicModel::E1000 => "e1000",
            NicModel::Rtl8139 => "rtl8139",
        }
    }
}

/// The device model of a virtual disk.
#[derive(Clone, Copy, PartialEq, Eq, Debug, Structural)]
pub enum DiskModel {
    Virtio,
    Ide,
    Scsi,
}

impl DiskModel {
    /// The provider's name for this setting.
    pub open spec fn spec_as_str(self) -> Seq<char> {
        match self {
            DiskModel::Virtio => "virtio"@,
            DiskModel::Ide => "ide"@,
            DiskModel::Scsi => "scsi"@,
        }
    }

    /// The provider's name for this setting.
    pub fn as_str(&self) -> (r: &'static str)
        ensures
            r@ == self.spec_as_str(),
    {
        match *self {
            DiskModel::Virtio => "virtio",
            DiskModel::Ide => "ide",
            DiskModel::Scsi => "scsi",
        }
    }
}

} // verus!
