//! Network interfaces and network attachments.

use crate::vmapi::models::NicModel;
use uuid::Uuid;
use vstd::prelude::*;

verus! {

/// An IP address, held as the address's bits: 32 for version 4, 128 for version 6,
/// the first octet of the address in the most significant byte.
#[derive(Clone, Copy, PartialEq, Eq, Debug, Structural)]
pub enum IpAddress {
    V4(u32),
    V6(u128),
}

impl DeepView for IpAddress {
    type V = IpAddress;

    open spec fn deep_view(&self) -> IpAddress {
        *self
    }
}

/// One virtual network interface, as the provider reports it.
#[derive(Debug, PartialEq)]
pub struct Nic {
    pub interface: String,
    pub mac: String,
    pub vlan_id: i16,
    pub nic_tag: String,
    pub ip: IpAddress,
    pub ips: Vec<String>,
    pub netmask: IpAddress,
    pub gateway: Option<IpAddress>,
    pub gateways: Option<Vec<IpAddress>>,
    pub primary: Option<bool>,
    pub model: Option<NicModel>,
    pub network_uuid: Option<Uuid>,
    pub mtu: Option<i32>,
}

/// What a `Nic` holds.
pub struct NicView {
    pub interface: Seq<char>,
    pub mac: Seq<char>,
    pub vlan_id: i16,
    pub nic_tag: Seq<char>,
    pub ip: IpAddress,
    pub ips: Seq<Seq<char>>,
    pub netmask: IpAddress,
    pub gateway: Option<IpAddress>,
    pub gateways: Option<Seq<IpAddress>>,
    pub primary: Option<bool>,
    pub model: Option<NicModel>,
    pub network_uuid: Option<Uuid>,
    pub mtu: Option<i32>,
}

impl View for Nic {
    type V = NicView;

    open spec fn view(&self) -> NicView {
        NicView {
            interface: self.interface@,
            mac: self.mac@,
            vlan_id: self.vlan_id,
            nic_tag: self.nic_tag@,
            ip: self.ip,
            ips: self.ips.deep_view(),
            netmask: self.netmask,
            gateway: self.gateway,
            gateways: self.gateways.deep_view(),
            primary: self.primary,
            model: self.model,
            network_uuid: self.network_uuid,
            mtu: self.mtu,
        }
    }
}

impl DeepView for Nic {
    type V = NicView;

    open spec fn deep_view(&self) -> NicView {
        self@
    }
}

impl Clone for Nic {
    fn clone(&self) -> (r: Self)
        ensures
            r@ == self@,
    {
        let ips = self.ips.clone();
        let gateways = self.gateways.clone();
        proof {
            assert(ips.deep_view() =~= self.ips.deep_view());
            if self.gateways is Some {
                assert(gateways->0.deep_view() =~= self.gateways->0.deep_view());
            }
        }
        Nic {
            interface: self.interface.clone(),
            mac: self.mac.clone(),
            vlan_id: self.vlan_id,
            nic_tag: self.nic_tag.clone(),
            ip: self.ip,
            ips,
            netmask: self.netmask,
            gateway: self.gateway,
            gateways,
            primary: self.primary,
            model: self.model,
            network_uuid: self.network_uuid,
            mtu: self.mtu,
        }
    }
}

/// A request to attach a machine to a network with a number of addresses.
#[derive(Debug, PartialEq)]
pub struct NetworkObject {
    pub ipv4_uuid: Uuid,
    pub ipv4_count: i16,
    pub ipv4_ips: Vec<String>,
}

/// What a `NetworkObject` holds.
pub struct NetworkObjectView {
    pub ipv4_uuid: Uuid,
    pub ipv4_count: i16,
    pub ipv4_ips: Seq<Seq<char>>,
}

impl View for NetworkObject {
    type V = NetworkObjectView;

    open spec fn view(&self) -> NetworkObjectView {
        NetworkObjectView {
            ipv4_uuid: self.ipv4_uuid,
            ipv4_count: self.ipv4_count,
            ipv4_ips: self.ipv4_ips.deep_view(),
        }
    }
}

impl Clone for NetworkObject {
    fn clone(&self) -> (r: Self)
        ensures
            r@ == self@,
    {
        let ipv4_ips = self.ipv4_ips.clone();
        proof {
            assert(ipv4_ips.deep_view() =~= self.ipv4_ips.deep_view());
        }
        NetworkObject { ipv4_uuid: self.ipv4_uuid, ipv4_count: self.ipv4_count, ipv4_ips }
    }
}

/// A copy of an optional list of network interfaces.
pub fn clone_nics(nics: &Option<Vec<Nic>>) -> (r: Option<Vec<Nic>>)
    ensures
        r.deep_view() == nics.deep_view(),
{
    match nics {
        Some(list) => {
            let copy = list.clone();
            assert(copy.deep_view() =~= list.deep_view());
            Some(copy)
        },
        None => None,
    }
}

} // verus!
