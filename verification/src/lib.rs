//! Client-side model of a compute-provisioning API: query filters for listing
//! machines and the normalization of raw provider records into canonical,
//! brand-agnostic machine descriptors.

pub mod vmapi;
