//! Automotive session descriptors shared by the diagnostic sites.

use vstd::prelude::*;

use crate::domain::{BrandCaps, VehicleId};
use crate::kernel::{
    CapabilityName, CapabilitySet, cap_set, cap_views, capability_set, diminish, has_cap,
    holds_cap,
};

verus! {

/// Placement selected for one automotive diagnostic session.
#[derive(Clone, Debug, PartialEq, Eq)]
pub enum TransportPlacement {
    /// Synthetic in-process ECU data.
    Modeled,
    /// Replayable diagnostic cassette identified by a stable label.
    Cassette {
        /// Cassette label selected by the caller.
        id: String,
    },
    /// Host-provided bridge selected by name.
    LocalBridge {
        /// Bridge label configured by the host.
        name: String,
    },
}

impl TransportPlacement {
    /// Builds a modeled placement.
    pub fn modeled() -> (r: Self)
        ensures
            r is Modeled,
    {
        TransportPlacement::Modeled
    }

    /// Builds a cassette-backed placement.
    pub fn cassette(id: &str) -> (r: Self)
        ensures
            r is Cassette,
            r->id@ == id@,
    {
        TransportPlacement::Cassette { id: id.to_owned() }
    }

    /// Builds a local bridge placement.
    pub fn local_bridge(name: &str) -> (r: Self)
        ensures
            r is LocalBridge,
            r->name@ == name@,
    {
        TransportPlacement::LocalBridge { name: name.to_owned() }
    }

    /// Returns the placement family name.
    pub fn kind(&self) -> (r: &'static str)
        ensures
            r@ == (match *self {
                TransportPlacement::Modeled => "modeled"@,
                TransportPlacement::Cassette { .. } => "cassette"@,
                TransportPlacement::LocalBridge { .. } => "local-bridge"@,
            }),
    {
        match self {
            TransportPlacement::Modeled => "modeled",
            TransportPlacement::Cassette { .. } => "cassette",
            TransportPlacement::LocalBridge { .. } => "local-bridge",
        }
    }

    /// Whether this placement is a host-provided bridge.
    pub fn is_local_bridge(&self) -> (r: bool)
        ensures
            r == (*self is LocalBridge),
    {
        match self {
            TransportPlacement::LocalBridge { .. } => true,
            _ => false,
        }
    }
}

/// Session state carried by automotive diagnostic fabrics.
#[derive(Clone, Debug, PartialEq, Eq)]
pub struct AutoSession {
    /// Modeled vehicle identity.
    pub vehicle: VehicleId,
    /// Brand or workshop capability profile.
    pub brand: BrandCaps,
    /// Placement that answers diagnostic requests.
    pub transport: TransportPlacement,
    /// Capabilities granted to this session before caller-side narrowing.
    pub grants: Vec<CapabilityName>,
}

impl AutoSession {
    /// Builds a session with explicit placement and grants.
    pub fn new(
        vehicle: VehicleId,
        brand: BrandCaps,
        transport: TransportPlacement,
        grants: Vec<CapabilityName>,
    ) -> (r: Self)
        ensures
            r == (AutoSession { vehicle, brand, transport, grants: r.grants }),
            cap_views(r.grants@) == cap_views(grants@),
    {
        AutoSession { vehicle, brand, transport, grants }
    }

    /// Builds a modeled session for a synthetic vehicle.
    pub fn modeled(vehicle: VehicleId, brand: BrandCaps, grants: Vec<CapabilityName>) -> (r: Self)
        ensures
            r == (AutoSession { vehicle, brand, transport: TransportPlacement::Modeled, grants: r.grants }),
            cap_views(r.grants@) == cap_views(grants@),
    {
        Self::new(vehicle, brand, TransportPlacement::Modeled, grants)
    }

    /// Returns this session with a different placement.
    pub fn with_transport(self, transport: TransportPlacement) -> (r: Self)
        ensures
            r == (AutoSession { transport, ..self }),
    {
        AutoSession { transport, ..self }
    }

    /// Returns whether the session holds `capability` before caller narrowing.
    pub fn has_grant(&self, capability: &CapabilityName) -> (r: bool)
        ensures
            r == holds_cap(self.grants@, capability@),
    {
        has_cap(self.grants.as_slice(), capability)
    }

    /// Intersects the session grants with caller-allowed capabilities.
    pub fn diminished_grants(&self, allowed: &[CapabilityName]) -> (r: CapabilitySet)
        ensures
            r@ == cap_set(self.grants@).intersect(cap_set(allowed@)),
    {
        let current = capability_set(self.grants.as_slice());
        let allowed = capability_set(allowed);
        diminish(&current, &allowed)
    }
}

} // verus!
