//! Bookkeeping records for services a node has started.

use vstd::prelude::*;

verus! {

/// Which kind of Kafka service a registry entry describes.
#[derive(Clone, Copy, Debug, PartialEq, Eq, Structural)]
pub enum KafkaServiceKind {
    /// An inlet endpoint.
    Inlet,
    /// An outlet endpoint.
    Outlet,
}

impl KafkaServiceKind {
    /// The display name of the kind.
    pub fn as_string(&self) -> (r: String)
        ensures
            *self == KafkaServiceKind::Inlet ==> r@ == "inlet"@,
            *self == KafkaServiceKind::Outlet ==> r@ == "outlet"@,
    {
        match self {
            KafkaServiceKind::Inlet => "inlet".to_owned(),
            KafkaServiceKind::Outlet => "outlet".to_owned(),
        }
    }
}

/// A started Kafka service, recorded by its kind.
#[derive(Clone, Copy, Debug, PartialEq, Eq, Structural)]
pub struct KafkaServiceInfo {
    /// The kind this entry was recorded with.
    pub kind: KafkaServiceKind,
}

impl KafkaServiceInfo {
    /// Record a service of the given kind.
    pub fn new(kind: KafkaServiceKind) -> (r: KafkaServiceInfo)
        ensures
            r.kind == kind,
    {
        KafkaServiceInfo { kind }
    }

    /// The kind this entry was recorded with.
    pub fn kind(&self) -> (r: &KafkaServiceKind)
        ensures
            *r == self.kind,
    {
        &self.kind
    }
}

} // verus!
