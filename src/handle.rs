use vstd::prelude::*;

verus! {

/// How the request queue of a connection holds pending requests.
#[derive(Clone, Copy, Debug, PartialEq, Eq, Structural)]
pub enum QueueKind {
    /// Senders never wait.
    Unbounded,
    /// Senders wait while this many requests are pending.
    Bounded(usize),
}

/// The request queue for a capacity: zero asks for an unbounded queue, any
/// other capacity for a bounded one of that size.
pub fn queue_kind(capacity: usize) -> (r: QueueKind)
    ensures
        capacity == 0 ==> r == QueueKind::Unbounded,
        capacity > 0 ==> r == QueueKind::Bounded(capacity),
{
    if capacity == 0 {
        QueueKind::Unbounded
    } else {
        QueueKind::Bounded(capacity)
    }
}

/// Optional features that a connection may advertise.
#[derive(Clone, Copy, Debug, PartialEq, Eq, Structural, Hash)]
pub enum Feature {
    Backup,
}

/// The features of an embedded connection, fixed when it is established.
pub fn local_features() -> (r: Vec<Feature>)
    ensures
        r@ == seq![Feature::Backup],
{
    let mut r = Vec::new();
    r.push(Feature::Backup);
    r
}

/// Whether `feature` is among `features`.
pub fn supports(features: &Vec<Feature>, feature: Feature) -> (r: bool)
    ensures
        r == features@.contains(feature),
{
    let mut i: usize = 0;
    while i < features.len()
        invariant
            i <= features@.len(),
            forall|j: int| 0 <= j < i ==> features@[j] != feature,
        decreases features@.len() - i,
    {
        if features[i] == feature {
            return true;
        }
        i += 1;
    }
    false
}

} // verus!
