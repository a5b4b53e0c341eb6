use vstd::prelude::*;
use crate::handle::LoadHandle;

verus! {

/// One entry of the host's queue of asset events for the configuration type.
#[derive(Clone, Copy, Debug, PartialEq, Eq, Structural)]
pub enum AssetEvent {
    /// A value was stored under `id` for the first time.
    Added { id: LoadHandle },
    /// The value under `id` was replaced, for instance after the file was saved.
    Modified { id: LoadHandle },
    /// The value under `id` was taken out of the store.
    Removed { id: LoadHandle },
    /// Nobody holds the load `id` any more.
    Unused { id: LoadHandle },
    /// The load `id` finished, everything it depends on included.
    LoadedWithDependencies { id: LoadHandle },
}

impl AssetEvent {
    /// The key the event speaks of.
    pub open spec fn key(self) -> LoadHandle {
        match self {
            AssetEvent::Added { id } => id,
            AssetEvent::Modified { id } => id,
            AssetEvent::Removed { id } => id,
            AssetEvent::Unused { id } => id,
            AssetEvent::LoadedWithDependencies { id } => id,
        }
    }

    /// Whether the event announces a value that should become the current
    /// configuration: a finished load or a modification, nothing else.
    pub open spec fn announces_value(self) -> bool {
        self is Modified || self is LoadedWithDependencies
    }

    /// The key to look up in the host's store when handling this event.
    pub fn id(&self) -> (r: LoadHandle)
        ensures
            r == self.key(),
    {
        match self {
            AssetEvent::Added { id } => *id,
            AssetEvent::Modified { id } => *id,
            AssetEvent::Removed { id } => *id,
            AssetEvent::Unused { id } => *id,
            AssetEvent::LoadedWithDependencies { id } => *id,
        }
    }

    /// Tells the host whether this event calls for a look-up in its store.
    pub fn wants_lookup(&self) -> (r: bool)
        ensures
            r == self.announces_value(),
    {
        match self {
            AssetEvent::Modified { .. } => true,
            AssetEvent::LoadedWithDependencies { .. } => true,
            _ => false,
        }
    }
}

/// An event together with what the host's store held under the event's key
/// at the moment the event was handled.
///
/// `found` is `None` when the store had no entry yet, which happens when the
/// host announces a load before it has filed the value.
pub struct Delivery<A> {
    pub event: AssetEvent,
    pub found: Option<A>,
}

impl<A> Delivery<A> {
    /// Whether handling this delivery replaces the current configuration.
    pub open spec fn replaces(self) -> bool {
        self.event.announces_value() && self.found is Some
    }
}

} // verus!
