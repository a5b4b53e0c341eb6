use vstd::prelude::*;
use core::marker::PhantomData;
use crate::handle::LoadHandle;

verus! {

/// What a [`ConfigFileHolder`] holds, as plain values: the configured path and
/// the key of the tracked load, if one has been requested.
pub struct TrackedLoad {
    pub path: Seq<char>,
    pub handle: Option<LoadHandle>,
}

impl TrackedLoad {
    /// A holder that has not requested its load yet.
    pub open spec fn untracked(path: Seq<char>) -> TrackedLoad {
        TrackedLoad { path, handle: None }
    }

    /// The holder after the host answered a load request with `handle`.
    /// The first key stays: a later one is dropped.
    pub open spec fn tracking(self, handle: LoadHandle) -> TrackedLoad {
        if self.handle is None {
            TrackedLoad { path: self.path, handle: Some(handle) }
        } else {
            self
        }
    }
}

/// Carries the configured path from the plugin to the start-up system, and
/// keeps the key of the tracked load for as long as the process runs.
pub struct ConfigFileHolder<A> {
    path: &'static str,
    handle: Option<LoadHandle>,
    _marker: PhantomData<A>,
}

impl<A> View for ConfigFileHolder<A> {
    type V = TrackedLoad;

    closed spec fn view(&self) -> TrackedLoad {
        TrackedLoad { path: self.path@, handle: self.handle }
    }
}

impl<A> ConfigFileHolder<A> {
    /// A holder for the file at `path`, with no load requested yet.
    pub fn new(path: &'static str) -> (r: Self)
        ensures
            r@ == TrackedLoad::untracked(path@),
    {
        ConfigFileHolder { path, handle: None, _marker: PhantomData }
    }

    /// The configured path, relative to the assets directory.
    pub fn path(&self) -> (r: &'static str)
        ensures
            r@ == self@.path,
    {
        self.path
    }

    /// The key of the tracked load, once it has been requested.
    pub fn handle(&self) -> (r: Option<LoadHandle>)
        ensures
            r == self@.handle,
    {
        self.handle
    }

    /// Records the key the host returned for the tracked load. Only the first
    /// key is kept; the result tells whether this one was.
    pub(crate) fn track(&mut self, handle: LoadHandle) -> (kept: bool)
        ensures
            final(self)@ == old(self)@.tracking(handle),
            kept == (old(self)@.handle is None),
    {
        if self.handle.is_none() {
            self.handle = Some(handle);
            true
        } else {
            false
        }
    }
}

} // verus!
