use vstd::prelude::*;

verus! {

/// The key under which the host's asset store files one tracked load.
///
/// The host hands a key out when a load is requested and quotes it again in
/// every event about that load. This library never looks inside a key: it only
/// stores it, passes it back, and compares it for equality. The two variants
/// are the two ways a host forms its keys: a slot number it allocated at run
/// time, or an identifier that was fixed in advance.
#[derive(Clone, Copy, Debug, PartialEq, Eq, Structural, Hash)]
pub enum LoadHandle {
    /// A slot allocated by the host at run time, as one opaque number.
    Index(u64),
    /// An identifier fixed ahead of time.
    Uuid(u128),
}

} // verus!
