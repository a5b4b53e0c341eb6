use vstd::prelude::*;
use core::marker::PhantomData;
use crate::error::{loaded, ConfigFileLoaderError, FileOutcome};

verus! {

/// The loader the host's asset pipeline runs on the configuration file, at
/// the first load and again after every change of the file.
///
/// It holds no state, so the host may run it for several loads at once.
pub struct ConfigFileAssetLoader<A> {
    _marker: PhantomData<A>,
}

impl<A> ConfigFileAssetLoader<A> {
    pub fn new() -> (r: Self) {
        ConfigFileAssetLoader { _marker: PhantomData }
    }

    /// The file extensions this loader is registered for.
    pub fn extensions(&self) -> (r: &'static [&'static str])
        ensures
            r@.len() == 1,
            r@[0]@ == "ron"@,
    {
        &["ron"]
    }

    /// Finishes one load: the decoded value, or the error of the step that
    /// failed.
    pub fn load(&self, outcome: FileOutcome<A>) -> (r: Result<A, ConfigFileLoaderError>)
        ensures
            r == loaded(outcome),
    {
        match outcome {
            Err(error) => Err(ConfigFileLoaderError::from(error)),
            Ok(Err(error)) => Err(ConfigFileLoaderError::from(error)),
            Ok(Ok(value)) => Ok(value),
        }
    }
}

} // verus!
