use vstd::prelude::*;
use crate::holder::{ConfigFileHolder, TrackedLoad};
use crate::loader::ConfigFileAssetLoader;

verus! {

/// What an [`EasyConfigPlugin`] was made with, as plain values.
pub struct PluginSettings<A> {
    pub path: Seq<char>,
    pub default: Option<A>,
}

/// Keeps a value of type `A` in step with a configuration file.
pub struct EasyConfigPlugin<A> {
    path: &'static str,
    default: Option<A>,
}

/// What the plugin installs in the host when it is built.
pub struct Registration<A> {
    /// The loader to register for the configuration type.
    pub loader: ConfigFileAssetLoader<A>,
    /// The holder, with no load requested yet.
    pub holder: ConfigFileHolder<A>,
    /// The configuration value to start with: the default, if there is one.
    pub config: Option<A>,
}

impl<A> View for EasyConfigPlugin<A> {
    type V = PluginSettings<A>;

    closed spec fn view(&self) -> PluginSettings<A> {
        PluginSettings { path: self.path@, default: self.default }
    }
}

impl<A> EasyConfigPlugin<A> {
    /// A plugin for the file at `path`, relative to the assets directory.
    /// There is no default: the value is read from the file at start-up.
    pub fn new(path: &'static str) -> (r: Self)
        ensures
            r@ == (PluginSettings::<A> { path: path@, default: None }),
    {
        EasyConfigPlugin { path, default: None }
    }

    /// A plugin for the file at `path` that starts out with `default` and
    /// takes the file's value once the asset pipeline has loaded it.
    pub fn with_default(path: &'static str, default: A) -> (r: Self)
        ensures
            r@ == (PluginSettings { path: path@, default: Some(default) }),
    {
        EasyConfigPlugin { path, default: Some(default) }
    }

    /// The configured path.
    pub fn path(&self) -> (r: &'static str)
        ensures
            r@ == self@.path,
    {
        self.path
    }

    /// What to install in the host: the loader, a holder that carries the
    /// path and tracks nothing yet, and the default as the first value.
    pub fn build(self) -> (r: Registration<A>)
        ensures
            r.holder@ == TrackedLoad::untracked(self@.path),
            r.config == self@.default,
    {
        Registration {
            loader: ConfigFileAssetLoader::new(),
            holder: ConfigFileHolder::new(self.path),
            config: self.default,
        }
    }
}

} // verus!
