//! The capability plugins that the shell attaches before the runtime starts.

use vstd::prelude::*;

verus! {

/// A capability attached to the runtime builder.
#[derive(Clone, Copy, Debug, PartialEq, Eq, Structural)]
pub enum Plugin {
    /// The persistent key-value store.
    Store,
    /// The handler that opens a resource with the system's default program.
    Opener,
}

/// The plugins of every build, in the order in which they are attached.
pub open spec fn startup_plugin_order() -> Seq<Plugin> {
    seq![Plugin::Store, Plugin::Opener]
}

/// Lists the plugins to attach, first to last. The list depends on nothing:
/// every build attaches both.
pub fn startup_plugins() -> (plugins: Vec<Plugin>)
    ensures
        plugins@ == startup_plugin_order(),
{
    let mut plugins: Vec<Plugin> = Vec::new();
    plugins.push(Plugin::Store);
    plugins.push(Plugin::Opener);
    plugins
}

} // verus!
