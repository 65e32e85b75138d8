use vstd::prelude::*;

verus! {

/// Creates a track.
#[derive(Copy, Clone, Debug, Default, PartialEq, Eq, Structural)]
pub struct TrackBuilder {
    /// The plugin builder.
    pub plugin: PluginBuilder,
}

/// An object that is used to build plugins.
#[derive(Copy, Clone, Debug, Default, PartialEq, Eq, Structural)]
pub enum PluginBuilder {
    /// An empty plugin that does nothing.
    #[default]
    Empty,
    /// The toof plugin.
    Toof,
}

impl PluginBuilder {
    /// The name of the plugin.
    pub open spec fn spec_name(self) -> Seq<char> {
        match self {
            PluginBuilder::Empty => "empty"@,
            PluginBuilder::Toof => "toof"@,
        }
    }

    /// All the plugin builders available.
    pub fn all() -> (r: Vec<PluginBuilder>)
        ensures
            r@ == seq![PluginBuilder::Empty, PluginBuilder::Toof],
    {
        vec![PluginBuilder::Empty, PluginBuilder::Toof]
    }

    /// The name of the plugin.
    pub fn name(self) -> (r: &'static str)
        ensures
            r@ == self.spec_name(),
    {
        match self {
            PluginBuilder::Empty => "empty",
            PluginBuilder::Toof => "toof",
        }
    }
}

} // verus!
