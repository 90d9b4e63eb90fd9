//! Artifacts: the units that the build cache stores and restores.

use vstd::prelude::*;

verus! {

/// A sequence of paths as sequences of characters.
pub open spec fn paths_view(v: Seq<String>) -> Seq<Seq<char>> {
    v.map_values(|s: String| s@)
}

/// What an [`Artifact`] holds, as plain mathematical values.
pub ghost struct ArtifactView {
    pub name: Seq<char>,
    pub inputs: Seq<Seq<char>>,
    pub outputs: Seq<Seq<char>>,
}

/// One cacheable unit: a name, the files that it depends on and the files
/// that building it produces.
#[derive(Debug, Clone, PartialEq, Eq)]
pub struct Artifact {
    /// Short identifier, unique among the artifacts of a manifest.
    pub name: String,
    /// Paths of the files whose content decides whether a cached copy is valid.
    pub inputs: Vec<String>,
    /// Paths of the files that building the artifact produces.
    pub outputs: Vec<String>,
}

impl View for Artifact {
    type V = ArtifactView;

    open spec fn view(&self) -> ArtifactView {
        ArtifactView {
            name: self.name@,
            inputs: paths_view(self.inputs@),
            outputs: paths_view(self.outputs@),
        }
    }
}

} // verus!
