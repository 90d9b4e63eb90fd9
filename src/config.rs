//! Manifests: validation of a decoded manifest into its loaded form.

use crate::cache::{paths_view, Artifact, ArtifactView};
use crate::error::{duplicate_message, mentions, open_failed_message, syntax_message, Error, ErrorKind};
use vstd::prelude::*;
use vstd::string::StringExecFns;

verus! {

/// The declaration of one artifact as written in a manifest file.
#[derive(Debug, Clone, PartialEq, Eq)]
pub struct ArtifactDecl {
    pub inputs: Vec<String>,
    pub outputs: Vec<String>,
}

/// The content of a manifest file, decoded but not yet validated.
///
/// `artifacts` holds the pairs of name and declaration in the order of the
/// file, duplicated names included.
#[derive(Debug, Clone, PartialEq, Eq)]
pub struct ManifestDecl {
    pub cache_root_dir: String,
    pub artifacts: Vec<(String, ArtifactDecl)>,
    pub disable_env_var: Option<String>,
}

/// A loaded build artifact cache manifest.
#[derive(Debug, Clone, PartialEq, Eq)]
pub struct Manifest {
    /// Root directory of the cache, absolute or relative to the repository root.
    pub cache_root_dir: String,
    /// The artifacts, in the order in which the manifest declares them.
    pub artifacts: Vec<Artifact>,
    /// Name of an environment variable that, when set, disables the cache.
    pub disable_env_var: Option<String>,
}

/// What an [`ArtifactDecl`] holds.
pub ghost struct ArtifactDeclView {
    pub inputs: Seq<Seq<char>>,
    pub outputs: Seq<Seq<char>>,
}

/// What a [`ManifestDecl`] holds.
pub ghost struct ManifestDeclView {
    pub cache_root_dir: Seq<char>,
    pub artifacts: Seq<(Seq<char>, ArtifactDeclView)>,
    pub disable_env_var: Option<Seq<char>>,
}

/// What a [`Manifest`] holds.
pub ghost struct ManifestView {
    pub cache_root_dir: Seq<char>,
    pub artifacts: Seq<ArtifactView>,
    pub disable_env_var: Option<Seq<char>>,
}

/// An optional string as an optional sequence of characters.
pub open spec fn opt_view(o: Option<String>) -> Option<Seq<char>> {
    match o {
        Some(s) => Some(s@),
        None => None,
    }
}

impl View for ArtifactDecl {
    type V = ArtifactDeclView;

    open spec fn view(&self) -> ArtifactDeclView {
        ArtifactDeclView { inputs: paths_view(self.inputs@), outputs: paths_view(self.outputs@) }
    }
}

impl View for ManifestDecl {
    type V = ManifestDeclView;

    open spec fn view(&self) -> ManifestDeclView {
        ManifestDeclView {
            cache_root_dir: self.cache_root_dir@,
            artifacts: self.artifacts@.map_values(
                |p: (String, ArtifactDecl)| (p.0@, p.1@),
            ),
            disable_env_var: opt_view(self.disable_env_var),
        }
    }
}

impl View for Manifest {
    type V = ManifestView;

    open spec fn view(&self) -> ManifestView {
        ManifestView {
            cache_root_dir: self.cache_root_dir@,
            artifacts: self.artifacts@.map_values(|a: Artifact| a@),
            disable_env_var: opt_view(self.disable_env_var),
        }
    }
}

/// No name occurs twice in `names`.
pub open spec fn names_unique(names: Seq<Seq<char>>) -> bool {
    forall|i: int, j: int| 0 <= i < j < names.len() ==> names[i] != names[j]
}

/// The artifact that the declaration `d` of `name` gives in a manifest loaded
/// from `path`: the manifest file is appended to the declared inputs.
pub open spec fn loaded_artifact(
    name: Seq<char>,
    d: ArtifactDeclView,
    path: Seq<char>,
) -> ArtifactView {
    ArtifactView { name, inputs: d.inputs.push(path), outputs: d.outputs }
}

impl ManifestDeclView {
    /// The declared names, in the order of the file.
    pub open spec fn names(self) -> Seq<Seq<char>> {
        self.artifacts.map_values(|p: (Seq<char>, ArtifactDeclView)| p.0)
    }

    /// The manifest that this content gives when loaded from `path`.
    pub open spec fn loaded(self, path: Seq<char>) -> ManifestView {
        ManifestView {
            cache_root_dir: self.cache_root_dir,
            artifacts: self.artifacts.map_values(
                |p: (Seq<char>, ArtifactDeclView)| loaded_artifact(p.0, p.1, path),
            ),
            disable_env_var: self.disable_env_var,
        }
    }
}

impl ManifestView {
    /// The names of the artifacts, in order.
    pub open spec fn names(self) -> Seq<Seq<char>> {
        self.artifacts.map_values(|a: ArtifactView| a.name)
    }

    /// The invariant of a manifest loaded from `path`: artifact names are
    /// unique, and the manifest file is the last input of every artifact.
    pub open spec fn loaded_from(self, path: Seq<char>) -> bool {
        &&& names_unique(self.names())
        &&& forall|i: int|
            0 <= i < self.artifacts.len() ==> {
                &&& #[trigger] self.artifacts[i].inputs.len() > 0
                &&& self.artifacts[i].inputs.last() == path
            }
    }
}

/// Index of the later of two artifacts of `decl` that share a name, if any.
///
/// On `Some(j)`, the name at `j` also stands at an earlier index; on `None`,
/// all names are distinct.
pub fn find_duplicate(decl: &ManifestDecl) -> (r: Option<usize>)
    ensures
        r is None <==> names_unique(decl@.names()),
        r matches Some(j) ==> {
            &&& j < decl.artifacts@.len()
            &&& exists|i: int| 0 <= i < j && decl@.names()[i] == decl@.names()[j as int]
        },
{
    let n = decl.artifacts.len();
    let ghost names = decl@.names();
    let mut j: usize = 0;
    while j < n
        invariant
            n == decl.artifacts@.len(),
            names == decl@.names(),
            names.len() == n,
            j <= n,
            forall|a: int, b: int| 0 <= a < b < j ==> names[a] != names[b],
        decreases n - j,
    {
        let mut i: usize = 0;
        while i < j
            invariant
                n == decl.artifacts@.len(),
                names == decl@.names(),
                names.len() == n,
                i <= j < n,
                forall|a: int, b: int| 0 <= a < b < j ==> names[a] != names[b],
                forall|a: int| 0 <= a < i ==> names[a] != names[j as int],
            decreases j - i,
        {
            if decl.artifacts[i].0 == decl.artifacts[j].0 {
                assert(names[i as int] == names[j as int]);
                assert(!names_unique(names));
                return Some(j);
            }
            i = i + 1;
        }
        j = j + 1;
    }
    None
}

/// The artifacts of `decls`, in order, each with `path` appended to its inputs.
fn load_artifacts(decls: Vec<(String, ArtifactDecl)>, path: &str) -> (r: Vec<Artifact>)
    ensures
        r@.len() == decls@.len(),
        forall|k: int|
            0 <= k < decls@.len() ==> #[trigger] r@[k]@ == loaded_artifact(
                decls@[k].0@,
                decls@[k].1@,
                path@,
            ),
{
    let ghost decls_seq = decls@;
    let mut artifacts: Vec<Artifact> = Vec::new();
    for entry in it: decls.into_iter()
        invariant
            it.seq() == decls_seq,
            artifacts@.len() == it.index(),
            forall|k: int|
                0 <= k < it.index() ==> #[trigger] artifacts@[k]@ == loaded_artifact(
                    decls_seq[k].0@,
                    decls_seq[k].1@,
                    path@,
                ),
    {
        let (name, decl) = entry;
        let ArtifactDecl { mut inputs, outputs } = decl;
        let ghost declared = inputs@;
        inputs.push(String::from_str(path));
        proof {
            assert(paths_view(inputs@) =~= paths_view(declared).push(path@));
        }
        artifacts.push(Artifact { name, inputs, outputs });
    }
    artifacts
}

/// `r` is the outcome of validating the decoded content `d` of the manifest
/// file at `path`: a schema error naming a duplicated artifact exactly when
/// two artifacts share a name, else the manifest that `d` gives.
pub open spec fn validated(d: ManifestDeclView, path: Seq<char>, r: Result<Manifest, Error>) -> bool {
    &&& r is Ok <==> names_unique(d.names())
    &&& r matches Ok(m) ==> m@ == d.loaded(path) && m@.loaded_from(path)
    &&& r matches Err(e) ==> {
        &&& e.kind == ErrorKind::Schema
        &&& mentions(e.message@, path)
        &&& exists|i: int, j: int|
            0 <= i < j < d.artifacts.len() && d.names()[i] == d.names()[j] && e.message@
                == duplicate_message(path, d.names()[j])
    }
}

/// What an attempt to read and decode a manifest file gave.
#[derive(Debug, Clone, PartialEq, Eq)]
pub enum ReadOutcome {
    /// The file could not be opened or read: the description of the failure.
    OpenFailed(String),
    /// The content could not be decoded into a manifest: the diagnostic.
    Malformed(String),
    /// The decoded content.
    Decoded(ManifestDecl),
}

impl Manifest {
    /// The result of loading the manifest file at `path`, given what reading
    /// and decoding that file gave.
    ///
    /// A file that could not be read gives an I/O error, content that could
    /// not be decoded a schema error; both name `path` and carry the cause.
    /// Decoded content is validated as by [`Manifest::from_decl`].
    pub fn from_read(path: &str, outcome: ReadOutcome) -> (r: Result<Manifest, Error>)
        ensures
            outcome matches ReadOutcome::OpenFailed(c) ==> r matches Err(e) && e.kind
                == ErrorKind::Io && e.message@ == open_failed_message(path@) && e.cause == Some(
                c,
            ),
            outcome matches ReadOutcome::Malformed(c) ==> r matches Err(e) && e.kind
                == ErrorKind::Schema && e.message@ == syntax_message(path@) && e.cause == Some(
                c,
            ),
            outcome matches ReadOutcome::Decoded(d) ==> validated(d@, path@, r),
            r matches Err(e) ==> mentions(e.message@, path@),
    {
        match outcome {
            ReadOutcome::OpenFailed(cause) => Err(Error::open_failed(path, cause)),
            ReadOutcome::Malformed(cause) => Err(Error::syntax(path, cause)),
            ReadOutcome::Decoded(decl) => Manifest::from_decl(decl, path),
        }
    }

    /// Validates the decoded content `decl` of the manifest file at `path`.
    ///
    /// Fails with a schema error when two artifacts share a name. Otherwise
    /// the manifest keeps the cache root, the optional variable name and the
    /// artifacts in their declared order, with `path` appended as the last
    /// input of every artifact.
    pub fn from_decl(decl: ManifestDecl, path: &str) -> (r: Result<Manifest, Error>)
        ensures
            validated(decl@, path@, r),
    {
        match find_duplicate(&decl) {
            Some(j) => {
                let e = Error::duplicate_artifact(path, decl.artifacts[j].0.as_str());
                assert(decl@.names()[j as int] == decl.artifacts@[j as int].0@);
                Err(e)
            },
            None => {
                let ghost dv = decl@;
                let ManifestDecl { cache_root_dir, artifacts, disable_env_var } = decl;
                let ghost decls = artifacts@;
                let artifacts = load_artifacts(artifacts, path);
                let m = Manifest { cache_root_dir, artifacts, disable_env_var };
                proof {
                    assert(m@.artifacts =~= dv.loaded(path@).artifacts);
                    assert(m@.names() =~= dv.names());
                }
                Ok(m)
            },
        }
    }
}

/// Loading keeps the declaration order: the artifacts of a loaded manifest
/// carry the declared names, in the order of the file.
pub proof fn lemma_declaration_order_kept(d: ManifestDeclView, path: Seq<char>, m: Manifest)
    requires
        validated(d, path, Ok(m)),
    ensures
        m@.artifacts.len() == d.artifacts.len(),
        m@.names() == d.names(),
{
    assert(m@.names() =~= d.names());
}

/// Every artifact of a loaded manifest has the manifest file as its last
/// input, after the inputs that it declares.
pub proof fn lemma_manifest_is_last_input(d: ManifestDeclView, path: Seq<char>, m: Manifest, i: int)
    requires
        validated(d, path, Ok(m)),
        0 <= i < m@.artifacts.len(),
    ensures
        m@.artifacts[i].inputs == d.artifacts[i].1.inputs.push(path),
        m@.artifacts[i].inputs.last() == path,
{
}

/// Content that declares two artifacts with one name is rejected with a
/// schema error that names the manifest file.
pub proof fn lemma_duplicate_rejected(
    d: ManifestDeclView,
    path: Seq<char>,
    r: Result<Manifest, Error>,
    i: int,
    j: int,
)
    requires
        validated(d, path, r),
        0 <= i < j < d.artifacts.len(),
        d.artifacts[i].0 == d.artifacts[j].0,
    ensures
        r matches Err(e) && e.kind == ErrorKind::Schema && mentions(e.message@, path),
{
    assert(d.names()[i] == d.names()[j]);
}

/// Content without the optional variable name and with unique artifact names
/// loads, and the manifest has no variable name either.
pub proof fn lemma_optional_variable_absent(
    d: ManifestDeclView,
    path: Seq<char>,
    r: Result<Manifest, Error>,
)
    requires
        validated(d, path, r),
        names_unique(d.names()),
        d.disable_env_var is None,
    ensures
        r matches Ok(m) && m.disable_env_var is None,
{
}

} // verus!
