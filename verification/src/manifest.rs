//! The manifests that are written for a project: one for each of its own
//! packages and, for a workspace, one that lists the members.

use crate::edge::{
    build_and_filter_toml_dependency, classify_edge, edge_kind, texts, EdgeKind, EdgeKindView,
};
use crate::error::{LockIssue, PrepopError};
use crate::package::{Package, PackageView};
use crate::table::DependencyTable;
use vstd::prelude::*;
use vstd::string::*;

verus! {

/// The `[package]` section of a manifest.
#[derive(Debug, PartialEq, Eq)]
pub struct ManifestPackage {
    pub name: String,
    pub version: String,
    pub authors: Vec<String>,
}

/// A package's manifest.
#[derive(Debug, PartialEq, Eq)]
pub struct ManifestData {
    pub package: ManifestPackage,
    pub dependencies: DependencyTable,
}

/// A workspace's manifest: the directories of its members.
#[derive(Debug, PartialEq, Eq)]
pub struct WorkspaceManifestData {
    pub members: Vec<String>,
}

pub ghost struct ManifestDataView {
    pub name: Seq<char>,
    pub version: Seq<char>,
    pub authors: Seq<Seq<char>>,
    pub dependencies: Map<Seq<char>, Seq<char>>,
}

impl View for ManifestData {
    type V = ManifestDataView;

    open spec fn view(&self) -> ManifestDataView {
        ManifestDataView {
            name: self.package.name@,
            version: self.package.version@,
            authors: texts(self.package.authors@),
            dependencies: self.dependencies@,
        }
    }
}

impl View for WorkspaceManifestData {
    type V = Seq<Seq<char>>;

    open spec fn view(&self) -> Seq<Seq<char>> {
        texts(self.members@)
    }
}

/// The version that every planned manifest declares for its package.
pub open spec fn placeholder_version() -> Seq<char> {
    "0.0.0"@
}

/// The author that every planned manifest names.
pub open spec fn placeholder_author() -> Seq<char> {
    "cargo-prepopulate"@
}

/// The edges of a package; none where the lock file lists none.
pub open spec fn edges_of(package: PackageView) -> Seq<Seq<char>> {
    match package.dependencies {
        Some(edges) => edges,
        None => Seq::empty(),
    }
}

/// Whether `edge` is made of neither two nor three parts.
pub open spec fn is_malformed(edge: Seq<char>) -> bool {
    edge_kind(edge) is Malformed
}

/// Whether none of `edges` is malformed.
pub open spec fn all_well_formed(edges: Seq<Seq<char>>) -> bool {
    forall|i: int| 0 <= i < edges.len() ==> !is_malformed(#[trigger] edges[i])
}

/// Whether `text` is the first malformed edge among `edges`.
pub open spec fn first_malformed(edges: Seq<Seq<char>>, text: Seq<char>) -> bool {
    exists|i: int|
        0 <= i < edges.len() && #[trigger] edges[i] == text && is_malformed(text)
            && all_well_formed(edges.take(i))
}

/// The dependencies that `edges` call for: the registry edges among them, by
/// name; where a name comes twice, the later version stands.
pub open spec fn registry_dependencies(edges: Seq<Seq<char>>) -> Map<Seq<char>, Seq<char>>
    decreases edges.len(),
{
    if edges.len() == 0 {
        Map::empty()
    } else {
        let before = registry_dependencies(edges.drop_last());
        match edge_kind(edges.last()) {
            EdgeKindView::Registry { name, version } => before.insert(name, version),
            _ => before,
        }
    }
}

/// Whether an edge names a package from a source other than the registry.
pub open spec fn has_other_source() -> spec_fn(Seq<char>) -> bool {
    |edge: Seq<char>| edge_kind(edge) is OtherSource
}

/// The sources of the edges among `edges` that are left out of the manifest
/// for being from elsewhere than the registry, in the order of the edges.
pub open spec fn other_sources(edges: Seq<Seq<char>>) -> Seq<Seq<char>> {
    edges.filter(has_other_source()).map_values(|edge: Seq<char>| edge_kind(edge)->source)
}

/// The manifest of `package`: its name, the placeholders for version and
/// author, and the dependencies that its edges call for.
pub open spec fn manifest_of(package: PackageView) -> ManifestDataView {
    ManifestDataView {
        name: package.name,
        version: placeholder_version(),
        authors: seq![placeholder_author()],
        dependencies: registry_dependencies(edges_of(package)),
    }
}

/// Whether `edge` is a registry edge for the package called `name`.
pub open spec fn declares(edge: Seq<char>, name: Seq<char>) -> bool {
    edge_kind(edge) is Registry && edge_kind(edge)->name == name
}

/// A manifest declares a name exactly if one of the edges is a registry edge
/// of that name: edges of other sources and of the workspace leave no trace.
pub proof fn declared_names_are_registry_edges(edges: Seq<Seq<char>>, name: Seq<char>)
    ensures
        registry_dependencies(edges).dom().contains(name) <==> exists|i: int|
            0 <= i < edges.len() && declares(#[trigger] edges[i], name),
    decreases edges.len(),
{
    if edges.len() > 0 {
        let init = edges.drop_last();
        let last = edges.len() - 1;
        declared_names_are_registry_edges(init, name);
        if registry_dependencies(edges).dom().contains(name) {
            if registry_dependencies(init).dom().contains(name) {
                let i = choose|i: int| 0 <= i < init.len() && declares(#[trigger] init[i], name);
                assert(declares(edges[i], name));
            } else {
                assert(declares(edges[last], name));
            }
        }
        if exists|i: int| 0 <= i < edges.len() && declares(#[trigger] edges[i], name) {
            let i = choose|i: int| 0 <= i < edges.len() && declares(#[trigger] edges[i], name);
            if i < last {
                assert(declares(init[i], name));
            }
        }
    }
}

/// The version declared for a name is that of the last registry edge of
/// that name.
pub proof fn declared_version_is_the_last(edges: Seq<Seq<char>>, at: int, name: Seq<char>)
    requires
        0 <= at < edges.len(),
        declares(edges[at], name),
        forall|j: int| at < j < edges.len() ==> !declares(#[trigger] edges[j], name),
    ensures
        registry_dependencies(edges).dom().contains(name),
        registry_dependencies(edges)[name] == edge_kind(edges[at])->version,
    decreases edges.len(),
{
    let last = edges.len() - 1;
    if at < last {
        let init = edges.drop_last();
        assert(init[at] == edges[at]);
        assert forall|j: int| at < j < init.len() implies !declares(#[trigger] init[j], name) by {
            assert(init[j] == edges[j]);
        }
        declared_version_is_the_last(init, at, name);
        assert(!declares(edges[last], name));
    }
}

/// Plans the manifest of `package`.
///
/// Fails exactly if one of the package's edges is malformed, and then with
/// the first such edge.
pub fn build_toml(package: Package) -> (manifest: Result<ManifestData, PrepopError>)
    ensures
        manifest is Ok <==> all_well_formed(edges_of(package@)),
        manifest matches Ok(data) ==> data@ == manifest_of(package@),
        manifest matches Err(error) ==> error matches PrepopError::FormatError(
            LockIssue::MalformedEdge(text),
        ) && first_malformed(edges_of(package@), text@),
{
    let ghost edges = edges_of(package@);
    let Package { name, dependencies, .. } = package;
    let mut table = DependencyTable::new();
    match dependencies {
        Some(dependencies) => {
            let mut i: usize = 0;
            assert(edges.take(0) =~= Seq::<Seq<char>>::empty());
            while i < dependencies.len()
                invariant
                    i <= dependencies.len(),
                    edges == texts(dependencies@),
                    edges == edges_of(package@),
                    all_well_formed(edges.take(i as int)),
                    table@ == registry_dependencies(edges.take(i as int)),
                decreases dependencies.len() - i,
            {
                proof {
                    assert(edges.take(i + 1).drop_last() =~= edges.take(i as int));
                    assert(edges.take(i + 1).last() == edges[i as int]);
                }
                match build_and_filter_toml_dependency(dependencies[i].as_str()) {
                    Ok(Some((name, version))) => {
                        table = table.insert(name, version);
                    },
                    Ok(None) => {},
                    Err(error) => {
                        proof {
                            assert(edges[i as int] == dependencies[i as int]@);
                            assert(is_malformed(edges[i as int]));
                        }
                        return Err(error);
                    },
                }
                i += 1;
            }
            assert(edges.take(i as int) =~= edges);
        },
        None => {},
    }
    let mut authors: Vec<String> = Vec::new();
    authors.push(String::from_str("cargo-prepopulate"));
    let data = ManifestData {
        package: ManifestPackage { name, version: String::from_str("0.0.0"), authors },
        dependencies: table,
    };
    assert(data@.authors =~= seq![placeholder_author()]);
    Ok(data)
}

/// The sources that `build_toml` passes over among `edges`: those of the
/// edges of three parts whose source is not the registry.
pub fn ignored_sources(edges: &Vec<String>) -> (sources: Vec<String>)
    ensures
        texts(sources@) == other_sources(texts(edges@)),
{
    let ghost all = texts(edges@);
    let mut sources: Vec<String> = Vec::new();
    let mut i: usize = 0;
    proof {
        reveal(Seq::filter);
        assert(all.take(0) =~= Seq::<Seq<char>>::empty());
        assert(texts(sources@) =~= other_sources(all.take(0)));
    }
    while i < edges.len()
        invariant
            i <= edges.len(),
            all == texts(edges@),
            texts(sources@) == other_sources(all.take(i as int)),
        decreases edges.len() - i,
    {
        let ghost before = texts(sources@);
        proof {
            assert(all.take(i + 1) =~= all.take(i as int).push(all[i as int]));
            all.take(i as int).lemma_filter_push(all[i as int], has_other_source());
        }
        match classify_edge(edges[i].as_str()) {
            EdgeKind::OtherSource { source } => {
                sources.push(source);
                assert(texts(sources@) =~= before.push(source@));
                assert(other_sources(all.take(i + 1)) =~= other_sources(all.take(i as int)).push(
                    source@,
                ));
            },
            _ => {},
        }
        i += 1;
    }
    assert(all.take(i as int) =~= all);
    sources
}

/// Plans the manifest of a workspace whose members are called `names`.
pub fn build_workspace_toml(names: Vec<String>) -> (manifest: WorkspaceManifestData)
    ensures
        manifest@ == texts(names@),
{
    WorkspaceManifestData { members: names }
}

} // verus!
