//! From the text of a lock file to the plan of what is to be written: the
//! directories of the project's packages, their manifests and, for a
//! workspace, the manifest that lists them.

use crate::document::{document_records, toml_parse};
use crate::edge::texts;
use crate::error::{LockIssue, PrepopError};
use crate::lockfile::parse_lockfile;
use crate::manifest::{
    all_well_formed, build_toml, build_workspace_toml, edges_of, first_malformed,
    ignored_sources, manifest_of, other_sources, ManifestData, ManifestDataView,
    WorkspaceManifestData,
};
use crate::package::{
    packages_view, shape_of, text_of, Package, PackageView, ProjectShape, ProjectShapeView,
};
use vstd::prelude::*;
use vstd::string::*;

verus! {

/// What is to be written for one package: a directory with a `src`
/// directory and an empty library source in it, and the manifest.
#[derive(Debug, PartialEq, Eq)]
pub struct MemberScaffold {
    /// The package's directory below that of the lock file; `None` for the
    /// directory of the lock file itself.
    pub directory: Option<String>,
    pub manifest: ManifestData,
    /// The sources of the dependencies that the manifest leaves out because
    /// they are not from the registry: worth a notice, and no error.
    pub ignored_sources: Vec<String>,
}

/// Where the files of one package go, each path as its components below
/// the directory of the lock file.
#[derive(Debug, Clone, PartialEq, Eq)]
pub struct MemberPaths {
    pub directory: Vec<String>,
    pub source_directory: Vec<String>,
    pub stub: Vec<String>,
    pub manifest: Vec<String>,
}

/// What is to be written for a project: first the members, in order, then
/// the workspace manifest where there is one.
#[derive(Debug, PartialEq, Eq)]
pub struct Scaffold {
    pub members: Vec<MemberScaffold>,
    pub workspace: Option<WorkspaceManifestData>,
}

pub ghost struct MemberScaffoldView {
    pub directory: Option<Seq<char>>,
    pub manifest: ManifestDataView,
    pub ignored_sources: Seq<Seq<char>>,
}

pub ghost struct MemberPathsView {
    pub directory: Seq<Seq<char>>,
    pub source_directory: Seq<Seq<char>>,
    pub stub: Seq<Seq<char>>,
    pub manifest: Seq<Seq<char>>,
}

impl View for MemberPaths {
    type V = MemberPathsView;

    open spec fn view(&self) -> MemberPathsView {
        MemberPathsView {
            directory: texts(self.directory@),
            source_directory: texts(self.source_directory@),
            stub: texts(self.stub@),
            manifest: texts(self.manifest@),
        }
    }
}

/// The layout of a package in `directory`: the manifest in the package's
/// directory, and the empty source in the directory `src` below it.
pub open spec fn paths_of(directory: Option<Seq<char>>) -> MemberPathsView {
    let base = match directory {
        Some(name) => seq![name],
        None => Seq::empty(),
    };
    MemberPathsView {
        directory: base,
        source_directory: base.push("src"@),
        stub: base.push("src"@).push("lib-stub"@),
        manifest: base.push("Cargo.toml"@),
    }
}

pub ghost struct ScaffoldView {
    pub members: Seq<MemberScaffoldView>,
    pub workspace: Option<Seq<Seq<char>>>,
}

impl View for MemberScaffold {
    type V = MemberScaffoldView;

    open spec fn view(&self) -> MemberScaffoldView {
        MemberScaffoldView {
            directory: text_of(self.directory),
            manifest: self.manifest@,
            ignored_sources: texts(self.ignored_sources@),
        }
    }
}

impl View for Scaffold {
    type V = ScaffoldView;

    open spec fn view(&self) -> ScaffoldView {
        ScaffoldView {
            members: Seq::new(self.members@.len(), |i: int| self.members@[i]@),
            workspace: match self.workspace {
                Some(workspace) => Some(workspace@),
                None => None,
            },
        }
    }
}

/// The packages of a project, in order.
pub open spec fn members_of(shape: ProjectShapeView) -> Seq<PackageView> {
    match shape {
        ProjectShapeView::SingleProject(package) => seq![package],
        ProjectShapeView::Workspace(members) => members,
    }
}

/// What is to be written for `package` in `directory`.
pub open spec fn member_scaffold_of(
    directory: Option<Seq<char>>,
    package: PackageView,
) -> MemberScaffoldView {
    MemberScaffoldView {
        directory,
        manifest: manifest_of(package),
        ignored_sources: other_sources(edges_of(package)),
    }
}

/// What is to be written for a project. A single project lies in the
/// directory of the lock file and has no workspace manifest; the members of
/// a workspace lie each in a directory of its name, and the workspace
/// manifest lists those names in the members' order.
pub open spec fn scaffold_of(shape: ProjectShapeView) -> ScaffoldView {
    match shape {
        ProjectShapeView::SingleProject(package) => ScaffoldView {
            members: seq![member_scaffold_of(None, package)],
            workspace: None,
        },
        ProjectShapeView::Workspace(members) => ScaffoldView {
            members: Seq::new(
                members.len(),
                |i: int| member_scaffold_of(Some(members[i].name), members[i]),
            ),
            workspace: Some(Seq::new(members.len(), |i: int| members[i].name)),
        },
    }
}

/// Whether no edge of any of `members` is malformed.
pub open spec fn members_well_formed(members: Seq<PackageView>) -> bool {
    forall|m: int| 0 <= m < members.len() ==> all_well_formed(edges_of(#[trigger] members[m]))
}

/// Whether `text` is the first malformed edge of the first of `members` that
/// has one.
pub open spec fn first_malformed_member(members: Seq<PackageView>, text: Seq<char>) -> bool {
    exists|m: int|
        0 <= m < members.len() && first_malformed(edges_of(#[trigger] members[m]), text)
            && members_well_formed(members.take(m))
}

/// Whether `plan` is what planning the project `shape` gives: the scaffold
/// where no edge is malformed, else the first malformed edge as the error.
pub open spec fn is_plan_of(plan: Result<Scaffold, PrepopError>, shape: ProjectShapeView) -> bool {
    &&& plan is Ok <==> members_well_formed(members_of(shape))
    &&& plan matches Ok(scaffold) ==> scaffold@ == scaffold_of(shape)
    &&& plan matches Err(error) ==> error matches PrepopError::FormatError(
        LockIssue::MalformedEdge(text),
    ) && first_malformed_member(members_of(shape), text@)
}

/// Whether `file_name`, the last component of a path, names a lock file.
pub open spec fn is_lock_file_name(file_name: Option<&str>) -> bool {
    file_name matches Some(name) && name@ == "Cargo.lock"@
}

/// Plans what is to be written for `member` in `directory`.
pub fn populate_member(directory: Option<String>, member: Package) -> (scaffold: Result<
    MemberScaffold,
    PrepopError,
>)
    ensures
        scaffold is Ok <==> all_well_formed(edges_of(member@)),
        scaffold matches Ok(planned) ==> planned@ == member_scaffold_of(
            text_of(directory),
            member@,
        ),
        scaffold matches Err(error) ==> error matches PrepopError::FormatError(
            LockIssue::MalformedEdge(text),
        ) && first_malformed(edges_of(member@), text@),
{
    let ignored = match &member.dependencies {
        Some(edges) => ignored_sources(edges),
        None => Vec::new(),
    };
    proof {
        if member.dependencies is None {
            reveal(Seq::filter);
            assert(texts(ignored@) =~= other_sources(edges_of(member@)));
        }
    }
    match build_toml(member) {
        Ok(manifest) => Ok(MemberScaffold { directory, manifest, ignored_sources: ignored }),
        Err(error) => Err(error),
    }
}

impl MemberScaffold {
    /// Where the package's files go.
    pub fn paths(&self) -> (paths: MemberPaths)
        ensures
            paths@ == paths_of(text_of(self.directory)),
    {
        let mut directory: Vec<String> = Vec::new();
        match &self.directory {
            Some(name) => {
                directory.push(name.clone());
            },
            None => {},
        }
        let mut source_directory = directory.clone();
        source_directory.push(String::from_str("src"));
        let mut stub = source_directory.clone();
        stub.push(String::from_str("lib-stub"));
        let mut manifest = directory.clone();
        manifest.push(String::from_str("Cargo.toml"));
        let paths = MemberPaths { directory, source_directory, stub, manifest };
        assert(paths@.directory =~= paths_of(text_of(self.directory)).directory);
        assert(paths@.source_directory =~= paths_of(text_of(self.directory)).source_directory);
        assert(paths@.stub =~= paths_of(text_of(self.directory)).stub);
        assert(paths@.manifest =~= paths_of(text_of(self.directory)).manifest);
        paths
    }
}

/// Plans what is to be written for a project.
pub fn plan_scaffold(shape: ProjectShape) -> (plan: Result<Scaffold, PrepopError>)
    ensures
        is_plan_of(plan, shape@),
{
    match shape {
        ProjectShape::SingleProject(package) => {
            let ghost only = package@;
            assert(members_of(shape@)[0] == only);
            assert(members_of(shape@).take(0) =~= Seq::<PackageView>::empty());
            match populate_member(None, package) {
                Ok(member) => {
                    let mut members: Vec<MemberScaffold> = Vec::new();
                    members.push(member);
                    let scaffold = Scaffold { members, workspace: None };
                    assert(scaffold@.members =~= scaffold_of(shape@).members);
                    Ok(scaffold)
                },
                Err(error) => Err(error),
            }
        },
        ProjectShape::Workspace(packages) => {
            let ghost all = packages_view(packages@);
            let mut members: Vec<MemberScaffold> = Vec::new();
            let mut names: Vec<String> = Vec::new();
            for package in it: packages
                invariant
                    packages_view(it.seq()) == all,
                    all == members_of(shape@),
                    members.len() == it.index(),
                    names.len() == it.index(),
                    members_well_formed(all.take(it.index() as int)),
                    forall|i: int|
                        0 <= i < it.index() ==> (#[trigger] members[i])@ == member_scaffold_of(
                            Some(all[i].name),
                            all[i],
                        ),
                    forall|i: int| 0 <= i < it.index() ==> (#[trigger] names[i])@ == all[i].name,
            {
                let ghost m = it.index() as int;
                assert(package@ == all[m]);
                let name = package.name.clone();
                match populate_member(Some(name.clone()), package) {
                    Ok(member) => {
                        members.push(member);
                        names.push(name);
                        assert forall|k: int| 0 <= k < m + 1 implies all_well_formed(
                            edges_of(#[trigger] all.take(m + 1)[k]),
                        ) by {
                            if k < m {
                                assert(all.take(m)[k] == all.take(m + 1)[k]);
                            }
                        }
                    },
                    Err(error) => {
                        return Err(error);
                    },
                }
            }
            assert(all.take(all.len() as int) =~= all);
            let scaffold = Scaffold { members, workspace: Some(build_workspace_toml(names)) };
            assert(scaffold@.members =~= scaffold_of(shape@).members);
            assert(scaffold@.workspace->0 =~= scaffold_of(shape@).workspace->0);
            Ok(scaffold)
        },
    }
}

/// Checks that `file_name`, the last component of the path given, is
/// `Cargo.lock`.
pub fn check_lock_file_name(file_name: Option<&str>) -> (checked: Result<(), PrepopError>)
    ensures
        checked is Ok <==> is_lock_file_name(file_name),
        checked matches Err(error) ==> error matches PrepopError::PathError(message) && message@
            == "Path does not point to a Cargo.lock file"@,
{
    let named = match file_name {
        Some(name) => String::from_str(name) == String::from_str("Cargo.lock"),
        None => false,
    };
    if named {
        Ok(())
    } else {
        Err(PrepopError::PathError(String::from_str("Path does not point to a Cargo.lock file")))
    }
}

/// Plans the project that the lock file called `file_name`, with the text
/// `lock_text`, describes.
///
/// Nothing is planned unless the name is that of a lock file, the text is a
/// lock document and every edge of the project's own packages is well
/// formed.
pub fn prepopulate(file_name: Option<&str>, lock_text: &str) -> (plan: Result<Scaffold, PrepopError>)
    ensures
        !is_lock_file_name(file_name) ==> (plan matches Err(PrepopError::PathError(message))
            && message@ == "Path does not point to a Cargo.lock file"@),
        is_lock_file_name(file_name) ==> match toml_parse(lock_text@) {
            None => plan matches Err(PrepopError::FormatError(LockIssue::Syntax(_))),
            Some(document) => match document_records(document) {
                Ok(records) => is_plan_of(plan, shape_of(records)),
                Err(issue) => plan == Err::<Scaffold, _>(PrepopError::FormatError(issue)),
            },
        },
{
    match check_lock_file_name(file_name) {
        Ok(()) => {},
        Err(error) => {
            return Err(error);
        },
    }
    match parse_lockfile(lock_text) {
        Ok(project) => plan_scaffold(project),
        Err(error) => Err(error),
    }
}

} // verus!
