//! The packages of a lock file, and the shape of the project they make up.

use crate::edge::texts;
use vstd::prelude::*;
use vstd::std_specs::convert::FromSpecImpl;

verus! {

/// One package entry of a lock file.
#[derive(Debug, Clone, PartialEq, Eq)]
pub struct PackageRecord {
    pub name: String,
    pub version: String,
    /// Where the package was resolved from; absent for a package of the
    /// project itself.
    pub source: Option<String>,
    /// The package's dependency edges, as the lock file writes them.
    pub dependencies: Option<Vec<String>>,
}

/// A package of the project itself: a record without its source.
#[derive(Debug, Clone, PartialEq, Eq)]
pub struct Package {
    pub name: String,
    pub version: String,
    pub dependencies: Option<Vec<String>>,
}

/// The project that a lock file describes.
#[derive(Debug, Clone, PartialEq, Eq)]
pub enum ProjectShape {
    /// A single package, whose manifest lies beside the lock file.
    SingleProject(Package),
    /// A workspace: each member in a directory of its name.
    Workspace(Vec<Package>),
}

pub ghost struct PackageRecordView {
    pub name: Seq<char>,
    pub version: Seq<char>,
    pub source: Option<Seq<char>>,
    pub dependencies: Option<Seq<Seq<char>>>,
}

pub ghost struct PackageView {
    pub name: Seq<char>,
    pub version: Seq<char>,
    pub dependencies: Option<Seq<Seq<char>>>,
}

pub ghost enum ProjectShapeView {
    SingleProject(PackageView),
    Workspace(Seq<PackageView>),
}

/// The characters of an optional string.
pub open spec fn text_of(s: Option<String>) -> Option<Seq<char>> {
    match s {
        Some(s) => Some(s@),
        None => None,
    }
}

/// The characters of each string of an optional list.
pub open spec fn texts_of(v: Option<Vec<String>>) -> Option<Seq<Seq<char>>> {
    match v {
        Some(v) => Some(texts(v@)),
        None => None,
    }
}

impl View for PackageRecord {
    type V = PackageRecordView;

    open spec fn view(&self) -> PackageRecordView {
        PackageRecordView {
            name: self.name@,
            version: self.version@,
            source: text_of(self.source),
            dependencies: texts_of(self.dependencies),
        }
    }
}

impl View for Package {
    type V = PackageView;

    open spec fn view(&self) -> PackageView {
        PackageView {
            name: self.name@,
            version: self.version@,
            dependencies: texts_of(self.dependencies),
        }
    }
}

/// The view of each record of `v`.
pub open spec fn records_view(v: Seq<PackageRecord>) -> Seq<PackageRecordView> {
    Seq::new(v.len(), |i: int| v[i]@)
}

/// The view of each package of `v`.
pub open spec fn packages_view(v: Seq<Package>) -> Seq<PackageView> {
    Seq::new(v.len(), |i: int| v[i]@)
}

impl View for ProjectShape {
    type V = ProjectShapeView;

    open spec fn view(&self) -> ProjectShapeView {
        match self {
            ProjectShape::SingleProject(package) => ProjectShapeView::SingleProject(package@),
            ProjectShape::Workspace(members) => ProjectShapeView::Workspace(
                packages_view(members@),
            ),
        }
    }
}

/// The record `record` without its source.
pub open spec fn package_of(record: PackageRecordView) -> PackageView {
    PackageView {
        name: record.name,
        version: record.version,
        dependencies: record.dependencies,
    }
}

/// Whether a record belongs to the project itself: it has no source.
pub open spec fn is_first_party() -> spec_fn(PackageRecordView) -> bool {
    |record: PackageRecordView| record.source is None
}

/// The packages of the project itself among `records`, in the order of the
/// records.
pub open spec fn first_party(records: Seq<PackageRecordView>) -> Seq<PackageView> {
    records.filter(is_first_party()).map_values(|record: PackageRecordView| package_of(record))
}

/// A single project where exactly one record has no source, else a workspace
/// of all those that have none.
pub open spec fn shape_of(records: Seq<PackageRecordView>) -> ProjectShapeView {
    let own = first_party(records);
    if own.len() == 1 {
        ProjectShapeView::SingleProject(own[0])
    } else {
        ProjectShapeView::Workspace(own)
    }
}

impl From<PackageRecord> for Package {
    fn from(package: PackageRecord) -> (ret: Package) {
        let PackageRecord { name, version, dependencies, .. } = package;
        Package { name, version, dependencies }
    }
}

impl FromSpecImpl<PackageRecord> for Package {
    open spec fn obeys_from_spec() -> bool {
        true
    }

    open spec fn from_spec(package: PackageRecord) -> Package {
        Package {
            name: package.name,
            version: package.version,
            dependencies: package.dependencies,
        }
    }
}

/// Appending a record appends its package where it has no source, and
/// nothing where it has one.
pub proof fn first_party_push(records: Seq<PackageRecordView>, record: PackageRecordView)
    ensures
        first_party(records.push(record)) == if record.source is None {
            first_party(records).push(package_of(record))
        } else {
            first_party(records)
        },
{
    records.lemma_filter_push(record, is_first_party());
    if record.source is None {
        assert(first_party(records.push(record)) =~= first_party(records).push(
            package_of(record),
        ));
    }
}

/// Whether `positions` lists, in rising order, exactly the places in
/// `records` of the records without a source.
pub open spec fn lists_first_party(records: Seq<PackageRecordView>, positions: Seq<int>) -> bool {
    &&& forall|k: int| 0 <= k < positions.len() ==> 0 <= #[trigger] positions[k] < records.len()
    &&& forall|k: int, l: int| 0 <= k < l < positions.len() ==> positions[k] < positions[l]
    &&& forall|i: int|
        0 <= i < records.len() ==> ((#[trigger] records[i]).source is None
            <==> positions.contains(i))
}

/// The packages made of the records at `positions`, in that order.
pub open spec fn packages_at(records: Seq<PackageRecordView>, positions: Seq<int>) -> Seq<
    PackageView,
> {
    Seq::new(positions.len(), |k: int| package_of(records[positions[k]]))
}

/// The packages of the project itself are the records without a source,
/// each without its source, in the order in which the records stand.
pub proof fn first_party_keeps_order(records: Seq<PackageRecordView>, positions: Seq<int>)
    requires
        lists_first_party(records, positions),
    ensures
        first_party(records) == packages_at(records, positions),
    decreases records.len(),
{
    if records.len() == 0 {
        reveal(Seq::filter);
        if positions.len() > 0 {
            assert(0 <= positions[0] < records.len());
        }
        assert(first_party(records) =~= packages_at(records, positions));
    } else {
        let last = records.len() - 1;
        let init = records.drop_last();
        assert(records =~= init.push(records[last]));
        first_party_push(init, records[last]);
        if records[last].source is None {
            assert(positions.contains(last));
            let at = choose|k: int| 0 <= k < positions.len() && positions[k] == last;
            if at < positions.len() - 1 {
                assert(positions[at] < positions[positions.len() - 1]);
                assert(positions[positions.len() - 1] < records.len());
            }
            let rest = positions.drop_last();
            assert forall|i: int| 0 <= i < init.len() implies ((#[trigger] init[i]).source is None
                <==> rest.contains(i)) by {
                assert(init[i] == records[i]);
                if records[i].source is None {
                    let k = choose|k: int| 0 <= k < positions.len() && positions[k] == i;
                    assert(rest[k] == i);
                }
                if rest.contains(i) {
                    let k = choose|k: int| 0 <= k < rest.len() && rest[k] == i;
                    assert(positions[k] == i);
                }
            }
            assert forall|k: int| 0 <= k < rest.len() implies 0 <= #[trigger] rest[k]
                < init.len() by {
                assert(positions[k] < positions[positions.len() - 1]);
            }
            first_party_keeps_order(init, rest);
            assert(first_party(records) =~= packages_at(records, positions));
        } else {
            assert forall|i: int| 0 <= i < init.len() implies ((#[trigger] init[i]).source is None
                <==> positions.contains(i)) by {
                assert(init[i] == records[i]);
            }
            assert forall|k: int| 0 <= k < positions.len() implies 0 <= #[trigger] positions[k]
                < init.len() by {
                if positions[k] == last {
                    assert(positions.contains(last));
                }
            }
            first_party_keeps_order(init, positions);
            assert(first_party(records) =~= packages_at(records, positions));
        }
    }
}

/// A lock file in which exactly one record has no source describes a single
/// project, made of that record.
pub proof fn one_first_party_is_single_project(records: Seq<PackageRecordView>, at: int)
    requires
        0 <= at < records.len(),
        forall|i: int|
            0 <= i < records.len() ==> ((#[trigger] records[i]).source is None <==> i == at),
    ensures
        shape_of(records) == ProjectShapeView::SingleProject(package_of(records[at])),
{
    let positions = seq![at];
    assert forall|i: int| 0 <= i < records.len() implies ((#[trigger] records[i]).source is None
        <==> positions.contains(i)) by {
        if i == at {
            assert(positions[0] == i);
        }
    }
    first_party_keeps_order(records, positions);
}

/// A lock file in which two or more records have no source describes a
/// workspace, whose members are exactly those records, in their order.
pub proof fn many_first_party_is_workspace(records: Seq<PackageRecordView>, positions: Seq<int>)
    requires
        lists_first_party(records, positions),
        positions.len() >= 2,
    ensures
        shape_of(records) == ProjectShapeView::Workspace(packages_at(records, positions)),
{
    first_party_keeps_order(records, positions);
}

/// A lock file in which every record has a source describes a workspace
/// without members.
pub proof fn no_first_party_is_empty_workspace(records: Seq<PackageRecordView>)
    requires
        forall|i: int| 0 <= i < records.len() ==> (#[trigger] records[i]).source is Some,
    ensures
        shape_of(records) == ProjectShapeView::Workspace(Seq::empty()),
{
    let positions = Seq::<int>::empty();
    first_party_keeps_order(records, positions);
    assert(packages_at(records, positions) =~= Seq::<PackageView>::empty());
}

/// Sorts out the packages of the project itself and tells a single project
/// from a workspace.
pub fn project_shape(records: Vec<PackageRecord>) -> (shape: ProjectShape)
    ensures
        shape@ == shape_of(records_view(records@)),
{
    let ghost all = records_view(records@);
    let mut own: Vec<Package> = Vec::new();
    proof {
        reveal(Seq::filter);
        assert(all.take(0) =~= Seq::<PackageRecordView>::empty());
        assert(first_party(all.take(0)) =~= packages_view(own@));
    }
    for record in it: records
        invariant
            records_view(it.seq()) == all,
            packages_view(own@) == first_party(all.take(it.index() as int)),
    {
        proof {
            let i = it.index() as int;
            assert(all.take(i + 1) =~= all.take(i).push(record@));
            first_party_push(all.take(i), record@);
        }
        if record.source.is_none() {
            let ghost before = packages_view(own@);
            own.push(Package::from(record));
            assert(packages_view(own@) =~= before.push(package_of(record@)));
        }
    }
    assert(all.take(all.len() as int) =~= all);
    if own.len() == 1 {
        let single = own.pop().unwrap();
        ProjectShape::SingleProject(single)
    } else {
        ProjectShape::Workspace(own)
    }
}

} // verus!
