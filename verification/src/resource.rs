//! The records of what a distribution bundles and of what the packaging
//! tools find, and the rules by which they are selected.

use vstd::prelude::*;
use vstd::string::*;
use crate::marshal::texts;
use crate::text::{has_prefix, same_text, starts_with};

verus! {

/// A module given by its source code.
#[derive(Debug, PartialEq, Eq)]
pub struct PythonSourceModule {
    /// The dotted name of the module.
    pub name: String,
    /// The source code.
    pub source: Vec<u8>,
    /// Whether the module is a package.
    pub is_package: bool,
}

/// How far the bytecode of a module is to be optimized.
#[derive(Clone, Copy, Debug, PartialEq, Eq, Structural)]
pub enum BytecodeOptimizationLevel {
    Zero,
    One,
    Two,
}

/// A module whose bytecode is to be made from its source code.
#[derive(Debug, PartialEq, Eq)]
pub struct PythonBytecodeModule {
    /// The dotted name of the module.
    pub name: String,
    /// The source code.
    pub source: Vec<u8>,
    pub optimize_level: BytecodeOptimizationLevel,
    /// Whether the module is a package.
    pub is_package: bool,
}

/// A module given by bytecode that was compiled before.
#[derive(Debug, PartialEq, Eq)]
pub struct PythonCompiledModule {
    /// The dotted name of the module.
    pub name: String,
    /// The bytecode.
    pub bytecode: Vec<u8>,
    pub optimize_level: BytecodeOptimizationLevel,
    /// Whether the module is a package.
    pub is_package: bool,
}

/// A data file that belongs to a package.
#[derive(Debug, PartialEq, Eq)]
pub struct PythonPackageResource {
    /// The dotted name of the innermost package that holds the file.
    pub leaf_package: String,
    /// The file's path below that package.
    pub relative_name: String,
    /// The file's content.
    pub data: Vec<u8>,
}

/// A file of the metadata that a package was distributed with.
#[derive(Debug, PartialEq, Eq)]
pub struct PythonPackageDistributionResource {
    /// The name of the package.
    pub package: String,
    /// The version of the package.
    pub version: String,
    /// The file's name among the package's metadata.
    pub name: String,
    /// The file's content.
    pub data: Vec<u8>,
}

/// A compiled native module.
#[derive(Debug, PartialEq, Eq)]
pub struct PythonExtensionModule {
    /// The dotted name of the module.
    pub name: String,
    /// Whether the module is a package.
    pub is_package: bool,
    /// Which build of the module this is, where there are several.
    pub variant: Option<String>,
}

/// An egg: an archive that holds a package whole.
#[derive(Debug, PartialEq, Eq)]
pub struct PythonEggFile {
    /// The archive's content.
    pub data: Vec<u8>,
}

/// A file that extends the path on which modules are looked for.
#[derive(Debug, PartialEq, Eq)]
pub struct PythonPathExtension {
    /// The file's content.
    pub data: Vec<u8>,
}

/// One record of what a packaging tool found.
#[derive(Debug, PartialEq, Eq)]
pub enum PythonResource {
    SourceModule(PythonSourceModule),
    BytecodeModule(PythonBytecodeModule),
    CompiledModule(PythonCompiledModule),
    PackageResource(PythonPackageResource),
    PackageDistributionResource(PythonPackageDistributionResource),
    ExtensionModule(PythonExtensionModule),
    EggFile(PythonEggFile),
    PathExtension(PythonPathExtension),
}

impl PythonResource {
    /// The dotted name by which a record is counted among packages: a
    /// module's own name, the innermost package of a data file, and the
    /// package of a file of metadata. An egg and a path extension have
    /// none.
    pub open spec fn spec_package_name(&self) -> Option<Seq<char>> {
        match self {
            PythonResource::SourceModule(m) => Some(m.name@),
            PythonResource::BytecodeModule(m) => Some(m.name@),
            PythonResource::CompiledModule(m) => Some(m.name@),
            PythonResource::PackageResource(r) => Some(r.leaf_package@),
            PythonResource::PackageDistributionResource(r) => Some(r.package@),
            PythonResource::ExtensionModule(m) => Some(m.name@),
            PythonResource::EggFile(_) => None,
            PythonResource::PathExtension(_) => None,
        }
    }

    /// The record is one of the given packages or lies under one. A record
    /// without a name is in no package.
    pub open spec fn spec_is_in_packages(&self, packages: Seq<Seq<char>>) -> bool {
        match self.spec_package_name() {
            Some(name) => in_packages(name, packages),
            None => false,
        }
    }

    /// The dotted name by which a record is counted among packages.
    pub fn package_name(&self) -> (r: Option<&str>)
        ensures
            r is Some <==> self.spec_package_name() is Some,
            r is Some ==> r->Some_0@ == self.spec_package_name()->Some_0,
    {
        match self {
            PythonResource::SourceModule(m) => Some(m.name.as_str()),
            PythonResource::BytecodeModule(m) => Some(m.name.as_str()),
            PythonResource::CompiledModule(m) => Some(m.name.as_str()),
            PythonResource::PackageResource(r) => Some(r.leaf_package.as_str()),
            PythonResource::PackageDistributionResource(r) => Some(r.package.as_str()),
            PythonResource::ExtensionModule(m) => Some(m.name.as_str()),
            PythonResource::EggFile(_) => None,
            PythonResource::PathExtension(_) => None,
        }
    }

    /// Whether the record is one of the given packages or lies under one.
    pub fn is_in_packages(&self, packages: &Vec<String>) -> (r: bool)
        ensures
            r == self.spec_is_in_packages(texts(packages@)),
    {
        match self.package_name() {
            Some(name) => name_in_packages(name, packages),
            None => false,
        }
    }

    /// Whether the record belongs to one of the standard library's test
    /// packages.
    pub fn is_test(&self) -> (r: bool)
        ensures
            r == is_test_resource(*self),
    {
        match self.package_name() {
            Some(name) => is_stdlib_test_package(name),
            None => false,
        }
    }
}

/// The dotted name `name` is `package` itself or lies under it.
pub open spec fn in_package(name: Seq<char>, package: Seq<char>) -> bool {
    name == package || starts_with(name, package + "."@)
}

/// The dotted name is one of the packages or lies under one of them.
pub open spec fn in_packages(name: Seq<char>, packages: Seq<Seq<char>>) -> bool {
    exists|i: int| 0 <= i < packages.len() && in_package(name, #[trigger] packages[i])
}

/// Whether a dotted name is the given package or lies under it.
pub fn name_in_package(name: &str, package: &str) -> (r: bool)
    ensures
        r == in_package(name@, package@),
{
    if same_text(name, package) {
        true
    } else {
        let mut prefix = String::from_str(package);
        prefix.append(".");
        has_prefix(name, prefix.as_str())
    }
}

/// Whether a dotted name is one of the given packages or lies under one.
pub fn name_in_packages(name: &str, packages: &Vec<String>) -> (r: bool)
    ensures
        r == in_packages(name@, texts(packages@)),
{
    let mut i: usize = 0;
    while i < packages.len()
        invariant
            i <= packages.len(),
            forall|j: int| 0 <= j < i ==> !in_package(name@, #[trigger] texts(packages@)[j]),
        decreases packages.len() - i,
    {
        if name_in_package(name, packages[i].as_str()) {
            assert(in_package(name@, texts(packages@)[i as int]));
            return true;
        }
        i += 1;
    }
    false
}

/// The packages of the standard library that hold its tests.
pub open spec fn spec_stdlib_test_packages() -> Seq<Seq<char>> {
    seq![
        "bsddb.test"@,
        "ctypes.test"@,
        "distutils.tests"@,
        "email.test"@,
        "idlelib.idle_test"@,
        "json.tests"@,
        "lib-tk.test"@,
        "lib2to3.tests"@,
        "sqlite3.test"@,
        "test"@,
        "tkinter.test"@,
        "unittest.test"@,
    ]
}

/// The packages of the standard library that hold its tests.
pub fn stdlib_test_packages() -> (r: Vec<String>)
    ensures
        texts(r@) == spec_stdlib_test_packages(),
{
    let mut v: Vec<String> = Vec::new();
    v.push(String::from_str("bsddb.test"));
    v.push(String::from_str("ctypes.test"));
    v.push(String::from_str("distutils.tests"));
    v.push(String::from_str("email.test"));
    v.push(String::from_str("idlelib.idle_test"));
    v.push(String::from_str("json.tests"));
    v.push(String::from_str("lib-tk.test"));
    v.push(String::from_str("lib2to3.tests"));
    v.push(String::from_str("sqlite3.test"));
    v.push(String::from_str("test"));
    v.push(String::from_str("tkinter.test"));
    v.push(String::from_str("unittest.test"));
    assert(texts(v@) =~= spec_stdlib_test_packages());
    v
}

/// Whether a package is one of the standard library's test packages or
/// lies under one.
pub fn is_stdlib_test_package(name: &str) -> (r: bool)
    ensures
        r == in_packages(name@, spec_stdlib_test_packages()),
{
    let packages = stdlib_test_packages();
    name_in_packages(name, &packages)
}

/// The rule by which records are kept for a list of packages.
pub open spec fn keeps_in_packages(packages: Seq<Seq<char>>) -> spec_fn(PythonResource) -> bool {
    |r: PythonResource| r.spec_is_in_packages(packages)
}

/// Keeps the records that are one of the given packages or lie under one,
/// in the order in which they came.
pub fn retain_in_packages(resources: Vec<PythonResource>, packages: &Vec<String>) -> (r: Vec<
    PythonResource,
>)
    ensures
        r@ == resources@.filter(keeps_in_packages(texts(packages@))),
{
    let ghost all = resources@;
    let ghost keep = keeps_in_packages(texts(packages@));
    let mut out: Vec<PythonResource> = Vec::new();
    proof {
        reveal(Seq::filter);
        assert(all.take(0).filter(keep) =~= Seq::<PythonResource>::empty());
    }
    for x in it: resources
        invariant
            it.seq() == all,
            keep == keeps_in_packages(texts(packages@)),
            out@ == all.take(it.index() as int).filter(keep),
    {
        proof {
            let n = it.index() as int;
            reveal(Seq::filter);
            assert(all.take(n + 1).drop_last() =~= all.take(n));
            assert(all.take(n + 1).last() == x);
        }
        if x.is_in_packages(packages) {
            out.push(x);
        }
    }
    assert(all.take(all.len() as int) =~= all);
    out
}

/// A record of one of the standard library's test packages.
pub open spec fn is_test_resource(r: PythonResource) -> bool {
    r.spec_is_in_packages(spec_stdlib_test_packages())
}

/// The rule by which a distribution's data files are listed: all of them
/// where tests are asked for, else those outside the test packages.
pub open spec fn lists_resource(include_test: bool) -> spec_fn(PythonResource) -> bool {
    |r: PythonResource| include_test || !is_test_resource(r)
}

/// The data files to list, in the order in which they came: all of them
/// where tests are asked for, else those outside the standard library's
/// test packages.
pub fn select_package_resources(resources: Vec<PythonResource>, include_test: bool) -> (r: Vec<
    PythonResource,
>)
    ensures
        r@ == resources@.filter(lists_resource(include_test)),
{
    let ghost all = resources@;
    let ghost keep = lists_resource(include_test);
    let mut out: Vec<PythonResource> = Vec::new();
    proof {
        reveal(Seq::filter);
        assert(all.take(0).filter(keep) =~= Seq::<PythonResource>::empty());
    }
    for x in it: resources
        invariant
            it.seq() == all,
            keep == lists_resource(include_test),
            out@ == all.take(it.index() as int).filter(keep),
    {
        proof {
            let n = it.index() as int;
            reveal(Seq::filter);
            assert(all.take(n + 1).drop_last() =~= all.take(n));
            assert(all.take(n + 1).last() == x);
        }
        if include_test || !x.is_test() {
            out.push(x);
        }
    }
    assert(all.take(all.len() as int) =~= all);
    out
}

/// What a selection keeps was there before, and it keeps everything
/// exactly when every item meets the rule.
proof fn lemma_selection<A>(s: Seq<A>, keep: spec_fn(A) -> bool)
    ensures
        s.filter(keep).len() <= s.len(),
        forall|i: int| 0 <= i < s.filter(keep).len() ==> s.contains(#[trigger] s.filter(keep)[i]),
        (forall|i: int| 0 <= i < s.len() ==> keep(#[trigger] s[i])) ==> s.filter(keep) == s,
        (exists|i: int| 0 <= i < s.len() && !keep(#[trigger] s[i])) ==> s.filter(keep).len()
            < s.len(),
    decreases s.len(),
{
    reveal(Seq::filter);
    if s.len() > 0 {
        let front = s.drop_last();
        lemma_selection(front, keep);
        let kept = s.filter(keep);
        assert forall|i: int| 0 <= i < kept.len() implies s.contains(#[trigger] kept[i]) by {
            if i < front.filter(keep).len() {
                let j = choose|j: int| 0 <= j < front.len() && front[j] == front.filter(keep)[i];
                assert(s[j] == kept[i]);
            } else {
                assert(s[s.len() - 1] == kept[i]);
            }
        }
        if forall|i: int| 0 <= i < s.len() ==> keep(#[trigger] s[i]) {
            assert forall|i: int| 0 <= i < front.len() implies keep(#[trigger] front[i]) by {
                assert(front[i] == s[i]);
            }
            assert(keep(s[s.len() - 1]));
            assert(kept =~= s);
        }
        if exists|i: int| 0 <= i < s.len() && !keep(#[trigger] s[i]) {
            let i = choose|i: int| 0 <= i < s.len() && !keep(#[trigger] s[i]);
            if i < front.len() {
                assert(!keep(front[i]));
            }
        }
    }
}

/// The listing of a distribution's data files without tests is a part of
/// the listing with tests: the listing with tests is the whole list, the
/// one without is no longer, and each of its records is in the whole
/// list. It is shorter as soon as one file of the list belongs to a test
/// package, and equal to the whole list where none does.
pub proof fn lemma_listing_without_tests_is_part(resources: Seq<PythonResource>)
    ensures
        resources.filter(lists_resource(true)) == resources,
        resources.filter(lists_resource(false)).len() <= resources.filter(
            lists_resource(true),
        ).len(),
        forall|i: int|
            0 <= i < resources.filter(lists_resource(false)).len() ==> resources.filter(
                lists_resource(true),
            ).contains(#[trigger] resources.filter(lists_resource(false))[i]),
        (exists|i: int| 0 <= i < resources.len() && is_test_resource(#[trigger] resources[i]))
            ==> resources.filter(lists_resource(false)).len() < resources.filter(
            lists_resource(true),
        ).len(),
        (forall|i: int| 0 <= i < resources.len() ==> !is_test_resource(#[trigger] resources[i]))
            ==> resources.filter(lists_resource(false)) == resources,
{
    lemma_selection(resources, lists_resource(true));
    lemma_selection(resources, lists_resource(false));
    assert forall|i: int| 0 <= i < resources.len() implies lists_resource(true)(
        #[trigger] resources[i],
    ) by {}
    if exists|i: int| 0 <= i < resources.len() && is_test_resource(#[trigger] resources[i]) {
        let i = choose|i: int| 0 <= i < resources.len() && is_test_resource(
            #[trigger] resources[i],
        );
        assert(!lists_resource(false)(resources[i]));
    }
    if forall|i: int| 0 <= i < resources.len() ==> !is_test_resource(#[trigger] resources[i]) {
        assert forall|i: int| 0 <= i < resources.len() implies lists_resource(false)(
            #[trigger] resources[i],
        ) by {}
    }
}

} // verus!
