//! Where a distribution comes from, and the registry of the distributions
//! that are known for each target.

use vstd::prelude::*;
use vstd::string::*;
use crate::policy::DistributionFlavor;
use crate::text::same_text;

verus! {

/// Where a distribution is to be had: a file or a URL, with the checksum
/// that its content must have. The checksum is carried, not examined.
#[derive(Debug, PartialEq, Eq)]
pub enum PythonDistributionLocation {
    Local { local_path: String, sha256: String },
    Url { url: String, sha256: String },
}

/// A location as contracts speak of it.
pub enum LocationModel {
    Local { local_path: Seq<char>, sha256: Seq<char> },
    Url { url: Seq<char>, sha256: Seq<char> },
}

impl View for PythonDistributionLocation {
    type V = LocationModel;

    open spec fn view(&self) -> LocationModel {
        match self {
            PythonDistributionLocation::Local { local_path, sha256 } => LocationModel::Local {
                local_path: local_path@,
                sha256: sha256@,
            },
            PythonDistributionLocation::Url { url, sha256 } => LocationModel::Url {
                url: url@,
                sha256: sha256@,
            },
        }
    }
}

impl PythonDistributionLocation {
    /// A copy of the location.
    pub fn duplicate(&self) -> (r: PythonDistributionLocation)
        ensures
            r@ == self@,
    {
        match self {
            PythonDistributionLocation::Local { local_path, sha256 } => {
                PythonDistributionLocation::Local {
                    local_path: local_path.clone(),
                    sha256: sha256.clone(),
                }
            },
            PythonDistributionLocation::Url { url, sha256 } => PythonDistributionLocation::Url {
                url: url.clone(),
                sha256: sha256.clone(),
            },
        }
    }
}

/// One distribution that the registry knows.
#[derive(Debug, PartialEq, Eq)]
pub struct PythonDistributionRecord {
    /// The target triple that the distribution runs on.
    pub target_triple: String,
    pub flavor: DistributionFlavor,
    pub location: PythonDistributionLocation,
}

/// The distributions that are known, in the order in which they are tried.
#[derive(Debug, PartialEq, Eq)]
pub struct DistributionRegistry {
    pub records: Vec<PythonDistributionRecord>,
}

/// The record is for this flavor and target.
pub open spec fn serves(
    record: PythonDistributionRecord,
    flavor: DistributionFlavor,
    target_triple: Seq<char>,
) -> bool {
    record.flavor == flavor && record.target_triple@ == target_triple
}

/// `at` is the first record for this flavor and target.
pub open spec fn first_serving(
    records: Seq<PythonDistributionRecord>,
    flavor: DistributionFlavor,
    target_triple: Seq<char>,
    at: int,
) -> bool {
    &&& 0 <= at < records.len()
    &&& serves(records[at], flavor, target_triple)
    &&& forall|j: int| 0 <= j < at ==> !serves(#[trigger] records[j], flavor, target_triple)
}

/// No record is for this flavor and target.
pub open spec fn none_serving(
    records: Seq<PythonDistributionRecord>,
    flavor: DistributionFlavor,
    target_triple: Seq<char>,
) -> bool {
    forall|j: int| 0 <= j < records.len() ==> !serves(#[trigger] records[j], flavor, target_triple)
}

/// The first record for this flavor and target, if there is one.
pub open spec fn spec_find_distribution(
    records: Seq<PythonDistributionRecord>,
    flavor: DistributionFlavor,
    target_triple: Seq<char>,
) -> Option<PythonDistributionRecord> {
    if none_serving(records, flavor, target_triple) {
        None
    } else {
        Some(records[choose|at: int| first_serving(records, flavor, target_triple, at)])
    }
}

/// A record that comes first for a flavor and target is the one that is
/// found for them.
pub proof fn lemma_first_serving_is_found(
    records: Seq<PythonDistributionRecord>,
    flavor: DistributionFlavor,
    target_triple: Seq<char>,
    at: int,
)
    requires
        first_serving(records, flavor, target_triple, at),
    ensures
        spec_find_distribution(records, flavor, target_triple) == Some(records[at]),
{
    let chosen = choose|at: int| first_serving(records, flavor, target_triple, at);
    assert(first_serving(records, flavor, target_triple, chosen));
    assert(chosen == at);
}

impl DistributionRegistry {
    /// The first record for the given target and flavor, if there is one.
    pub fn find_distribution(&self, target_triple: &str, flavor: DistributionFlavor) -> (r: Option<
        &PythonDistributionRecord,
    >)
        ensures
            r is None <==> spec_find_distribution(self.records@, flavor, target_triple@) is None,
            r is Some ==> spec_find_distribution(self.records@, flavor, target_triple@) == Some(
                *r->Some_0,
            ),
    {
        let mut i: usize = 0;
        while i < self.records.len()
            invariant
                i <= self.records.len(),
                forall|j: int|
                    0 <= j < i ==> !serves(#[trigger] self.records@[j], flavor, target_triple@),
            decreases self.records.len() - i,
        {
            let record = &self.records[i];
            if record.flavor == flavor && same_text(record.target_triple.as_str(), target_triple) {
                proof {
                    lemma_first_serving_is_found(self.records@, flavor, target_triple@, i as int);
                }
                return Some(record);
            }
            i += 1;
        }
        None
    }
}

} // verus!
