//! Clusters: the first level of the hierarchy. A cluster is known by its
//! full identifier alone.

use vstd::prelude::*;
use crate::choice::{
    answering, first_answer, first_where, lemma_first_where_carries_over, lemma_first_where_none,
    Choice, Sought,
};
use crate::errors::{DiscoveryError, ErrorModel};
use crate::names::{contains_text, final_segment, has_part, short_name};

verus! {

impl Choice for String {
    /// A cluster is offered under the final segment of its identifier.
    open spec fn label_text(&self) -> Seq<char> {
        final_segment(self@)
    }

    fn label(&self) -> (label: String) {
        short_name(self.as_str())
    }
}

impl Sought for String {
    /// A cluster answers to every text that stands in its identifier, in
    /// the same case.
    open spec fn answers_to(&self, wanted: Seq<char>) -> bool {
        contains_text(self@, wanted)
    }

    fn answers(&self, wanted: &str) -> (yes: bool) {
        has_part(self.as_str(), wanted)
    }
}

/// Whether a cluster's identifier holds `hint`, as a function.
pub open spec fn holding(hint: Seq<char>) -> spec_fn(Seq<char>) -> bool {
    |cluster: Seq<char>| contains_text(cluster, hint)
}

/// The cluster that `hint` asks for: the first, in the order of the list,
/// whose identifier holds `hint`. That a later cluster holds it too is no
/// error. Where none does, the error names `hint`.
pub fn resolve_cluster(clusters: &Vec<String>, hint: &str) -> (resolved: Result<
    String,
    DiscoveryError,
>)
    ensures
        match first_where(clusters.deep_view(), holding(hint@)) {
            Some(at) => resolved matches Ok(cluster) && cluster@ == clusters.deep_view()[at],
            None => resolved matches Err(error) && error@ == (ErrorModel::ClusterNotFound {
                hint: hint@,
            }),
        },
{
    proof {
        let stand_for = |cluster: String| cluster@;
        lemma_first_where_carries_over(
            clusters@,
            answering::<String>(hint@),
            stand_for,
            holding(hint@),
        );
        assert(clusters@.map_values(stand_for) == clusters.deep_view());
        lemma_first_where_none(clusters.deep_view(), holding(hint@));
    }
    match first_answer(clusters, hint) {
        Some(at) => Ok(clusters[at].clone()),
        None => Err(DiscoveryError::ClusterNotFound { hint: hint.to_owned() }),
    }
}

/// The cluster that the operator chose: the one whose label stood at
/// `selection`.
pub fn chosen_cluster(clusters: &Vec<String>, selection: usize) -> (cluster: String)
    requires
        selection < clusters@.len(),
    ensures
        cluster@ == clusters@[selection as int]@,
{
    clusters[selection].clone()
}

} // verus!
