//! Lookalike audiences: similarity metric names.

use vstd::prelude::*;

verus! {

/// Similarity metric.
#[derive(Clone, Copy, Debug, PartialEq, Eq, Structural)]
pub enum SimilarityMetric {
    Cosine,
    Euclidean,
    Manhattan,
    Jaccard,
}

/// The name of a similarity metric.
pub open spec fn metric_name(m: SimilarityMetric) -> Seq<char> {
    match m {
        SimilarityMetric::Cosine => "cosine"@,
        SimilarityMetric::Euclidean => "euclidean"@,
        SimilarityMetric::Manhattan => "manhattan"@,
        SimilarityMetric::Jaccard => "jaccard"@,
    }
}

impl SimilarityMetric {
    pub fn as_str(&self) -> (s: &'static str)
        ensures
            s@ == metric_name(*self),
    {
        match self {
            SimilarityMetric::Cosine => "cosine",
            SimilarityMetric::Euclidean => "euclidean",
            SimilarityMetric::Manhattan => "manhattan",
            SimilarityMetric::Jaccard => "jaccard",
        }
    }
}

} // verus!
