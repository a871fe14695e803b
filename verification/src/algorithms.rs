//! Settings of the clustering algorithms: the distance metrics and the
//! configuration of the k-means and hierarchical clusterers.

use vstd::prelude::*;

verus! {

/// Distance metric types
#[derive(Clone, Copy, Debug, PartialEq, Eq, Structural)]
pub enum DistanceMetric {
    Euclidean,
    Manhattan,
    Cosine,
}

/// K-Means clustering algorithm
pub struct KMeans {
    pub n_clusters: usize,
    pub max_iterations: usize,
    pub random_state: u64,
    pub metric: DistanceMetric,
}

impl KMeans {
    /// A k-means clusterer for `n_clusters` clusters: at most 300 iterations,
    /// seed 42, Euclidean distance.
    pub fn new(n_clusters: usize) -> (k: Self)
        ensures
            k.n_clusters == n_clusters,
            k.max_iterations == 300,
            k.random_state == 42,
            k.metric == DistanceMetric::Euclidean,
    {
        KMeans { n_clusters, max_iterations: 300, random_state: 42, metric: DistanceMetric::Euclidean }
    }
}

/// Hierarchical clustering result
#[derive(Clone, Debug)]
pub struct HierarchicalResult {
    pub labels: Vec<usize>,
    pub n_clusters: usize,
}

/// Hierarchical clustering algorithm
pub struct HierarchicalClustering {
    pub n_clusters: usize,
    pub metric: DistanceMetric,
    /// "ward", "complete" or "average"
    pub linkage: String,
}

impl HierarchicalClustering {
    /// A hierarchical clusterer for `n_clusters` clusters: Euclidean
    /// distance, ward linkage.
    pub fn new(n_clusters: usize) -> (h: Self)
        ensures
            h.n_clusters == n_clusters,
            h.metric == DistanceMetric::Euclidean,
            h.linkage@ == "ward"@,
    {
        HierarchicalClustering {
            n_clusters,
            metric: DistanceMetric::Euclidean,
            linkage: String::from_str("ward"),
        }
    }
}

} // verus!
