use clusteraudiencekit::algorithms::{DistanceMetric, HierarchicalClustering, KMeans};
use clusteraudiencekit::cluster_input::{check_cluster_input, ClusterInputError};

#[test]
fn cluster_input_is_accepted_when_every_check_passes() {
    assert_eq!(check_cluster_input(10, None, 3), Ok(()));
    assert_eq!(check_cluster_input(3, Some(3), 3), Ok(()));
}

#[test]
fn cluster_input_reports_the_first_failing_check() {
    assert_eq!(check_cluster_input(0, None, 0), Err(ClusterInputError::NoClusters));
    assert_eq!(check_cluster_input(0, Some(4), 2), Err(ClusterInputError::NoRows));
    assert_eq!(check_cluster_input(2, Some(5), 3), Err(ClusterInputError::TooManyClusters));
    assert_eq!(check_cluster_input(4, Some(5), 2), Err(ClusterInputError::CategoricalRowsMismatch));
}

#[test]
fn clusterers_start_from_their_default_settings() {
    let k = KMeans::new(4);
    assert_eq!(k.n_clusters, 4);
    assert_eq!(k.max_iterations, 300);
    assert_eq!(k.random_state, 42);
    assert_eq!(k.metric, DistanceMetric::Euclidean);

    let h = HierarchicalClustering::new(2);
    assert_eq!(h.n_clusters, 2);
    assert_eq!(h.metric, DistanceMetric::Euclidean);
    assert_eq!(h.linkage, "ward");
}
