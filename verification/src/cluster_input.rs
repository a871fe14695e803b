//! The checks that come before clustering: how many clusters are asked for,
//! how many rows there are, and whether the categorical rows match the
//! numeric ones.

use vstd::prelude::*;

verus! {

/// Why clustering input was refused.
#[derive(Clone, Copy, Debug, PartialEq, Eq, Structural)]
pub enum ClusterInputError {
    /// No clusters were asked for.
    NoClusters,
    /// The data has no rows.
    NoRows,
    /// More clusters were asked for than there are rows.
    TooManyClusters,
    /// The categorical data has another number of rows than the numeric data.
    CategoricalRowsMismatch,
}

/// The first check that input of `n_rows` numeric rows, optionally
/// `categorical_rows` categorical rows, and `n_clusters` clusters fails, if
/// any; the checks are made in the order of the variants.
pub open spec fn cluster_input_error(n_rows: usize, categorical_rows: Option<usize>, n_clusters: usize) -> Option<
    ClusterInputError,
> {
    if n_clusters == 0 {
        Some(ClusterInputError::NoClusters)
    } else if n_rows == 0 {
        Some(ClusterInputError::NoRows)
    } else if n_clusters > n_rows {
        Some(ClusterInputError::TooManyClusters)
    } else {
        match categorical_rows {
            Some(c) => if c != n_rows {
                Some(ClusterInputError::CategoricalRowsMismatch)
            } else {
                None
            },
            None => None,
        }
    }
}

/// Checks clustering input: `Ok` exactly when every check passes, else the
/// first failing check.
pub fn check_cluster_input(n_rows: usize, categorical_rows: Option<usize>, n_clusters: usize) -> (r: Result<
    (),
    ClusterInputError,
>)
    ensures
        r == match cluster_input_error(n_rows, categorical_rows, n_clusters) {
            Some(e) => Err(e),
            None => Ok(()),
        },
{
    if n_clusters == 0 {
        return Err(ClusterInputError::NoClusters);
    }
    if n_rows == 0 {
        return Err(ClusterInputError::NoRows);
    }
    if n_clusters > n_rows {
        return Err(ClusterInputError::TooManyClusters);
    }
    if let Some(c) = categorical_rows {
        if c != n_rows {
            return Err(ClusterInputError::CategoricalRowsMismatch);
        }
    }
    Ok(())
}

} // verus!
