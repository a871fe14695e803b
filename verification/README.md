# clusteraudiencekit

Customer-audience tooling: activation of segments on marketing platforms,
role-based access control and audit logging, k-anonymity by suppression,
segment governance records, behavioral segmentation rules and their SQL,
lifecycle and RFM segment rules, and the settings and input checks of the
clustering algorithms.

## Layout

- `src/` is the library, written and proved with Verus. Every public
  function states its result in its contract; the properties that span
  several operations are public proof functions named `law_*`.
- `tests/` runs the library on concrete values.
- `app/` holds what the verified library cannot: floating-point scoring and
  clustering, plugin execution, and the serializable copies of the
  governance records with their scores. It calls the library for every rule
  that does not depend on floating-point values.

## Not included

These parts are floating-point computations throughout. They have no place
in the verified library, and `app/` is kept within its size limit, so they
are not part of this crate:

- churn prediction (`ChurnPredictor`), lifetime value and revenue
  forecasting (`CLVCalculator`, `RevenueForecaster`), revenue intelligence
  other than `TrendAnalyzer`, price intelligence;
- segment profiling, segment intelligence;
- RFM scoring (`calculate_rfm`, `normalize_rfm`), cohort analytics,
  dashboard metrics, neural networks.

Within `app/`, the cluster quality metrics are in `quality_metrics.rs`,
revenue trends in `revenue_trend.rs`, `B2BSegmentation`'s scoring functions are in `AccountScoring`
(`b2b_accounts.rs`), and the committee, intent, health, contract and impact
computations in `governance_records.rs`.
