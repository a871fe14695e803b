//! Audience activation, access control and audit logging, k-anonymity,
//! segment governance records, the rules of behavioral, lifecycle and RFM
//! segmentation, and the settings and input checks of the clusterers.

pub mod string_map;
pub mod text;
pub mod error;
pub mod clock;
pub mod activation;
pub mod platform_adapters;
pub mod seqs;
pub mod activation_orchestrator;
pub mod assoc;
pub mod governance;
pub mod plugins;
pub mod privacy;
pub mod lifecycle;
pub mod segments;
pub mod b2b_segmentation;
pub mod dashboard;
pub mod drift_detection;
pub mod churn_prediction;
pub mod neural_networks;
pub mod lookalike;
pub mod behavioral;
pub mod cohorts;
pub mod b2b_governance;
pub mod cluster_input;
pub mod algorithms;
