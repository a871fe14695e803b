use clusteraudiencekit::plugins::{
    AlgorithmType, MeanBasedClassifier, PluginConfig, PluginMetadata, PluginParameter,
    StdDevCalculator,
};

#[test]
fn test_plugin_metadata() {
    let meta = PluginMetadata::new(
        "test_plugin".to_string(),
        "1.0.0".to_string(),
        AlgorithmType::Clustering,
    )
    .with_author("Test Author".to_string())
    .with_description("Test Description".to_string());

    assert_eq!(meta.name, "test_plugin");
    assert_eq!(meta.version, "1.0.0");
    assert_eq!(meta.author, "Test Author");
}

#[test]
fn test_plugin_parameter() {
    let param = PluginParameter::new(
        "threshold".to_string(),
        "float".to_string(),
        "0.5".to_string(),
    )
    .required(true);

    assert_eq!(param.name, "threshold");
    assert!(param.required);
}

#[test]
fn test_plugin_config() {
    let config = PluginConfig::new()
        .set_parameter("threshold".to_string(), "0.75".to_string())
        .set_parameter("max_iter".to_string(), "100".to_string());

    assert_eq!(config.get_parameter("threshold"), Some("0.75".to_string()));
    assert_eq!(config.get_parameter("max_iter"), Some("100".to_string()));
}

#[test]
fn test_algorithm_type_string() {
    assert_eq!(AlgorithmType::Clustering.as_str(), "clustering");
    assert_eq!(AlgorithmType::Custom.as_str(), "custom");
}

#[test]
fn algorithm_type_names() {
    assert_eq!(AlgorithmType::Classification.as_str(), "classification");
    assert_eq!(AlgorithmType::Regression.as_str(), "regression");
    assert_eq!(AlgorithmType::RFM.as_str(), "rfm");
}

#[test]
fn metadata_defaults_and_builders() {
    let meta = PluginMetadata::new("p".to_string(), "2.0".to_string(), AlgorithmType::RFM);
    assert_eq!(meta.author, "Custom");
    assert_eq!(meta.description, "");
    assert_eq!(meta.min_samples, 10);
    assert_eq!(meta.max_samples, 10_000_000);
    assert!(meta.supported_features.is_empty());
    let meta = meta
        .with_samples(3, 30)
        .with_features(vec!["numeric".to_string(), "categorical".to_string()]);
    assert_eq!(meta.min_samples, 3);
    assert_eq!(meta.max_samples, 30);
    assert_eq!(meta.supported_features.len(), 2);
    assert_eq!(meta.algorithm_type, AlgorithmType::RFM);
}

#[test]
fn parameter_defaults_and_description() {
    let p = PluginParameter::new("k".to_string(), "int".to_string(), "3".to_string());
    assert!(!p.required);
    assert_eq!(p.description, "");
    let p = p.with_description("cluster count".to_string());
    assert_eq!(p.description, "cluster count");
    assert_eq!(p.default_value, "3");
    assert_eq!(p.param_type, "int");
}

#[test]
fn config_overwrites_and_misses() {
    let config = PluginConfig::default()
        .set_parameter("a".to_string(), "1".to_string())
        .set_parameter("a".to_string(), "2".to_string());
    assert_eq!(config.get_parameter("a"), Some("2".to_string()));
    assert_eq!(config.get_parameter("b"), None);
    assert_eq!(config.parameters.len(), 1);
}

#[test]
fn builtin_plugin_descriptions() {
    let m = MeanBasedClassifier.metadata();
    assert_eq!(m.name, "mean_classifier");
    assert_eq!(m.algorithm_type, AlgorithmType::Classification);
    assert_eq!(m.min_samples, 10);
    let params = MeanBasedClassifier.parameters();
    assert_eq!(params.len(), 1);
    assert_eq!(params[0].name, "threshold");
    assert_eq!(params[0].default_value, "0.5");
    assert!(!params[0].required);

    let s = StdDevCalculator.metadata();
    assert_eq!(s.name, "stddev_calculator");
    assert_eq!(s.algorithm_type, AlgorithmType::RFM);
    assert_eq!(s.min_samples, 5);
    assert!(StdDevCalculator.parameters().is_empty());
}
