//! Plugin descriptions: algorithm types, plugin metadata, parameters and
//! configuration, and the descriptions of the two built-in plugins.

use vstd::prelude::*;

use crate::string_map::StringMap;

verus! {

/// Algorithm type.
#[derive(Clone, Copy, Debug, PartialEq, Eq, Structural)]
pub enum AlgorithmType {
    Clustering,
    Classification,
    Regression,
    RFM,
    Custom,
}

/// The name of an algorithm type.
pub open spec fn algorithm_type_name(t: AlgorithmType) -> Seq<char> {
    match t {
        AlgorithmType::Clustering => "clustering"@,
        AlgorithmType::Classification => "classification"@,
        AlgorithmType::Regression => "regression"@,
        AlgorithmType::RFM => "rfm"@,
        AlgorithmType::Custom => "custom"@,
    }
}

impl AlgorithmType {
    pub fn as_str(&self) -> (s: &'static str)
        ensures
            s@ == algorithm_type_name(*self),
    {
        match self {
            AlgorithmType::Clustering => "clustering",
            AlgorithmType::Classification => "classification",
            AlgorithmType::Regression => "regression",
            AlgorithmType::RFM => "rfm",
            AlgorithmType::Custom => "custom",
        }
    }
}

/// Plugin metadata.
#[derive(Clone, Debug)]
pub struct PluginMetadata {
    pub name: String,
    pub version: String,
    pub author: String,
    pub description: String,
    pub algorithm_type: AlgorithmType,
    pub min_samples: usize,
    pub max_samples: usize,
    pub supported_features: Vec<String>,
}

impl PluginMetadata {
    /// Metadata with author `Custom`, no description, between 10 and
    /// 10,000,000 samples and no listed features.
    pub fn new(name: String, version: String, algorithm_type: AlgorithmType) -> (m: Self)
        ensures
            m.name == name,
            m.version == version,
            m.author@ == "Custom"@,
            m.description@ == Seq::<char>::empty(),
            m.algorithm_type == algorithm_type,
            m.min_samples == 10,
            m.max_samples == 10_000_000,
            m.supported_features@.len() == 0,
    {
        PluginMetadata {
            name,
            version,
            author: String::from_str("Custom"),
            description: String::new(),
            algorithm_type,
            min_samples: 10,
            max_samples: 10_000_000,
            supported_features: Vec::new(),
        }
    }

    pub fn with_author(self, author: String) -> (m: Self)
        ensures
            m == (PluginMetadata { author, ..self }),
    {
        let mut m = self;
        m.author = author;
        m
    }

    pub fn with_description(self, description: String) -> (m: Self)
        ensures
            m == (PluginMetadata { description, ..self }),
    {
        let mut m = self;
        m.description = description;
        m
    }

    pub fn with_samples(self, min: usize, max: usize) -> (m: Self)
        ensures
            m == (PluginMetadata { min_samples: min, max_samples: max, ..self }),
    {
        let mut m = self;
        m.min_samples = min;
        m.max_samples = max;
        m
    }

    pub fn with_features(self, features: Vec<String>) -> (m: Self)
        ensures
            m == (PluginMetadata { supported_features: features, ..self }),
    {
        let mut m = self;
        m.supported_features = features;
        m
    }
}

/// A declared plugin parameter.
#[derive(Clone, Debug)]
pub struct PluginParameter {
    pub name: String,
    pub param_type: String,
    pub default_value: String,
    pub required: bool,
    pub description: String,
}

impl PluginParameter {
    /// An optional parameter without description.
    pub fn new(name: String, param_type: String, default_value: String) -> (p: Self)
        ensures
            p.name == name,
            p.param_type == param_type,
            p.default_value == default_value,
            !p.required,
            p.description@ == Seq::<char>::empty(),
    {
        PluginParameter { name, param_type, default_value, required: false, description: String::new() }
    }

    pub fn required(self, required: bool) -> (p: Self)
        ensures
            p == (PluginParameter { required, ..self }),
    {
        let mut p = self;
        p.required = required;
        p
    }

    pub fn with_description(self, description: String) -> (p: Self)
        ensures
            p == (PluginParameter { description, ..self }),
    {
        let mut p = self;
        p.description = description;
        p
    }
}

/// Plugin configuration: named string parameters.
pub struct PluginConfig {
    pub parameters: StringMap,
}

impl PluginConfig {
    /// A configuration without parameters.
    pub fn new() -> (c: Self)
        ensures
            c.parameters@ == Map::<Seq<char>, Seq<char>>::empty(),
    {
        PluginConfig { parameters: StringMap::new() }
    }

    /// The configuration with parameter `key` set to `value`.
    pub fn set_parameter(self, key: String, value: String) -> (c: Self)
        ensures
            c.parameters@ == self.parameters@.insert(key@, value@),
    {
        let mut c = self;
        c.parameters.insert(key, value);
        c
    }

    /// The value of parameter `key`.
    pub fn get_parameter(&self, key: &str) -> (r: Option<String>)
        ensures
            match r {
                Some(v) => self.parameters@.dom().contains(key@) && self.parameters@[key@] == v@,
                None => !self.parameters@.dom().contains(key@),
            },
    {
        self.parameters.get(key)
    }
}

impl Default for PluginConfig {
    fn default() -> (c: Self)
        ensures
            c.parameters@ == Map::<Seq<char>, Seq<char>>::empty(),
    {
        PluginConfig::new()
    }
}

/// Built-in plugin: classifies rows by their mean against a threshold.
pub struct MeanBasedClassifier;

impl MeanBasedClassifier {
    /// The plugin's description.
    pub fn metadata(&self) -> (m: PluginMetadata)
        ensures
            m.name@ == "mean_classifier"@,
            m.version@ == "1.0.0"@,
            m.author@ == "ClusterAudienceKit"@,
            m.description@ == "Simple mean-based classification"@,
            m.algorithm_type == AlgorithmType::Classification,
            m.min_samples == 10,
            m.max_samples == 1_000_000,
            m.supported_features@.len() == 1,
            m.supported_features@[0]@ == "numeric"@,
    {
        let mut features: Vec<String> = Vec::new();
        features.push(String::from_str("numeric"));
        PluginMetadata {
            name: String::from_str("mean_classifier"),
            version: String::from_str("1.0.0"),
            author: String::from_str("ClusterAudienceKit"),
            description: String::from_str("Simple mean-based classification"),
            algorithm_type: AlgorithmType::Classification,
            min_samples: 10,
            max_samples: 1_000_000,
            supported_features: features,
        }
    }

    /// The plugin's parameters: an optional `threshold` (float, default 0.5).
    pub fn parameters(&self) -> (v: Vec<PluginParameter>)
        ensures
            v@.len() == 1,
            v@[0].name@ == "threshold"@,
            v@[0].param_type@ == "float"@,
            v@[0].default_value@ == "0.5"@,
            !v@[0].required,
            v@[0].description@ == "Classification threshold"@,
    {
        let p = PluginParameter::new(
            String::from_str("threshold"),
            String::from_str("float"),
            String::from_str("0.5"),
        ).with_description(String::from_str("Classification threshold"));
        let mut v: Vec<PluginParameter> = Vec::new();
        v.push(p);
        v
    }
}

/// Built-in plugin: per-column standard deviation.
pub struct StdDevCalculator;

impl StdDevCalculator {
    /// The plugin's description.
    pub fn metadata(&self) -> (m: PluginMetadata)
        ensures
            m.name@ == "stddev_calculator"@,
            m.version@ == "1.0.0"@,
            m.author@ == "ClusterAudienceKit"@,
            m.description@ == "Calculate standard deviation"@,
            m.algorithm_type == AlgorithmType::RFM,
            m.min_samples == 5,
            m.max_samples == 1_000_000,
            m.supported_features@.len() == 1,
            m.supported_features@[0]@ == "numeric"@,
    {
        let mut features: Vec<String> = Vec::new();
        features.push(String::from_str("numeric"));
        PluginMetadata {
            name: String::from_str("stddev_calculator"),
            version: String::from_str("1.0.0"),
            author: String::from_str("ClusterAudienceKit"),
            description: String::from_str("Calculate standard deviation"),
            algorithm_type: AlgorithmType::RFM,
            min_samples: 5,
            max_samples: 1_000_000,
            supported_features: features,
        }
    }

    /// The plugin takes no parameters.
    pub fn parameters(&self) -> (v: Vec<PluginParameter>)
        ensures
            v@.len() == 0,
    {
        Vec::new()
    }
}

} // verus!
