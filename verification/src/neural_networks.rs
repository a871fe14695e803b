//! Neural network activation function names.

use vstd::prelude::*;

verus! {

/// Activation function type.
#[derive(Clone, Copy, Debug, PartialEq, Eq, Structural)]
pub enum Activation {
    ReLU,
    Sigmoid,
    Tanh,
    Linear,
}

/// The name of an activation function.
pub open spec fn activation_name(a: Activation) -> Seq<char> {
    match a {
        Activation::ReLU => "relu"@,
        Activation::Sigmoid => "sigmoid"@,
        Activation::Tanh => "tanh"@,
        Activation::Linear => "linear"@,
    }
}

impl Activation {
    pub fn as_str(&self) -> (s: &'static str)
        ensures
            s@ == activation_name(*self),
    {
        match self {
            Activation::ReLU => "relu",
            Activation::Sigmoid => "sigmoid",
            Activation::Tanh => "tanh",
            Activation::Linear => "linear",
        }
    }
}

} // verus!
