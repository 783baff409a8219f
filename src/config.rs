use vstd::prelude::*;

verus! {

/// A non-negative rational number `num / den`, used for the hyperparameters
/// that are fractions (dropout probability, learning rate).
#[derive(Clone, Copy, Debug, PartialEq, Eq, Structural)]
pub struct Ratio {
    pub num: u64,
    pub den: u64,
}

impl Ratio {
    /// A ratio is well formed when its denominator is not zero.
    pub open spec fn wf(self) -> bool {
        self.den > 0
    }

    /// A well-formed ratio that lies in the closed interval [0, 1].
    pub open spec fn is_probability_spec(self) -> bool {
        self.wf() && self.num <= self.den
    }

    pub fn new(num: u64, den: u64) -> (r: Ratio)
        requires
            den > 0,
        ensures
            r.num == num,
            r.den == den,
            r.wf(),
    {
        Ratio { num, den }
    }

    pub fn is_probability(&self) -> (r: bool)
        ensures
            r == self.is_probability_spec(),
    {
        self.den > 0 && self.num <= self.den
    }
}

/// Hyperparameters of the network: the number of classes, the width of the
/// hidden fully-connected layer and the dropout probability.
#[derive(Clone, Copy, Debug, PartialEq, Eq, Structural)]
pub struct ModelConfig {
    pub num_classes: usize,
    pub hidden_size: usize,
    pub dropout: Ratio,
}

/// The dropout probability that a new configuration starts with: one half.
pub open spec fn default_dropout() -> Ratio {
    Ratio { num: 1, den: 2 }
}

impl ModelConfig {
    /// A configuration from which a network can be built: at least one class,
    /// a hidden layer that is not empty, and a dropout probability in [0, 1].
    pub open spec fn valid(self) -> bool {
        &&& self.num_classes > 0
        &&& self.hidden_size > 0
        &&& self.dropout.is_probability_spec()
    }

    pub fn new(num_classes: usize, hidden_size: usize) -> (r: ModelConfig)
        ensures
            r.num_classes == num_classes,
            r.hidden_size == hidden_size,
            r.dropout == default_dropout(),
    {
        ModelConfig { num_classes, hidden_size, dropout: Ratio { num: 1, den: 2 } }
    }

    pub fn with_dropout(self, dropout: Ratio) -> (r: ModelConfig)
        ensures
            r == (ModelConfig { dropout, ..self }),
    {
        ModelConfig { dropout, ..self }
    }

    pub fn is_valid(&self) -> (r: bool)
        ensures
            r == self.valid(),
    {
        self.num_classes > 0 && self.hidden_size > 0 && self.dropout.is_probability()
    }
}

} // verus!
