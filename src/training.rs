use vstd::prelude::*;
use vstd::string::*;
use crate::config::{ModelConfig, Ratio};

verus! {

/// burn's Adam optimizer settings, carried through unchanged.
#[verifier::external_type_specification]
#[verifier::external_body]
pub struct ExAdamConfig(burn::optim::AdamConfig);

/// Everything a training run is set up from.
pub struct TrainingConfig {
    pub model: ModelConfig,
    pub optimizer: burn::optim::AdamConfig,
    pub num_epochs: usize,
    pub batch_size: usize,
    pub num_workers: usize,
    pub seed: u64,
    pub learning_rate: Ratio,
}

/// The learning rate that a new configuration starts with: 1e-4.
pub open spec fn default_learning_rate() -> Ratio {
    Ratio { num: 1, den: 10000 }
}

impl TrainingConfig {
    /// A configuration a run can start from: a valid network, batches of at
    /// least one item, and a well-formed learning rate.
    pub open spec fn valid(&self) -> bool {
        &&& self.model.valid()
        &&& self.batch_size >= 1
        &&& self.learning_rate.wf()
    }

    /// A configuration with 10 epochs, batches of 64, 4 workers, seed 42 and
    /// learning rate 1e-4.
    pub fn new(model: ModelConfig, optimizer: burn::optim::AdamConfig) -> (r: TrainingConfig)
        ensures
            r.model == model,
            r.optimizer == optimizer,
            r.num_epochs == 10,
            r.batch_size == 64,
            r.num_workers == 4,
            r.seed == 42,
            r.learning_rate == default_learning_rate(),
    {
        TrainingConfig {
            model,
            optimizer,
            num_epochs: 10,
            batch_size: 64,
            num_workers: 4,
            seed: 42,
            learning_rate: Ratio { num: 1, den: 10000 },
        }
    }

    pub fn is_valid(&self) -> (r: bool)
        ensures
            r == self.valid(),
    {
        self.model.is_valid() && self.batch_size >= 1 && self.learning_rate.den > 0
    }

    pub fn with_num_epochs(self, num_epochs: usize) -> (r: TrainingConfig)
        ensures
            r == (TrainingConfig { num_epochs, ..self }),
    {
        TrainingConfig { num_epochs, ..self }
    }

    pub fn with_batch_size(self, batch_size: usize) -> (r: TrainingConfig)
        ensures
            r == (TrainingConfig { batch_size, ..self }),
    {
        TrainingConfig { batch_size, ..self }
    }

    pub fn with_num_workers(self, num_workers: usize) -> (r: TrainingConfig)
        ensures
            r == (TrainingConfig { num_workers, ..self }),
    {
        TrainingConfig { num_workers, ..self }
    }

    pub fn with_seed(self, seed: u64) -> (r: TrainingConfig)
        ensures
            r == (TrainingConfig { seed, ..self }),
    {
        TrainingConfig { seed, ..self }
    }

    pub fn with_learning_rate(self, learning_rate: Ratio) -> (r: TrainingConfig)
        ensures
            r == (TrainingConfig { learning_rate, ..self }),
    {
        TrainingConfig { learning_rate, ..self }
    }
}

/// Where a run saves its configuration: `config.json` inside the artifact directory.
pub fn config_path(artifact_dir: &str) -> (r: String)
    ensures
        r@ == artifact_dir@ + "/config.json"@,
{
    let mut r = artifact_dir.to_owned();
    r.append("/config.json");
    r
}

} // verus!
