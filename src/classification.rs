use vstd::prelude::*;
use crate::model::Model;

verus! {

/// What one classification step yields: the shape of the loss (a single
/// value), the shape `[batch, classes]` of the logits, and the targets.
#[derive(Clone, Debug)]
pub struct ClassificationOutput {
    pub loss: [usize; 1],
    pub logits: [usize; 2],
    pub targets: Vec<i64>,
}

impl Model {
    /// One target per image, each a class index of this network.
    pub open spec fn valid_targets(self, batch: usize, targets: Seq<i64>) -> bool {
        &&& targets.len() == batch
        &&& forall|i: int| 0 <= i < targets.len() ==> 0 <= #[trigger] targets[i] < self.num_classes()
    }

    /// Whether `targets` holds one class index of this network per image.
    pub fn accepts_targets(&self, batch: usize, targets: &Vec<i64>) -> (r: bool)
        ensures
            r == self.valid_targets(batch, targets@),
    {
        if targets.len() != batch {
            return false;
        }
        let mut i: usize = 0;
        while i < targets.len()
            invariant
                i <= targets@.len(),
                forall|k: int| 0 <= k < i ==> 0 <= #[trigger] targets@[k] < self.num_classes(),
            decreases targets@.len() - i,
        {
            let t = targets[i];
            if t < 0 || t as u64 >= self.linear2.d_output as u64 {
                return false;
            }
            i += 1;
        }
        true
    }

    /// The forward pass followed by a cross-entropy loss against `targets`:
    /// a single loss value, logits of shape `[batch, classes]`, and the
    /// targets handed back unchanged.
    pub fn forward_classification(&self, images: [usize; 3], targets: Vec<i64>) -> (r: ClassificationOutput)
        requires
            self.wf(),
            self.accepts(images[1] as int, images[2] as int),
            self.valid_targets(images[0], targets@),
        ensures
            r.loss@ == seq![1usize],
            r.logits@ == self.output_shape(images[0]),
            r.targets@ == targets@,
    {
        let logits = self.forward(images);
        let r = ClassificationOutput { loss: [1], logits, targets };
        assert(r.loss@ =~= seq![1usize]);
        r
    }
}

} // verus!
