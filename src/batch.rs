use vstd::prelude::*;

verus! {

/// One raw dataset item: a grayscale image of `height` x `width` pixels,
/// stored row by row, and its class label.
#[derive(Clone, Debug)]
pub struct MnistItem {
    pub height: usize,
    pub width: usize,
    pub pixels: Vec<u8>,
    pub label: u8,
}

/// Groups items of one image size into batches.
#[derive(Clone, Copy, Debug)]
pub struct MnistBatcher {
    pub height: usize,
    pub width: usize,
}

/// A batch: `dims` is `[items, height, width]`, `pixels` the items' images one
/// after another, `targets` their labels in the same order.
#[derive(Clone, Debug)]
pub struct MnistBatch {
    pub dims: [usize; 3],
    pub pixels: Vec<u8>,
    pub targets: Vec<i64>,
}

/// Why a batch could not be formed.
#[derive(Clone, Copy, Debug, PartialEq, Eq, Structural)]
pub enum BatchError {
    /// The item at `index` is not an image of the batcher's size.
    ImageShape { index: usize },
}

/// The pixels of all items, one image after another.
pub open spec fn pixels_of(items: Seq<MnistItem>) -> Seq<u8>
    decreases items.len(),
{
    if items.len() == 0 {
        seq![]
    } else {
        pixels_of(items.drop_last()) + items.last().pixels@
    }
}

/// The items' labels as class indices.
pub open spec fn targets_of(items: Seq<MnistItem>) -> Seq<i64> {
    items.map_values(|it: MnistItem| it.label as i64)
}

impl MnistBatcher {
    pub fn new(height: usize, width: usize) -> (r: MnistBatcher)
        ensures
            r.height == height,
            r.width == width,
    {
        MnistBatcher { height, width }
    }

    /// An item is an image of this batcher's size.
    pub open spec fn fits(self, item: MnistItem) -> bool {
        &&& item.height == self.height
        &&& item.width == self.width
        &&& item.pixels@.len() == self.height * self.width
    }

    /// Every item before `n` fits.
    pub open spec fn all_fit(self, items: Seq<MnistItem>, n: int) -> bool {
        forall|i: int| 0 <= i < n ==> self.fits(#[trigger] items[i])
    }

    /// Stacks the items into one batch, keeping their order; fails at the
    /// first item whose image is not of the batcher's size.
    pub fn batch(&self, items: &Vec<MnistItem>) -> (r: Result<MnistBatch, BatchError>)
        requires
            items@.len() * self.height * self.width <= usize::MAX,
        ensures
            match r {
                Ok(b) => {
                    &&& self.all_fit(items@, items@.len() as int)
                    &&& b.dims@ == seq![items@.len() as usize, self.height, self.width]
                    &&& b.pixels@ == pixels_of(items@)
                    &&& b.targets@ == targets_of(items@)
                },
                Err(BatchError::ImageShape { index }) => {
                    &&& index < items@.len()
                    &&& self.all_fit(items@, index as int)
                    &&& !self.fits(items@[index as int])
                },
            },
    {
        let mut pixels: Vec<u8> = Vec::new();
        let mut targets: Vec<i64> = Vec::new();
        let n = items.len();
        let mut i: usize = 0;
        while i < n
            invariant
                n == items@.len(),
                i <= n,
                n * self.height * self.width <= usize::MAX,
                self.all_fit(items@, i as int),
                pixels@ == pixels_of(items@.subrange(0, i as int)),
                pixels@.len() == i * (self.height * self.width),
                targets@ == targets_of(items@.subrange(0, i as int)),
            decreases n - i,
        {
            let item = &items[i];
            proof {
                assert(n * self.height * self.width == n * (self.height * self.width)) by (nonlinear_arith);
                assert((i + 1) * (self.height * self.width) <= n * (self.height * self.width)) by (nonlinear_arith)
                    requires
                        i + 1 <= n,
                ;
                assert((i + 1) * (self.height * self.width) == i * (self.height * self.width) + self.height * self.width) by (nonlinear_arith);
            }
            if item.height != self.height || item.width != self.width
                || item.pixels.len() != self.height * self.width {
                return Err(BatchError::ImageShape { index: i });
            }
            let ghost before = pixels@;
            let mut j: usize = 0;
            while j < item.pixels.len()
                invariant
                    i < items@.len(),
                    item == items@[i as int],
                    j <= item.pixels@.len(),
                    before.len() + item.pixels@.len() <= usize::MAX,
                    pixels@ == before + item.pixels@.subrange(0, j as int),
                decreases item.pixels@.len() - j,
            {
                pixels.push(item.pixels[j]);
                j += 1;
                assert(pixels@ =~= before + item.pixels@.subrange(0, j as int));
            }
            targets.push(item.label as i64);
            proof {
                let prefix = items@.subrange(0, i + 1);
                assert(prefix.drop_last() =~= items@.subrange(0, i as int));
                assert(item.pixels@.subrange(0, item.pixels@.len() as int) =~= item.pixels@);
                assert(targets@ =~= targets_of(prefix));
            }
            i += 1;
        }
        proof {
            assert(items@.subrange(0, n as int) =~= items@);
        }
        Ok(MnistBatch { dims: [n, self.height, self.width], pixels, targets })
    }
}

} // verus!
