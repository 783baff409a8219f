use digit_classifier::batch::{BatchError, MnistBatcher, MnistItem};
use digit_classifier::config::{ModelConfig, Ratio};
use digit_classifier::driver::{Action, CleanupPolicy, Event, Phase, TrainingDriver};
use digit_classifier::model::ConvLayer;
use digit_classifier::training::{config_path, TrainingConfig};

fn digits_config() -> ModelConfig {
    ModelConfig::new(10, 512)
}

fn item(height: usize, width: usize, fill: u8, label: u8) -> MnistItem {
    MnistItem { height, width, pixels: vec![fill; height * width], label }
}

#[test]
fn model_config_defaults_to_half_dropout() {
    let c = digits_config();
    assert_eq!(c.num_classes, 10);
    assert_eq!(c.hidden_size, 512);
    assert_eq!(c.dropout, Ratio::new(1, 2));
    assert!(c.is_valid());
}

#[test]
fn model_config_validity() {
    assert!(!ModelConfig::new(0, 512).is_valid());
    assert!(!ModelConfig::new(10, 0).is_valid());
    assert!(!digits_config().with_dropout(Ratio::new(3, 2)).is_valid());
    assert!(digits_config().with_dropout(Ratio::new(1, 1)).is_valid());
    assert!(digits_config().with_dropout(Ratio::new(0, 1)).is_valid());
    assert!(!digits_config().with_dropout(Ratio { num: 0, den: 0 }).is_valid());
}

#[test]
fn init_final_layer_has_num_classes_outputs() {
    for classes in [1usize, 2, 10, 37] {
        let m = ModelConfig::new(classes, 64).init();
        assert_eq!(m.linear2.d_output, classes);
        assert_eq!(m.linear2.d_input, 64);
        assert_eq!(m.linear1.d_input, 1024);
        assert_eq!(m.linear1.d_output, 64);
    }
}

#[test]
fn init_layers() {
    let m = digits_config().with_dropout(Ratio::new(1, 4)).init();
    assert_eq!(m.conv1.channels, [1, 8]);
    assert_eq!(m.conv2.channels, [8, 16]);
    assert_eq!(m.conv1.kernel_size, [3, 3]);
    assert_eq!(m.conv2.kernel_size, [3, 3]);
    assert_eq!(m.pool.output_size, [8, 8]);
    assert_eq!(m.dropout, Ratio::new(1, 4));
}

#[test]
fn init_is_deterministic() {
    let a = digits_config().init();
    let b = digits_config().init();
    assert_eq!(format!("{:?}", a), format!("{:?}", b));
}

#[test]
fn forward_shape_for_several_batch_sizes() {
    let m = digits_config().init();
    for b in [1usize, 7, 64] {
        assert!(m.accepts_images([b, 28, 28]));
        assert_eq!(m.forward([b, 28, 28]), [b, 10]);
    }
}

#[test]
fn forward_shapes_of_each_stage() {
    let m = digits_config().init();
    let s = m.forward_shapes([64, 28, 28]);
    assert_eq!(s.with_channel, [64, 1, 28, 28]);
    assert_eq!(s.conv1, [64, 8, 26, 26]);
    assert_eq!(s.conv2, [64, 16, 24, 24]);
    assert_eq!(s.pooled, [64, 16, 8, 8]);
    assert_eq!(s.flat, [64, 1024]);
    assert_eq!(s.hidden, [64, 512]);
    assert_eq!(s.logits, [64, 10]);
}

#[test]
fn forward_on_smallest_images() {
    let m = digits_config().init();
    assert!(m.accepts_images([3, 5, 5]));
    assert!(m.accepts_images([3, 5, 9]));
    assert!(!m.accepts_images([3, 4, 28]));
    assert!(!m.accepts_images([3, 28, 4]));
    assert!(!m.accepts_images([3, 0, 0]));
    let s = m.forward_shapes([3, 5, 9]);
    assert_eq!(s.conv2, [3, 16, 1, 5]);
    assert_eq!(s.logits, [3, 10]);
}

#[test]
fn conv_output_size_with_stride_and_padding() {
    let c = ConvLayer {
        channels: [1, 4],
        kernel_size: [3, 5],
        stride: [2, 1],
        dilation: [1, 2],
        padding: [1, 0],
    };
    assert!(c.fits_axis(0, 28));
    assert!(c.fits_axis(1, 28));
    assert_eq!(c.output_size(28, 28), [14, 20]);
    assert!(!c.fits_axis(1, 8));
    assert!(c.fits_axis(1, 9));
    assert_eq!(c.output_size(28, 9), [14, 1]);
}

#[test]
fn conv_fits_rejects_zero_kernel_or_stride() {
    let c = ConvLayer {
        channels: [1, 1],
        kernel_size: [0, 3],
        stride: [1, 0],
        dilation: [1, 1],
        padding: [0, 0],
    };
    assert!(!c.fits_axis(0, 10));
    assert!(!c.fits_axis(1, 10));
    let huge = ConvLayer { kernel_size: [3, 3], stride: [1, 1], padding: [usize::MAX / 2, 0], ..c };
    assert!(!huge.fits_axis(0, 2));
}

#[test]
fn batch_keeps_item_order() {
    let batcher = MnistBatcher::new(2, 2);
    let items = vec![item(2, 2, 7, 3), MnistItem { height: 2, width: 2, pixels: vec![1, 2, 3, 4], label: 9 }];
    let b = batcher.batch(&items).unwrap();
    assert_eq!(b.dims, [2, 2, 2]);
    assert_eq!(b.pixels, vec![7, 7, 7, 7, 1, 2, 3, 4]);
    assert_eq!(b.targets, vec![3, 9]);
}

#[test]
fn batch_of_no_items() {
    let b = MnistBatcher::new(28, 28).batch(&vec![]).unwrap();
    assert_eq!(b.dims, [0, 28, 28]);
    assert!(b.pixels.is_empty());
    assert!(b.targets.is_empty());
}

#[test]
fn batch_rejects_inconsistent_image() {
    let batcher = MnistBatcher::new(2, 2);
    let wrong_size = vec![item(2, 2, 0, 1), item(2, 2, 0, 2), item(3, 2, 0, 3), item(1, 1, 0, 4)];
    assert_eq!(batcher.batch(&wrong_size).unwrap_err(), BatchError::ImageShape { index: 2 });
    let short = vec![MnistItem { height: 2, width: 2, pixels: vec![1, 2, 3], label: 0 }];
    assert_eq!(batcher.batch(&short).unwrap_err(), BatchError::ImageShape { index: 0 });
}

#[test]
fn classification_output_shapes() {
    let m = digits_config().init();
    let targets = vec![0i64, 9, 4];
    assert!(m.accepts_targets(3, &targets));
    let out = m.forward_classification([3, 28, 28], targets.clone());
    assert_eq!(out.loss, [1]);
    assert_eq!(out.logits, [3, 10]);
    assert_eq!(out.targets, targets);
}

#[test]
fn classification_rejects_bad_targets() {
    let m = digits_config().init();
    assert!(!m.accepts_targets(3, &vec![0, 1]));
    assert!(!m.accepts_targets(2, &vec![0, 10]));
    assert!(!m.accepts_targets(2, &vec![-1, 0]));
    assert!(m.accepts_targets(0, &vec![]));
}

#[test]
fn driver_runs_each_epoch_in_order() {
    let mut d = TrainingDriver::new(2, CleanupPolicy::Strict);
    assert_eq!(d.action(), Action::PrepareArtifacts);
    let mut actions = vec![d.step(Event::Prepared { cleanup_ok: true })];
    for _ in 0..6 {
        actions.push(d.step(Event::Completed));
    }
    assert_eq!(
        actions,
        vec![
            Action::TrainEpoch { epoch: 0 },
            Action::ValidateEpoch { epoch: 0 },
            Action::SaveCheckpoint { epoch: 0 },
            Action::TrainEpoch { epoch: 1 },
            Action::ValidateEpoch { epoch: 1 },
            Action::SaveCheckpoint { epoch: 1 },
            Action::Finish,
        ]
    );
    assert_eq!(d.phase, Phase::Finished);
    assert_eq!(d.step(Event::Completed), Action::Finish);
}

#[test]
fn driver_with_zero_epochs_trains_nothing() {
    let mut d = TrainingDriver::new(0, CleanupPolicy::Lenient);
    assert_eq!(d.step(Event::Prepared { cleanup_ok: true }), Action::Finish);
    assert_eq!(d.step(Event::Completed), Action::Finish);
    let mut d = TrainingDriver::new(0, CleanupPolicy::Lenient);
    assert_eq!(d.step(Event::Prepared { cleanup_ok: false }), Action::Finish);
}

#[test]
fn driver_strict_cleanup_failure_aborts() {
    let mut d = TrainingDriver::new(3, CleanupPolicy::Strict);
    assert_eq!(d.step(Event::Prepared { cleanup_ok: false }), Action::Abort);
    assert_eq!(d.phase, Phase::Failed);
    assert_eq!(d.step(Event::Completed), Action::Abort);
}

#[test]
fn driver_lenient_cleanup_failure_goes_on() {
    let mut d = TrainingDriver::new(3, CleanupPolicy::Lenient);
    assert_eq!(d.step(Event::Prepared { cleanup_ok: false }), Action::TrainEpoch { epoch: 0 });
}

#[test]
fn driver_unexpected_event_fails_run() {
    let mut d = TrainingDriver::new(3, CleanupPolicy::Lenient);
    assert_eq!(d.step(Event::Completed), Action::Abort);
    let mut d = TrainingDriver::new(3, CleanupPolicy::Lenient);
    d.step(Event::Prepared { cleanup_ok: true });
    assert_eq!(d.step(Event::Prepared { cleanup_ok: true }), Action::Abort);
}

#[test]
fn config_path_is_inside_artifact_dir() {
    assert_eq!(config_path("/tmp/guide"), "/tmp/guide/config.json");
    assert_eq!(config_path(""), "/config.json");
}

#[test]
fn training_config_defaults() {
    let c = TrainingConfig::new(digits_config(), burn::optim::AdamConfig::new());
    assert_eq!(c.num_epochs, 10);
    assert_eq!(c.batch_size, 64);
    assert_eq!(c.num_workers, 4);
    assert_eq!(c.seed, 42);
    assert_eq!(c.learning_rate, Ratio::new(1, 10000));
    assert!(c.is_valid());
    assert!(!c.with_batch_size(0).is_valid());
}

#[test]
fn end_to_end_configuration_for_one_epoch() {
    let c = TrainingConfig::new(
        ModelConfig::new(10, 512).with_dropout(Ratio::new(1, 2)),
        burn::optim::AdamConfig::new(),
    )
    .with_num_epochs(1)
    .with_batch_size(64)
    .with_seed(42)
    .with_learning_rate(Ratio::new(1, 10000));
    assert!(c.is_valid());
    let m = c.model.init();
    assert_eq!(m.forward([64, 28, 28]), [64, 10]);
    let last = MnistBatcher::new(28, 28).batch(&(0..36).map(|i| item(28, 28, 0, (i % 10) as u8)).collect()).unwrap();
    assert_eq!(last.dims, [36, 28, 28]);
    assert_eq!(m.forward(last.dims), [36, 10]);
    let mut d = TrainingDriver::new(c.num_epochs, CleanupPolicy::Strict);
    assert_eq!(d.step(Event::Prepared { cleanup_ok: true }), Action::TrainEpoch { epoch: 0 });
    assert_eq!(d.step(Event::Completed), Action::ValidateEpoch { epoch: 0 });
    assert_eq!(d.step(Event::Completed), Action::SaveCheckpoint { epoch: 0 });
    assert_eq!(d.step(Event::Completed), Action::Finish);
}
