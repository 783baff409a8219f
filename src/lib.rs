//! A small convolutional digit classifier: its configuration, the shape-level
//! data flow of its forward pass, the batching of raw images, and the phases
//! of a training run.
pub mod config;
pub mod model;
pub mod batch;
pub mod classification;
pub mod driver;
pub mod training;
