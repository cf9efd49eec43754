//! Inference pipeline of the remini classification service: image and text
//! normalisation into fixed-layout tensors, and interpretation of model output.

pub mod dataset;
pub mod error;
pub mod image;
pub mod jigsaw;
pub mod predict;
pub mod tensor;
pub mod text;
pub mod youtube;
