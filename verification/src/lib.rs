//! Decision logic of an OCT image classifier: the label table, the model
//! registry, the ranking of class scores, the response envelope, and the
//! relay that turns a worker's lifecycle into log lines and notifications.
//!
//! Everything here works on plain values. Decoding images, running the
//! graph, spawning the worker and writing files are left to the caller, who
//! hands the outcomes in and carries the decisions out.

pub mod dispatch;
pub mod error;
pub mod image;
pub mod labels;
pub mod launch;
pub mod logfile;
pub mod pipeline;
pub mod prediction;
pub mod registry;
pub mod relay;
pub mod resource;
pub mod response;
pub mod score;
pub mod text;

pub use prediction::Prediction;
pub use response::Response;
