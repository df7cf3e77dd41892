//! Client-side model of a search server's update tracking: the JSON values that
//! the server answers with, the settings updates that it runs, and the
//! classification of an update's status as processed or enqueued.

pub mod json;
pub mod settings;
pub mod status;
pub mod progress;
