//! Device drivers of the inventory. Storage volumes are the only kind.

pub mod drives;
