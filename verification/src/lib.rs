//! Planning and bookkeeping for a batch object-transfer resource: resolving a
//! templated remote prefix, enumerating the work items of an upload or a
//! download, and driving their dispatch and the joining of their outcomes.

pub mod model;
pub mod text;
pub mod paths;
pub mod template;
pub mod enumerate;
pub mod dispatch;
pub mod transfer;
pub mod resource;
