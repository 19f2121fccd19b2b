//! Desktop shell library: locates the two user-editable YAML documents on
//! disk (with a development-checkout fallback heuristic) and prepares and
//! interprets the JSON HTTP exchanges with the local backend service.

pub mod locator;
pub mod text;
pub mod json;
pub mod model;
pub mod proxy;
