//! Portal configuration search paths and route resolution.
pub mod portal_routes;
pub mod search_paths;
