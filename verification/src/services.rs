pub mod runtime_status;
pub mod reverse_geocoder;
