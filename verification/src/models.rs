pub mod disaster;
pub mod subscription;
