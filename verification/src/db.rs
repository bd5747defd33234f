pub mod subscription_store;
pub mod subscription_index;
