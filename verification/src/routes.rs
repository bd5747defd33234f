pub mod subscribe;
