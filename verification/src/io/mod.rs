pub mod launcher_store;
