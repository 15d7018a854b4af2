pub mod access_result;
pub mod blacklist_storage;
pub mod control_storage;
pub mod credential_storage;
pub mod keyed_entries;
pub mod primitives;
pub mod resource_id;
pub mod registry_storage;
pub mod reservation_storage;
