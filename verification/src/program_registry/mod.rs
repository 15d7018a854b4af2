pub mod access_parameter;
pub mod cast_error;
pub mod ids;
pub mod program_access;
pub mod program_registry_input;
pub mod program_registry_result;
pub mod program_storage;
pub mod prompted_accesses;
pub mod prompted_program_access;
pub mod registry_outcomes;
pub mod resolution;
pub mod resource;
pub mod stored_program;
