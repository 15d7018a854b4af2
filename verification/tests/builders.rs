use aion_program::program_registry::access_parameter::AccessParameter;
use aion_program::program_registry::ids::{ProgramId, ResourceId};
use aion_program::program_registry::program_access::ProgramAccess;
use aion_program::program_registry::program_registry_input::{
    ProgramRegistryAcquireProgram, ProgramRegistryReleaseProgram, ProgramRegistryReleaseResource,
    ProgramRegistryReplaceResource, ProgramRegistryResolveWithInsert,
};
use aion_program::program_registry::prompted_accesses::PromptedAccesses;
use aion_program::program_registry::prompted_program_access::PromptedProgramAccess;
use aion_program::program_registry::stored_program::StoredProgram;
use aion_program::registry_implementation::primitives::{UserId, UserPassword, ValuePassword};

#[test]
fn prompted_accesses_with_moves_every_field() {
    let prompted = PromptedAccesses {
        program_id: ProgramId::Label("p".to_string()),
        user_details: Some((UserId::Label("u".to_string()), UserPassword::Number(1))),
        resource_id: ResourceId::Label("r".to_string()),
        resource_password: Some(ValuePassword::from(9)),
        access: ProgramAccess::Shared(1),
    };
    let builder = prompted.with(ProgramId::Label("g".to_string()), true);
    assert_eq!(builder.program_id, ProgramId::Label("p".to_string()));
    assert_eq!(builder.global_program_id, ProgramId::Label("g".to_string()));
    assert_eq!(builder.user_details, Some((UserId::Label("u".to_string()), UserPassword::Number(1))));
    assert_eq!(builder.resource_id, ResourceId::Label("r".to_string()));
    assert_eq!(builder.resource_password, Some(ValuePassword::from(9)));
    assert_eq!(builder.access, ProgramAccess::Shared(1));
    assert!(builder.use_global_program_id);
}

#[test]
fn prompted_program_access_with_moves_every_field() {
    let program = ProgramId::Label("p".to_string());
    let global = ProgramId::Label("g".to_string());
    let password = ValuePassword::from(3);
    let user = UserId::Label("u".to_string());
    let user_password = UserPassword::Number(2);
    let prompted = PromptedProgramAccess {
        program_id: &program,
        program_password: Some(&password),
        user_details: Some((&user, &user_password)),
        resource_id: Some(ResourceId::Label("r".to_string())),
        resource_access: Some(ProgramAccess::Replace),
        resource_password: None,
    };
    let builder = prompted.with(&global, false);
    assert_eq!(builder.program_id, &program);
    assert_eq!(builder.program_password, Some(&password));
    assert_eq!(builder.global_program_id, &global);
    assert!(!builder.use_global_program_id);
    assert_eq!(builder.user_details, Some((&user, &user_password)));
    assert_eq!(builder.resource_id, Some(ResourceId::Label("r".to_string())));
    assert_eq!(builder.resource_access, Some(ProgramAccess::Replace));
    assert_eq!(builder.resource_password, None);
}

#[test]
fn inputs_and_parameters() {
    let insert: ProgramRegistryResolveWithInsert<'_, fn() -> u8> = ProgramRegistryResolveWithInsert::default();
    assert!(insert.user_details.is_none());
    assert!(insert.program_id.is_none());
    assert!(insert.program_password.is_none());
    assert!(insert.resource.is_none());
    assert!(insert.resource_id.is_none());
    assert!(insert.resource_password.is_none());

    let program = ProgramId::Label("p".to_string());
    let resource = ResourceId::Label("r".to_string());
    let release = ProgramRegistryReleaseProgram { program_id: &program };
    assert_eq!(release.program_id, &program);
    let release = ProgramRegistryReleaseResource { program_id: &program, resource_id: &resource };
    assert_eq!(release.resource_id, &resource);
    let access = ProgramAccess::Replace;
    let replace: ProgramRegistryReplaceResource<'_, u8, ProgramAccess> = ProgramRegistryReplaceResource {
        user_details: None,
        program_id: None,
        program_password: None,
        resource: Some(1),
        access: &access,
        resource_id: resource.clone(),
        resource_password: None,
    };
    assert_eq!(replace.resource, Some(1));
    let acquire = ProgramRegistryAcquireProgram { user_details: None, program_id: program.clone(), program_password: None };
    assert_eq!(acquire.program_id, program);
    let parameter: AccessParameter<'_, u8, u8> = AccessParameter { program_id: None, program_key: None, resource_id: Some(resource), resource_key: Some(&7) };
    assert_eq!(parameter.resource_key, Some(&7));
}

#[test]
fn stored_program() {
    let stored = StoredProgram::from_program(std::sync::Arc::new(5u32));
    assert_eq!(**stored.as_shared().program(), 5);
    let again = StoredProgram::new(stored);
    assert_eq!(**again.program(), 5);
}
