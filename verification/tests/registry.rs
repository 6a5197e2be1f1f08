use sip_arcium_transfer::errors::ErrorCode;
use sip_arcium_transfer::registry::{ComputationDefinition, DefinitionHandle, Registry};

#[test]
fn new_registry_knows_no_circuit() {
    let registry = Registry::new();
    assert_eq!(registry.lookup("private_transfer"), Err(ErrorCode::UnknownCircuit));
    assert_eq!(registry.lookup_offset(0), Err(ErrorCode::UnknownCircuit));
    assert_eq!(registry.definition(DefinitionHandle { offset: 0 }), None);
}

#[test]
fn registered_definition_is_found() {
    let mut registry = Registry::new();
    let handle = registry.register("private_transfer", 3).unwrap();
    assert_eq!(registry.lookup("private_transfer"), Ok(handle));
    assert_eq!(registry.lookup_offset(handle.offset), Ok(handle));
    assert_eq!(
        registry.definition(handle),
        Some(ComputationDefinition { offset: handle.offset, operands: 3 })
    );
}

#[test]
fn handle_holds_the_offset_derived_from_the_name() {
    let mut registry = Registry::new();
    let handle = registry.register("add_together", 2).unwrap();
    assert_eq!(handle.offset, 4005749700);
    assert_eq!(handle.offset, arcium_anchor::comp_def_offset("add_together"));
    let other = registry.register("private_transfer", 3).unwrap();
    assert_eq!(other.offset, arcium_anchor::comp_def_offset("private_transfer"));
    assert_ne!(handle.offset, other.offset);
}

#[test]
fn second_registration_is_refused_and_changes_nothing() {
    let mut registry = Registry::new();
    let handle = registry.register("check_balance", 2).unwrap();
    assert_eq!(registry.register("check_balance", 2), Err(ErrorCode::AlreadyRegistered));
    assert_eq!(registry.register("check_balance", 5), Err(ErrorCode::AlreadyRegistered));
    assert_eq!(
        registry.definition(handle),
        Some(ComputationDefinition { offset: handle.offset, operands: 2 })
    );
    assert_eq!(registry.lookup("check_balance"), Ok(handle));
}

#[test]
fn registration_by_offset() {
    let mut registry = Registry::new();
    assert_eq!(registry.register_offset(7, 4), Ok(DefinitionHandle { offset: 7 }));
    assert_eq!(registry.register_offset(7, 1), Err(ErrorCode::AlreadyRegistered));
    assert_eq!(registry.register_offset(8, 1), Ok(DefinitionHandle { offset: 8 }));
    assert_eq!(
        registry.definition(DefinitionHandle { offset: 7 }),
        Some(ComputationDefinition { offset: 7, operands: 4 })
    );
    assert_eq!(
        registry.definition(DefinitionHandle { offset: 8 }),
        Some(ComputationDefinition { offset: 8, operands: 1 })
    );
    assert_eq!(registry.lookup_offset(9), Err(ErrorCode::UnknownCircuit));
    assert_eq!(registry.register_offset(0, 0), Ok(DefinitionHandle { offset: 0 }));
    assert_eq!(
        registry.register_offset(u32::MAX, usize::MAX),
        Ok(DefinitionHandle { offset: u32::MAX })
    );
    assert_eq!(
        registry.definition(DefinitionHandle { offset: u32::MAX }),
        Some(ComputationDefinition { offset: u32::MAX, operands: usize::MAX })
    );
}

#[test]
fn circuits_are_registered_independently() {
    let mut registry = Registry::new();
    let transfer = registry.register("private_transfer", 3).unwrap();
    assert_eq!(registry.lookup("validate_swap"), Err(ErrorCode::UnknownCircuit));
    let swap = registry.register("validate_swap", 4).unwrap();
    assert_eq!(registry.lookup("private_transfer"), Ok(transfer));
    assert_eq!(registry.lookup("validate_swap"), Ok(swap));
    assert_eq!(
        registry.definition(transfer),
        Some(ComputationDefinition { offset: transfer.offset, operands: 3 })
    );
    assert_eq!(registry.lookup("check_balance"), Err(ErrorCode::UnknownCircuit));
}
