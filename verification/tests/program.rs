use supply_processors::error::ApplyError;
use supply_processors::ledger::CommitFailure;
use supply_processors::payloads::create_program_payload;
use supply_processors::program::{
    apply, compute_address, create_program, update_org_state, CreateProgramAction, OrgStatus,
    ProgramAction, ProgramState, ProgramTransactionHandler, UpdateOrgStatus,
};
use supply_processors::state::StateContext;

fn empty_state() -> ProgramState {
    ProgramState::new(StateContext::new())
}

fn update(gtin: &str, org: &str, status: &str) -> UpdateOrgStatus {
    UpdateOrgStatus {
        gtin: gtin.to_string(),
        org_status: OrgStatus { org_name: org.to_string(), status: status.to_string() },
    }
}

#[test]
fn program_address_is_namespace_and_digest_prefix() {
    assert_eq!(
        compute_address("12345678"),
        "123456fa585d89c851dd338a70dcf535aa2a92fee7836dd6aff1226583e88e0996293f"
    );
}

#[test]
fn published_program_is_found_without_statuses() {
    let mut state = empty_state();
    let request = CreateProgramAction { gtin: "12345678".to_string() };
    assert_eq!(create_program(&request, &mut state), Ok(()));
    let found = state.get_program("12345678").unwrap().unwrap();
    assert_eq!(found.gtin, "12345678");
    assert_eq!(found.org_status.len(), 0);
    assert_eq!(
        create_program(&request, &mut state),
        Err(ApplyError::InvalidTransaction("Program already exists: 12345678".to_string()))
    );
}

#[test]
fn org_status_is_replaced_not_duplicated() {
    let mut state = empty_state();
    let request = CreateProgramAction { gtin: "g".to_string() };
    assert_eq!(create_program(&request, &mut state), Ok(()));
    assert_eq!(update_org_state(&update("g", "A", "pending"), &mut state), Ok(()));
    assert_eq!(update_org_state(&update("g", "B", "agreed"), &mut state), Ok(()));
    assert_eq!(update_org_state(&update("g", "A", "agreed"), &mut state), Ok(()));
    let found = state.get_program("g").unwrap().unwrap();
    assert_eq!(found.org_status.len(), 2);
    assert_eq!(found.org_status[0].org_name, "B");
    assert_eq!(found.org_status[1].org_name, "A");
    assert_eq!(found.org_status[1].status, "agreed");
}

#[test]
fn updating_a_missing_program_is_refused() {
    let mut state = empty_state();
    assert_eq!(
        update_org_state(&update("none", "A", "x"), &mut state),
        Err(ApplyError::InvalidTransaction("Program does not exists : none".to_string()))
    );
}

#[test]
fn program_handler_declares_and_dispatches() {
    let handler = ProgramTransactionHandler::new();
    assert_eq!(handler.family_name(), "program");
    assert_eq!(handler.family_versions(), vec!["0.1".to_string()]);
    assert_eq!(handler.namespaces(), vec!["123456".to_string()]);
    let mut state = empty_state();
    assert_eq!(
        handler.apply(None, &mut state),
        Err(ApplyError::InternalError("Failed to parse payload".to_string()))
    );
    let mut payload = create_program_payload();
    assert_eq!(handler.apply(Some(&payload), &mut state), Ok(()));
    payload.action = ProgramAction::UpdateOrgStatus;
    payload.update_org_status = update("12345678", "A", "ok");
    assert_eq!(handler.apply(Some(&payload), &mut state), Ok(()));
    let found = state.get_program("12345678").unwrap().unwrap();
    assert_eq!(found.org_status.len(), 1);
    payload.action = ProgramAction::Unrecognized;
    assert_eq!(
        handler.apply(Some(&payload), &mut state),
        Err(ApplyError::InvalidTransaction("Invalid action".to_string()))
    );
    assert_eq!(
        handler.commit_error(&create_program_payload(), &CommitFailure::Unencodable),
        ApplyError::InternalError(
            "Failed to create program: InternalError(\"Cannot serialize program list\")"
                .to_string()
        )
    );
}

#[test]
fn program_sabre_apply_publishes_the_gtin() {
    let mut state = empty_state();
    assert_eq!(
        apply(None, &mut state),
        Err(ApplyError::InternalError("Failed to parse payload".to_string()))
    );
    assert_eq!(apply(Some(&create_program_payload()), &mut state), Ok(true));
    let found = state.get_program("12345678").unwrap().unwrap();
    assert_eq!(found.gtin, "12345678");
}

#[test]
fn program_handler_reads_the_named_address() {
    let handler = ProgramTransactionHandler::new();
    let mut payload = create_program_payload();
    assert_eq!(handler.read_address(&payload), Some(compute_address("12345678")));
    payload.action = ProgramAction::UpdateOrgStatus;
    payload.update_org_status = update("g", "A", "x");
    assert_eq!(handler.read_address(&payload), Some(compute_address("g")));
    payload.action = ProgramAction::Unrecognized;
    assert_eq!(handler.read_address(&payload), None);
}

#[test]
fn the_same_org_status_twice_is_once() {
    let mut state = empty_state();
    assert_eq!(create_program(&CreateProgramAction { gtin: "g".to_string() }, &mut state), Ok(()));
    assert_eq!(update_org_state(&update("g", "A", "ok"), &mut state), Ok(()));
    assert_eq!(update_org_state(&update("g", "A", "ok"), &mut state), Ok(()));
    let found = state.get_program("g").unwrap().unwrap();
    assert_eq!(found.org_status.len(), 1);
    assert_eq!(found.org_status[0].status, "ok");
}
