use supply_processors::claims::{
    apply, compute_agreement_address, create_agreement, set_agreement_status, Agreement,
    AgreementAction, AgreementPayload, AgreementState, AgreementStatusKind,
    AgreementTransactionHandler, CreateAgreement, SetAgreementStatus,
};
use supply_processors::error::{ApplyError, ContextError};
use supply_processors::ledger::CommitFailure;
use supply_processors::payloads::create_agreement_payload;
use supply_processors::state::{Entry, StateContext};

fn create_request(name: &str, gtin: &str) -> CreateAgreement {
    CreateAgreement {
        name: name.to_string(),
        gtin: gtin.to_string(),
        price_bits: 195.0f64.to_bits(),
        effective_date: "2019-19-10".to_string(),
        termination_date: "2020-19-10".to_string(),
        unit_of_quantity: "100".to_string(),
        payment_term: "Net10".to_string(),
        origin_party: "SYY".to_string(),
    }
}

fn agreement(name: &str, gtin: &str) -> Agreement {
    Agreement {
        name: name.to_string(),
        gtin: gtin.to_string(),
        price_bits: 0,
        effective_date: String::new(),
        termination_date: String::new(),
        unit_of_quantity: String::new(),
        payment_term: String::new(),
        origin_party: String::new(),
        agreement_status: vec![],
    }
}

fn empty_state() -> AgreementState {
    AgreementState::new(StateContext::new())
}

fn state_with(name: &str, entry: Entry<Agreement>) -> AgreementState {
    let mut context = StateContext::new();
    context.load(compute_agreement_address(name), entry);
    AgreementState::new(context)
}

#[test]
fn agreement_address_is_namespace_and_digest_prefix() {
    assert_eq!(
        compute_agreement_address("agreement-v1-1234"),
        "0000042f9ad4cfcad5fc2dce29d7324fdb1b39a44388453656b7325107669bc1da9218"
    );
    assert_eq!(compute_agreement_address("x").len(), 70);
}

#[test]
fn created_agreement_is_found_with_initiated_status() {
    let mut state = empty_state();
    let request = create_request("agreement-v1-1234", "00049000015966");
    assert_eq!(create_agreement(&request, &mut state), Ok(()));
    let found = state.get_agreement("agreement-v1-1234").unwrap().unwrap();
    assert_eq!(found.name, "agreement-v1-1234");
    assert_eq!(found.gtin, "00049000015966");
    assert_eq!(f64::from_bits(found.price_bits), 195.0);
    assert_eq!(found.effective_date, "2019-19-10");
    assert_eq!(found.termination_date, "2020-19-10");
    assert_eq!(found.unit_of_quantity, "100");
    assert_eq!(found.payment_term, "Net10");
    assert_eq!(found.origin_party, "SYY");
    assert_eq!(found.agreement_status.len(), 1);
    assert_eq!(found.agreement_status[0].party, "SYY");
    assert_eq!(found.agreement_status[0].status, AgreementStatusKind::Initiated);
}

#[test]
fn second_creation_is_refused_naming_the_gtin() {
    let mut state = empty_state();
    let request = create_request("a", "gtin-1");
    assert_eq!(create_agreement(&request, &mut state), Ok(()));
    assert_eq!(
        create_agreement(&request, &mut state),
        Err(ApplyError::InvalidTransaction("Agreement already exists: gtin-1".to_string()))
    );
}

#[test]
fn other_agreements_are_untouched_by_creation() {
    let mut state = empty_state();
    assert_eq!(create_agreement(&create_request("a", "g"), &mut state), Ok(()));
    assert_eq!(state.get_agreement("b").unwrap().is_none(), true);
}

#[test]
fn agreeing_appends_an_agreed_status() {
    let mut state = empty_state();
    assert_eq!(create_agreement(&create_request("a", "g"), &mut state), Ok(()));
    let request = SetAgreementStatus { name: "a".to_string(), party: "DDD".to_string() };
    assert_eq!(set_agreement_status(&request, &mut state), Ok(()));
    let found = state.get_agreement("a").unwrap().unwrap();
    assert_eq!(found.agreement_status.len(), 2);
    assert_eq!(found.agreement_status[0].status, AgreementStatusKind::Initiated);
    assert_eq!(found.agreement_status[1].party, "DDD");
    assert_eq!(found.agreement_status[1].status, AgreementStatusKind::Agreed);
}

#[test]
fn agreeing_to_a_missing_agreement_is_refused() {
    let mut state = empty_state();
    let request = SetAgreementStatus { name: "nope".to_string(), party: "DDD".to_string() };
    assert_eq!(
        set_agreement_status(&request, &mut state),
        Err(ApplyError::InvalidTransaction("Agreement does not exists : nope".to_string()))
    );
}

#[test]
fn undecodable_entry_is_an_internal_error_on_read() {
    let mut state = state_with("a", Entry::Undecodable("boom".to_string()));
    assert_eq!(
        state.get_agreement("a").err(),
        Some(ApplyError::InternalError("Cannot deserialize agreement list: boom".to_string()))
    );
    assert_eq!(
        create_agreement(&create_request("a", "g"), &mut state),
        Err(ApplyError::InvalidTransaction(
            "Failed to retrieve state: InternalError: Cannot deserialize agreement list: boom"
                .to_string()
        ))
    );
}

#[test]
fn undecodable_entry_refuses_a_write() {
    let mut state = state_with("a", Entry::Undecodable("boom".to_string()));
    assert_eq!(
        state.set_agreement("a", agreement("a", "g")),
        Err(ApplyError::InternalError("Cannot decode the agreement list".to_string()))
    );
}

#[test]
fn unreadable_entry_becomes_the_context_error() {
    let mut state = state_with(
        "a",
        Entry::Unreadable(ContextError::AuthorizationError("denied".to_string())),
    );
    assert_eq!(
        state.get_agreement("a").err(),
        Some(ApplyError::InvalidTransaction("AuthorizationError: denied".to_string()))
    );
    let mut state = state_with(
        "a",
        Entry::Unreadable(ContextError::TransactionReceiptError("r".to_string())),
    );
    assert_eq!(
        state.get_agreement("a").err(),
        Some(ApplyError::InternalError("TransactionReceiptError: r".to_string()))
    );
}

#[test]
fn setting_replaces_the_first_match_and_moves_it_last() {
    let mut state = state_with(
        "a",
        Entry::Present(vec![agreement("a", "old"), agreement("b", "kept")]),
    );
    assert_eq!(state.set_agreement("a", agreement("a", "new")), Ok(()));
    let context = state.into_context();
    let slot = &context.slots()[0];
    assert_eq!(slot.written, true);
    match &slot.entry {
        Entry::Present(list) => {
            assert_eq!(list.len(), 2);
            assert_eq!(list[0].name, "b");
            assert_eq!(list[1].gtin, "new");
        }
        _ => panic!("the slot should hold a list"),
    }
}

#[test]
fn refused_transactions_leave_no_write() {
    let mut state = empty_state();
    let request = SetAgreementStatus { name: "nope".to_string(), party: "p".to_string() };
    assert!(set_agreement_status(&request, &mut state).is_err());
    assert_eq!(state.into_context().slots().len(), 0);
}

#[test]
fn handler_declares_the_family() {
    let handler = AgreementTransactionHandler::new();
    assert_eq!(handler.family_name(), "agreement");
    assert_eq!(handler.family_versions(), vec!["0.1".to_string()]);
    assert_eq!(handler.namespaces(), vec!["000004".to_string()]);
}

#[test]
fn handler_refuses_unparsed_and_unknown_payloads() {
    let handler = AgreementTransactionHandler::new();
    let mut state = empty_state();
    assert_eq!(
        handler.apply(None, &mut state),
        Err(ApplyError::InternalError("Failed to parse agreement payload".to_string()))
    );
    let mut payload = create_agreement_payload();
    payload.action = AgreementAction::Unrecognized;
    assert_eq!(
        handler.apply(Some(&payload), &mut state),
        Err(ApplyError::InvalidTransaction("Invalid action".to_string()))
    );
}

#[test]
fn handler_dispatches_both_actions() {
    let handler = AgreementTransactionHandler::new();
    let mut state = empty_state();
    let payload = create_agreement_payload();
    assert_eq!(handler.apply(Some(&payload), &mut state), Ok(()));
    let agree = AgreementPayload {
        action: AgreementAction::SetAgreementStatus,
        create_agreement: create_request("", ""),
        set_agreement_status: SetAgreementStatus {
            name: "agreement-v1-1234".to_string(),
            party: "DDD".to_string(),
        },
    };
    assert_eq!(handler.apply(Some(&agree), &mut state), Ok(()));
    let found = state.get_agreement("agreement-v1-1234").unwrap().unwrap();
    assert_eq!(found.agreement_status.len(), 2);
}

#[test]
fn sabre_apply_reports_true() {
    let mut state = empty_state();
    assert_eq!(apply(Some(&create_agreement_payload()), &mut state), Ok(true));
    assert!(apply(None, &mut state).is_err());
}

#[test]
fn commit_failures_are_wrapped_per_action() {
    let handler = AgreementTransactionHandler::new();
    let payload = create_agreement_payload();
    assert_eq!(
        handler.commit_error(&payload, &CommitFailure::Unencodable),
        ApplyError::InternalError(
            "Failed to create agreement: InternalError(\"Cannot serialize agreement list\")"
                .to_string()
        )
    );
    let mut update = create_agreement_payload();
    update.action = AgreementAction::SetAgreementStatus;
    assert_eq!(
        handler.commit_error(
            &update,
            &CommitFailure::Rejected(ContextError::SendError("gone".to_string()))
        ),
        ApplyError::InternalError(
            "Failed to update the agreement: InternalError(\"SendError: gone\")".to_string()
        )
    );
}

#[test]
fn agreement_handler_reads_the_named_address() {
    let handler = AgreementTransactionHandler::new();
    let mut payload = create_agreement_payload();
    assert_eq!(
        handler.read_address(&payload),
        Some(compute_agreement_address("agreement-v1-1234"))
    );
    payload.action = AgreementAction::SetAgreementStatus;
    payload.set_agreement_status.name = "other".to_string();
    assert_eq!(handler.read_address(&payload), Some(compute_agreement_address("other")));
    payload.action = AgreementAction::Unrecognized;
    assert_eq!(handler.read_address(&payload), None);
}

#[test]
fn writing_the_same_agreement_twice_is_writing_it_once() {
    let mut once = empty_state();
    assert_eq!(once.set_agreement("a", agreement("a", "g")), Ok(()));
    let mut twice = empty_state();
    assert_eq!(twice.set_agreement("a", agreement("a", "g")), Ok(()));
    assert_eq!(twice.set_agreement("a", agreement("a", "g")), Ok(()));
    let once = once.into_context();
    let twice = twice.into_context();
    assert_eq!(once.slots().len(), twice.slots().len());
    match (&once.slots()[0].entry, &twice.slots()[0].entry) {
        (Entry::Present(a), Entry::Present(b)) => {
            assert_eq!(a.len(), 1);
            assert_eq!(b.len(), 1);
            assert_eq!(b[0].gtin, "g");
        }
        _ => panic!("both hold a list"),
    }
}
