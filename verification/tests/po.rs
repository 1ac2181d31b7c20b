use supply_processors::error::{ApplyError, ContextError};
use supply_processors::ledger::CommitFailure;
use supply_processors::payloads::create_po_payload;
use supply_processors::po::{
    apply, compute_po_address, create_po, receive_po, OrderStatus, POAction, POState,
    POTransactionHandler, ReceivePO, PO,
};
use supply_processors::state::{Entry, StateContext};

fn empty_state() -> POState {
    POState::new(StateContext::new())
}

fn receipt(po_number: &str) -> ReceivePO {
    ReceivePO {
        po_number: po_number.to_string(),
        party: "DDD".to_string(),
        date: "2019-19-20".to_string(),
    }
}

#[test]
fn po_address_is_namespace_and_digest_prefix() {
    assert_eq!(
        compute_po_address("po-v1-1234"),
        "000008ed0615817f223f5f9835e54dd9b36e2f9115f3c555d6a0f7fc4746bcfbf3cd30"
    );
}

#[test]
fn placed_po_is_found_ordered_without_lines() {
    let mut state = empty_state();
    let payload = create_po_payload();
    assert_eq!(create_po(&payload.create_po, &mut state), Ok(()));
    let found: PO = state.get_po("po-v1-1234").unwrap().unwrap();
    assert_eq!(found.po_number, "po-v1-1234");
    assert_eq!(found.po_date, "2020-19-7");
    assert_eq!(f64::from_bits(found.total_amount_bits), 1345.0);
    assert_eq!(found.ship_date, "2019-19-14");
    assert_eq!(found.payment_date, "2020-19-10");
    assert_eq!(found.origin_party, "SYY");
    assert_eq!(found.items.len(), 0);
    assert_eq!(found.order_status_history.len(), 1);
    assert_eq!(found.order_status_history[0].party, "SYY");
    assert_eq!(found.order_status_history[0].date, "");
    assert_eq!(found.order_status_history[0].status, OrderStatus::Ordered);
}

#[test]
fn second_po_is_refused() {
    let mut state = empty_state();
    let payload = create_po_payload();
    assert_eq!(create_po(&payload.create_po, &mut state), Ok(()));
    assert_eq!(
        create_po(&payload.create_po, &mut state),
        Err(ApplyError::InvalidTransaction("PO already exists: po-v1-1234".to_string()))
    );
}

#[test]
fn receiving_appends_a_received_step() {
    let mut state = empty_state();
    assert_eq!(create_po(&create_po_payload().create_po, &mut state), Ok(()));
    assert_eq!(receive_po(&receipt("po-v1-1234"), &mut state), Ok(()));
    let found = state.get_po("po-v1-1234").unwrap().unwrap();
    assert_eq!(found.order_status_history.len(), 2);
    assert_eq!(found.order_status_history[1].party, "DDD");
    assert_eq!(found.order_status_history[1].date, "2019-19-20");
    assert_eq!(found.order_status_history[1].status, OrderStatus::Received);
}

#[test]
fn receiving_a_missing_po_is_refused() {
    let mut state = empty_state();
    assert_eq!(
        receive_po(&receipt("missing"), &mut state),
        Err(ApplyError::InvalidTransaction("PO does not exists : missing".to_string()))
    );
}

#[test]
fn unreadable_po_state_is_refused() {
    let mut context = StateContext::new();
    context.load(
        compute_po_address("p"),
        Entry::Unreadable(ContextError::ResponseAttributeError("none".to_string())),
    );
    let mut state = POState::new(context);
    assert_eq!(
        receive_po(&receipt("p"), &mut state),
        Err(ApplyError::InvalidTransaction(
            "Failed to retrieve state: InvalidTransaction: ResponseAttributeError: none"
                .to_string()
        ))
    );
}

#[test]
fn po_handler_declares_and_dispatches() {
    let handler = POTransactionHandler::new();
    assert_eq!(handler.family_name(), "purchase-order");
    assert_eq!(handler.family_versions(), vec!["0.1".to_string()]);
    assert_eq!(handler.namespaces(), vec!["000008".to_string()]);
    let mut state = empty_state();
    assert_eq!(
        handler.apply(None, &mut state),
        Err(ApplyError::InternalError("Failed to parse po payload".to_string()))
    );
    let mut payload = create_po_payload();
    assert_eq!(handler.apply(Some(&payload), &mut state), Ok(()));
    payload.action = POAction::ReceivePo;
    payload.receive_po = receipt("po-v1-1234");
    assert_eq!(handler.apply(Some(&payload), &mut state), Ok(()));
    payload.action = POAction::Unrecognized;
    assert_eq!(
        handler.apply(Some(&payload), &mut state),
        Err(ApplyError::InvalidTransaction("Invalid action".to_string()))
    );
}

#[test]
fn po_sabre_apply_reports_true() {
    let mut state = empty_state();
    assert_eq!(apply(Some(&create_po_payload()), &mut state), Ok(true));
}

#[test]
fn po_commit_failures_are_wrapped_per_action() {
    let handler = POTransactionHandler::new();
    let mut payload = create_po_payload();
    payload.action = POAction::ReceivePo;
    assert_eq!(
        handler.commit_error(&payload, &CommitFailure::Unencodable),
        ApplyError::InternalError(
            "Failed to change the status of the po tp received: InternalError(\"Cannot serialize po list\")"
                .to_string()
        )
    );
}

#[test]
fn po_handler_reads_the_named_address() {
    let handler = POTransactionHandler::new();
    let mut payload = create_po_payload();
    assert_eq!(handler.read_address(&payload), Some(compute_po_address("po-v1-1234")));
    payload.action = POAction::ReceivePo;
    payload.receive_po = receipt("r");
    assert_eq!(handler.read_address(&payload), Some(compute_po_address("r")));
    payload.action = POAction::Unrecognized;
    assert_eq!(handler.read_address(&payload), None);
}
