use supply_processors::address::namespaced_address;
use supply_processors::error::{ApplyError, ContextError};
use supply_processors::gitin::{apply, ProgramTransactionHandler};
use supply_processors::payloads::{create_agreement_payload, create_po_payload, create_program_payload};
use supply_processors::po::{Item, OrderStatus, POStatus, PO};
use supply_processors::po_cli::{
    listed_lines, long_fraction, state_data_bytes, state_data_of_response, state_url,
};
use supply_processors::state::{Entry, StateContext};

fn po(po_number: &str) -> PO {
    PO {
        po_number: po_number.to_string(),
        po_date: String::new(),
        total_amount_bits: 0,
        ship_date: String::new(),
        payment_date: String::new(),
        origin_party: String::new(),
        items: vec![],
        order_status_history: vec![POStatus {
            party: "p".to_string(),
            date: String::new(),
            status: OrderStatus::Ordered,
        }],
    }
}

#[test]
fn empty_key_address() {
    assert_eq!(
        namespaced_address("ab", ""),
        "abcf83e1357eefb8bdf1542850d66d8007d620e4050b5715dc83f4a921d36ce9ce"
    );
}

#[test]
fn debug_text_escapes_the_message() {
    let e = ApplyError::InternalError("a\"b\\c\n".to_string());
    assert_eq!(e.debug_text(), "InternalError(\"a\\\"b\\\\c\\n\")");
}

#[test]
fn error_texts() {
    let e = ApplyError::InternalError("x \"y\"".to_string());
    assert_eq!(e.describe(), "InternalError: x \"y\"");
    assert_eq!(e.debug_text(), "InternalError(\"x \\\"y\\\"\")");
    let e = ApplyError::InvalidTransaction("z".to_string());
    assert_eq!(e.describe(), "InvalidTransaction: z");
    assert_eq!(e.debug_text(), "InvalidTransaction(\"z\")");
    let c = ContextError::SerializationError("bad".to_string());
    assert_eq!(c.describe(), "SerializationError: bad");
    assert_eq!(
        c.to_apply_error(),
        ApplyError::InvalidTransaction("SerializationError: bad".to_string())
    );
    assert_eq!(
        ContextError::ReceiveError("r".to_string()).to_apply_error(),
        ApplyError::InvalidTransaction("ReceiveError: r".to_string())
    );
}

#[test]
fn context_fetch_and_store() {
    let mut context: StateContext<PO> = StateContext::new();
    context.load("a".to_string(), Entry::Undecodable("u".to_string()));
    context.load("a".to_string(), Entry::Absent);
    match context.fetch("a") {
        Entry::Undecodable(why) => assert_eq!(why, "u"),
        _ => panic!("the first slot of an address decides"),
    }
    match context.fetch("b") {
        Entry::Absent => {}
        _ => panic!("an address never loaded is empty"),
    }
    context.store("b".to_string(), vec![po("1")]);
    match context.fetch("b") {
        Entry::Present(list) => assert_eq!(list[0].po_number, "1"),
        _ => panic!("a stored list is read back"),
    }
    assert_eq!(context.slots().len(), 3);
    assert_eq!(context.slots()[2].written, true);
    assert_eq!(context.slots()[0].written, false);
}

#[test]
fn po_state_url() {
    assert_eq!(
        state_url("po-v1-1234"),
        "http://127.0.0.1:8008/state/000008ed0615817f223f5f9835e54dd9b36e2f9115f3c555d6a0f7fc4746bcfbf3cd30"
    );
}

#[test]
fn state_data_is_base64() {
    assert_eq!(state_data_bytes("aGVsbG8="), Some(b"hello".to_vec()));
    assert_eq!(state_data_bytes("***"), None);
}

#[test]
fn listed_lines_one_per_matching_order() {
    let list = vec![po("a"), po("b"), po("a")];
    assert_eq!(listed_lines("a", &list), vec!["\"a\"".to_string(), "\"a\"".to_string()]);
    assert_eq!(listed_lines("c", &list).len(), 0);
}

#[test]
fn sample_payloads() {
    let a = create_agreement_payload();
    assert_eq!(a.create_agreement.name, "agreement-v1-1234");
    assert_eq!(f64::from_bits(a.create_agreement.price_bits), 195.0);
    assert_eq!(a.create_agreement.origin_party, "SYY");
    let p = create_program_payload();
    assert_eq!(p.create_program.gtin, "12345678");
    let o = create_po_payload();
    assert_eq!(f64::from_bits(o.create_po.total_amount_bits), 1345.0);
    let items: &Vec<Item> = &o.create_po.items;
    assert_eq!(items.len(), 2);
    assert_eq!(items[0].gtin, "00099345897431");
    assert_eq!(items[0].quantity, 100);
    assert_eq!(f64::from_bits(items[0].price_bits), 19000.0);
    assert_eq!(items[1].agreement_id, "agreement-v2-1234");
    assert_eq!(items[1].carrier_name, "DDD");
    assert_eq!(items[1].quantity, 89);
    assert_eq!(f64::from_bits(items[1].price_bits), 56000.0);
}

#[test]
fn draft_handler() {
    let handler = ProgramTransactionHandler::new();
    assert_eq!(handler.family_name(), "program");
    assert_eq!(handler.namespaces(), vec!["123456".to_string()]);
    assert_eq!(handler.family_versions(), vec!["0.1".to_string()]);
    assert_eq!(handler.apply(&vec![1, 2, 3]), Ok(()));
    assert_eq!(apply(&vec![]), Ok(true));
}

#[test]
fn state_data_from_json_response() {
    assert_eq!(
        state_data_of_response("{\"data\": \"aGVsbG8=\", \"head\": \"x\"}"),
        Some(Some(b"hello".to_vec()))
    );
    assert_eq!(state_data_of_response("{\"data\": 5}"), Some(Some(vec![54, 137, 222])));
    assert_eq!(state_data_of_response("{\"data\": \"***\"}"), Some(None));
    assert_eq!(state_data_of_response("not json"), None);
}

#[test]
fn long_fractions_are_refused_before_parsing() {
    let long = format!("{{\"data\": 0.{}}}", "0".repeat(40000));
    assert!(long_fraction(long.as_bytes()));
    assert_eq!(state_data_of_response(&long), None);
    let limit = format!("{{\"data\": 0.{}}}", "0".repeat(32767));
    assert!(!long_fraction(limit.as_bytes()));
    assert_eq!(state_data_of_response(&limit), Some(Some(vec![54, 137, 222])));
    let at_limit = format!("1.{}", "5".repeat(32768));
    assert!(long_fraction(at_limit.as_bytes()));
    let digits = "7".repeat(40000);
    assert!(!long_fraction(digits.as_bytes()));
    assert!(!long_fraction(b"1.5 and 2."));
}

#[test]
fn addresses_end_in_lower_hex() {
    let address = namespaced_address("000004", "any key");
    assert_eq!(address.len(), 70);
    assert!(address[6..].chars().all(|c| c.is_ascii_digit() || ('a'..='f').contains(&c)));
}
