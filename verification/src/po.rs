//! The purchase-order family: a party orders goods under a purchase order,
//! and the order is later marked as received.

use vstd::prelude::*;
use vstd::string::*;
use crate::address::{address_for, is_lower_hex, namespaced_address};
use crate::error::{ApplyError, Failure, failure_text, failure_debug};
use crate::ledger::{
    applied, found_view, read_record, write_record, get_record, set_record, CommitFailure,
    commit_failure, commit_error, keys_unique_everywhere, law_read_after_write,
    law_write_twice, single_at, lemma_not_found_is_single,
    law_read_other_after_write, law_write_keeps_keys_unique,
};
use crate::record::{Duplicate, Record, views, copy_all, upsert};
use crate::state::{
    SlotView, StateContext, Stored, entry_at, stored, law_fetch_after_store,
    law_fetch_other_after_store,
};
use crate::text::join;

verus! {

/// The namespace of the purchase-order family's addresses.
pub const PO_NAMESPACE: &'static str = "000008";

/// The stage an order has reached.
#[derive(Debug, Clone, Copy, PartialEq, Eq, Structural)]
pub enum OrderStatus {
    Ordered,
    Received,
}

/// One step in the history of an order.
#[derive(Debug)]
pub struct POStatus {
    pub party: String,
    pub date: String,
    pub status: OrderStatus,
}

/// An order step by its views.
pub struct POStatusView {
    pub party: Seq<char>,
    pub date: Seq<char>,
    pub status: OrderStatus,
}

impl View for POStatus {
    type V = POStatusView;

    open spec fn view(&self) -> POStatusView {
        POStatusView { party: self.party@, date: self.date@, status: self.status }
    }
}

impl Duplicate for POStatus {
    fn duplicate(&self) -> (d: Self) {
        POStatus { party: self.party.clone(), date: self.date.clone(), status: self.status }
    }
}

/// A line of an order. The price is held as the bits of its IEEE-754
/// double-precision value.
#[derive(Debug)]
pub struct Item {
    pub gtin: String,
    pub quantity: i32,
    pub price_bits: u64,
    pub agreement_id: String,
    pub carrier_name: String,
}

/// An order line by its views.
pub struct ItemView {
    pub gtin: Seq<char>,
    pub quantity: i32,
    pub price_bits: u64,
    pub agreement_id: Seq<char>,
    pub carrier_name: Seq<char>,
}

impl View for Item {
    type V = ItemView;

    open spec fn view(&self) -> ItemView {
        ItemView {
            gtin: self.gtin@,
            quantity: self.quantity,
            price_bits: self.price_bits,
            agreement_id: self.agreement_id@,
            carrier_name: self.carrier_name@,
        }
    }
}

impl Duplicate for Item {
    fn duplicate(&self) -> (d: Self) {
        Item {
            gtin: self.gtin.clone(),
            quantity: self.quantity,
            price_bits: self.price_bits,
            agreement_id: self.agreement_id.clone(),
            carrier_name: self.carrier_name.clone(),
        }
    }
}

/// A purchase order, kept under its number. The total amount is held as the
/// bits of its IEEE-754 double-precision value.
#[derive(Debug)]
pub struct PO {
    pub po_number: String,
    pub po_date: String,
    pub total_amount_bits: u64,
    pub ship_date: String,
    pub payment_date: String,
    pub origin_party: String,
    pub items: Vec<Item>,
    /// The steps of the order, oldest first.
    pub order_status_history: Vec<POStatus>,
}

/// A purchase order by its views.
pub struct POView {
    pub po_number: Seq<char>,
    pub po_date: Seq<char>,
    pub total_amount_bits: u64,
    pub ship_date: Seq<char>,
    pub payment_date: Seq<char>,
    pub origin_party: Seq<char>,
    pub items: Seq<ItemView>,
    pub order_status_history: Seq<POStatusView>,
}

impl View for PO {
    type V = POView;

    open spec fn view(&self) -> POView {
        POView {
            po_number: self.po_number@,
            po_date: self.po_date@,
            total_amount_bits: self.total_amount_bits,
            ship_date: self.ship_date@,
            payment_date: self.payment_date@,
            origin_party: self.origin_party@,
            items: views(self.items@),
            order_status_history: views(self.order_status_history@),
        }
    }
}

impl Duplicate for PO {
    fn duplicate(&self) -> (d: Self) {
        PO {
            po_number: self.po_number.clone(),
            po_date: self.po_date.clone(),
            total_amount_bits: self.total_amount_bits,
            ship_date: self.ship_date.clone(),
            payment_date: self.payment_date.clone(),
            origin_party: self.origin_party.clone(),
            items: copy_all(&self.items),
            order_status_history: copy_all(&self.order_status_history),
        }
    }
}

impl Record for PO {
    open spec fn key_of(v: POView) -> Seq<char> {
        v.po_number
    }

    fn key(&self) -> (k: &String) {
        &self.po_number
    }
}

/// The request to place a purchase order.
#[derive(Debug)]
pub struct CreatePO {
    pub po_number: String,
    pub po_date: String,
    pub total_amount_bits: u64,
    pub ship_date: String,
    pub payment_date: String,
    pub origin_party: String,
    pub items: Vec<Item>,
}

/// The request to mark a purchase order as received.
#[derive(Debug)]
pub struct ReceivePO {
    pub po_number: String,
    pub party: String,
    pub date: String,
}

/// What a payload asks for.
#[derive(Debug, Clone, Copy, PartialEq, Eq, Structural)]
pub enum POAction {
    CreatePo,
    ReceivePo,
    /// An action this family does not know.
    Unrecognized,
}

/// A transaction of the purchase-order family: the action and the request
/// of each kind (a request that is not used is empty).
#[derive(Debug)]
pub struct POPayload {
    pub action: POAction,
    pub create_po: CreatePO,
    pub receive_po: ReceivePO,
}

/// The address of the purchase orders numbered `po_number`.
pub open spec fn po_address(po_number: Seq<char>) -> Seq<char> {
    address_for(PO_NAMESPACE@, po_number)
}

/// The address of the purchase orders numbered `po_number`.
pub fn compute_po_address(po_number: &str) -> (r: String)
    ensures
        r@ == po_address(po_number@),
        r@.len() == 70,
        forall|i: int| 6 <= i < 70 ==> is_lower_hex(#[trigger] r@[i]),
{
    proof {
        reveal_strlit("000008");
    }
    namespaced_address(PO_NAMESPACE, po_number)
}

/// The purchase orders' state as a transaction sees it.
pub struct POState {
    context: StateContext<PO>,
}

impl View for POState {
    type V = Seq<SlotView<POView>>;

    closed spec fn view(&self) -> Seq<SlotView<POView>> {
        self.context@
    }
}

/// What looking up the purchase order numbered `po_number` gives.
pub open spec fn po_found(state: Seq<SlotView<POView>>, po_number: Seq<char>) -> Result<
    Option<POView>,
    Failure,
> {
    read_record::<PO>(state, po_address(po_number), po_number, "Cannot deserialize po list: "@)
}

/// The state after `po` is written under the number `po_number`.
pub open spec fn po_written(
    state: Seq<SlotView<POView>>,
    po_number: Seq<char>,
    po: POView,
) -> Result<Seq<SlotView<POView>>, Failure> {
    write_record::<PO>(state, po_address(po_number), po_number, po, "Cannot decode the po list"@)
}

impl POState {
    /// The purchase orders' state over `context`.
    pub fn new(context: StateContext<PO>) -> (r: Self)
        ensures
            r@ == context@,
    {
        POState { context }
    }

    /// The context, with what the transaction wrote.
    pub fn into_context(self) -> (r: StateContext<PO>)
        ensures
            r@ == self@,
    {
        self.context
    }

    /// The purchase order numbered `po_number`, if any.
    pub fn get_po(&mut self, po_number: &str) -> (r: Result<Option<PO>, ApplyError>)
        ensures
            final(self)@ == old(self)@,
            found_view(r) == po_found(old(self)@, po_number@),
    {
        let address = compute_po_address(po_number);
        get_record(&self.context, address.as_str(), po_number, "Cannot deserialize po list: ")
    }

    /// Writes `new_po` in place of the purchase order numbered `po_number`.
    pub fn set_po(&mut self, po_number: &str, new_po: PO) -> (r: Result<(), ApplyError>)
        ensures
            applied(r, old(self)@, final(self)@, po_written(old(self)@, po_number@, new_po@)),
    {
        let address = compute_po_address(po_number);
        set_record(&mut self.context, address, po_number, new_po, "Cannot decode the po list")
    }
}

/// The purchase order that `payload` places: its fields, without order
/// lines, with the originating party's step as ordered (and no date).
pub open spec fn created_po(payload: CreatePO) -> POView {
    POView {
        po_number: payload.po_number@,
        po_date: payload.po_date@,
        total_amount_bits: payload.total_amount_bits,
        ship_date: payload.ship_date@,
        payment_date: payload.payment_date@,
        origin_party: payload.origin_party@,
        items: Seq::empty(),
        order_status_history: seq![
            POStatusView {
                party: payload.origin_party@,
                date: Seq::empty(),
                status: OrderStatus::Ordered,
            },
        ],
    }
}

/// The outcome of placing a purchase order: refused when one of that number
/// exists or the state cannot be read; otherwise the new order is written.
pub open spec fn po_creation(state: Seq<SlotView<POView>>, payload: CreatePO) -> Result<
    Seq<SlotView<POView>>,
    Failure,
> {
    match po_found(state, payload.po_number@) {
        Err(f) => Err(Failure::InvalidTransaction("Failed to retrieve state: "@ + failure_text(f))),
        Ok(Some(_)) => Err(Failure::InvalidTransaction("PO already exists: "@ + payload.po_number@)),
        Ok(None) => match po_written(state, payload.po_number@, created_po(payload)) {
            Ok(after) => Ok(after),
            Err(f) => Err(Failure::InternalError("Failed to create po: "@ + failure_debug(f))),
        },
    }
}

/// `po` with a received step by `party` on `date` appended to its history.
pub open spec fn received(po: POView, party: Seq<char>, date: Seq<char>) -> POView {
    POView {
        order_status_history: po.order_status_history.push(
            POStatusView { party, date, status: OrderStatus::Received },
        ),
        ..po
    }
}

/// The outcome of receiving a purchase order: refused when none of that
/// number exists or the state cannot be read; otherwise the order is written
/// back with the received step appended.
pub open spec fn po_receipt(state: Seq<SlotView<POView>>, payload: ReceivePO) -> Result<
    Seq<SlotView<POView>>,
    Failure,
> {
    match po_found(state, payload.po_number@) {
        Err(f) => Err(Failure::InvalidTransaction("Failed to retrieve state: "@ + failure_text(f))),
        Ok(None) => Err(Failure::InvalidTransaction("PO does not exists : "@ + payload.po_number@)),
        Ok(Some(po)) => match po_written(
            state,
            payload.po_number@,
            received(po, payload.party@, payload.date@),
        ) {
            Ok(after) => Ok(after),
            Err(f) => Err(
                Failure::InternalError(
                    "Failed to change the status of the po tp received: "@ + failure_debug(f),
                ),
            ),
        },
    }
}

/// Places the purchase order that `payload` describes.
pub fn create_po(payload: &CreatePO, state: &mut POState) -> (r: Result<(), ApplyError>)
    ensures
        applied(r, old(state)@, final(state)@, po_creation(old(state)@, *payload)),
{
    match state.get_po(payload.po_number.as_str()) {
        Ok(None) => {},
        Ok(Some(_)) => {
            return Err(
                ApplyError::InvalidTransaction(
                    join("PO already exists: ", payload.po_number.as_str()),
                ),
            );
        },
        Err(err) => {
            let text = err.describe();
            return Err(
                ApplyError::InvalidTransaction(join("Failed to retrieve state: ", text.as_str())),
            );
        },
    }
    let mut order_status_history: Vec<POStatus> = Vec::new();
    order_status_history.push(
        POStatus {
            party: payload.origin_party.clone(),
            date: String::new(),
            status: OrderStatus::Ordered,
        },
    );
    let items: Vec<Item> = Vec::new();
    let po = PO {
        po_number: payload.po_number.clone(),
        po_date: payload.po_date.clone(),
        total_amount_bits: payload.total_amount_bits,
        ship_date: payload.ship_date.clone(),
        payment_date: payload.payment_date.clone(),
        origin_party: payload.origin_party.clone(),
        items,
        order_status_history,
    };
    assert(po@ == created_po(*payload)) by {
        assert(views(po.items@) =~= Seq::<ItemView>::empty());
        assert(views(po.order_status_history@) =~= created_po(*payload).order_status_history);
    }
    match state.set_po(payload.po_number.as_str(), po) {
        Ok(()) => Ok(()),
        Err(e) => {
            let text = e.debug_text();
            Err(ApplyError::InternalError(join("Failed to create po: ", text.as_str())))
        },
    }
}

/// Marks the purchase order that `payload` names as received.
pub fn receive_po(payload: &ReceivePO, state: &mut POState) -> (r: Result<(), ApplyError>)
    ensures
        applied(r, old(state)@, final(state)@, po_receipt(old(state)@, *payload)),
{
    let mut po = match state.get_po(payload.po_number.as_str()) {
        Ok(None) => {
            return Err(
                ApplyError::InvalidTransaction(
                    join("PO does not exists : ", payload.po_number.as_str()),
                ),
            );
        },
        Ok(Some(po)) => po,
        Err(err) => {
            let text = err.describe();
            return Err(
                ApplyError::InvalidTransaction(join("Failed to retrieve state: ", text.as_str())),
            );
        },
    };
    let ghost found = po@;
    po.order_status_history.push(
        POStatus {
            party: payload.party.clone(),
            date: payload.date.clone(),
            status: OrderStatus::Received,
        },
    );
    assert(po@ == received(found, payload.party@, payload.date@)) by {
        assert(views(po.order_status_history@) =~= received(
            found,
            payload.party@,
            payload.date@,
        ).order_status_history);
    }
    match state.set_po(payload.po_number.as_str(), po) {
        Ok(()) => Ok(()),
        Err(e) => {
            let text = e.debug_text();
            Err(
                ApplyError::InternalError(
                    join("Failed to change the status of the po tp received: ", text.as_str()),
                ),
            )
        },
    }
}

/// The transaction handler of the purchase-order family.
pub struct POTransactionHandler {
    family_name: String,
    family_versions: Vec<String>,
    namespaces: Vec<String>,
}

impl View for POTransactionHandler {
    type V = (Seq<char>, Seq<Seq<char>>, Seq<Seq<char>>);

    closed spec fn view(&self) -> (Seq<char>, Seq<Seq<char>>, Seq<Seq<char>>) {
        (self.family_name@, views(self.family_versions@), views(self.namespaces@))
    }
}

/// What handling a transaction of the purchase-order family does: a payload
/// that could not be parsed, or whose action is unknown, is refused;
/// otherwise the action it names is carried out.
pub open spec fn po_handling(state: Seq<SlotView<POView>>, payload: Option<POPayload>) -> Result<
    Seq<SlotView<POView>>,
    Failure,
> {
    match payload {
        None => Err(Failure::InternalError("Failed to parse po payload"@)),
        Some(p) => match p.action {
            POAction::CreatePo => po_creation(state, p.create_po),
            POAction::ReceivePo => po_receipt(state, p.receive_po),
            POAction::Unrecognized => Err(Failure::InvalidTransaction("Invalid action"@)),
        },
    }
}

/// The one address a transaction of this payload reads and writes: that of
/// the record its action names; none for an unknown action.
pub open spec fn po_payload_address(payload: POPayload) -> Option<Seq<char>> {
    match payload.action {
        POAction::CreatePo => Some(po_address(payload.create_po.po_number@)),
        POAction::ReceivePo => Some(po_address(payload.receive_po.po_number@)),
        POAction::Unrecognized => None,
    }
}

impl POTransactionHandler {
    /// The handler of family `purchase-order`, version `0.1`, in namespace `000008`.
    pub fn new() -> (r: Self)
        ensures
            r@ == ("purchase-order"@, seq!["0.1"@], seq![PO_NAMESPACE@]),
    {
        let r = POTransactionHandler {
            family_name: "purchase-order".to_string(),
            family_versions: vec!["0.1".to_string()],
            namespaces: vec![PO_NAMESPACE.to_string()],
        };
        assert(r@.1 =~= seq!["0.1"@]);
        assert(r@.2 =~= seq![PO_NAMESPACE@]);
        r
    }

    /// The address whose entry a transaction of `payload` reads: the
    /// handler decides from that entry alone and writes nowhere else.
    pub fn read_address(&self, payload: &POPayload) -> (r: Option<String>)
        ensures
            match r {
                Some(a) => po_payload_address(*payload) == Some(a@),
                None => po_payload_address(*payload) is None,
            },
    {
        match payload.action {
            POAction::CreatePo => Some(compute_po_address(payload.create_po.po_number.as_str())),
            POAction::ReceivePo => Some(compute_po_address(payload.receive_po.po_number.as_str())),
            POAction::Unrecognized => None,
        }
    }

    /// The family's name.
    pub fn family_name(&self) -> (r: String)
        ensures
            r@ == self@.0,
    {
        self.family_name.clone()
    }

    /// The family's versions.
    pub fn family_versions(&self) -> (r: Vec<String>)
        ensures
            views(r@) == self@.1,
    {
        copy_all(&self.family_versions)
    }

    /// The namespaces of the family's addresses.
    pub fn namespaces(&self) -> (r: Vec<String>)
        ensures
            views(r@) == self@.2,
    {
        copy_all(&self.namespaces)
    }

    /// Handles a transaction whose payload is `payload` (`None` when it could
    /// not be parsed).
    pub fn apply(&self, payload: Option<&POPayload>, state: &mut POState) -> (r: Result<
        (),
        ApplyError,
    >)
        ensures
            applied(
                r,
                old(state)@,
                final(state)@,
                po_handling(old(state)@, match payload {
                    Some(p) => Some(*p),
                    None => None,
                }),
            ),
    {
        match payload {
            None => Err(ApplyError::InternalError("Failed to parse po payload".to_string())),
            Some(p) => match p.action {
                POAction::CreatePo => create_po(&p.create_po, state),
                POAction::ReceivePo => receive_po(&p.receive_po, state),
                POAction::Unrecognized => Err(
                    ApplyError::InvalidTransaction("Invalid action".to_string()),
                ),
            },
        }
    }

    /// The error of a transaction whose written purchase orders could not be
    /// committed: the failure, wrapped as the action's write failure.
    pub fn commit_error(&self, payload: &POPayload, failure: &CommitFailure) -> (r: ApplyError)
        requires
            payload.action != POAction::Unrecognized,
        ensures
            r@ == Failure::InternalError(
                (if payload.action == POAction::CreatePo {
                    "Failed to create po: "@
                } else {
                    "Failed to change the status of the po tp received: "@
                }) + failure_debug(commit_failure(*failure, "Cannot serialize po list"@)),
            ),
    {
        let inner = commit_error(failure, "Cannot serialize po list");
        let text = inner.debug_text();
        match payload.action {
            POAction::CreatePo => ApplyError::InternalError(
                join("Failed to create po: ", text.as_str()),
            ),
            _ => ApplyError::InternalError(
                join("Failed to change the status of the po tp received: ", text.as_str()),
            ),
        }
    }
}

/// Runs a transaction as a Sabre contract does: `true` when it was applied.
pub fn apply(payload: Option<&POPayload>, state: &mut POState) -> (r: Result<bool, ApplyError>)
    ensures
        applied(
            match r {
                Ok(_) => Ok(()),
                Err(e) => Err(e),
            },
            old(state)@,
            final(state)@,
            po_handling(old(state)@, match payload {
                Some(p) => Some(*p),
                None => None,
            }),
        ),
        r matches Ok(b) ==> b,
{
    let handler = POTransactionHandler::new();
    match handler.apply(payload, state) {
        Ok(_) => Ok(true),
        Err(err) => Err(err),
    }
}

/// Law: once a purchase order is placed, looking up its number finds it,
/// with the originating party's step as ordered.
pub proof fn law_created_po_is_found(state: Seq<SlotView<POView>>, payload: CreatePO)
    requires
        po_creation(state, payload) is Ok,
    ensures
        po_found(po_creation(state, payload)->Ok_0, payload.po_number@) == Ok::<
            Option<POView>,
            Failure,
        >(Some(created_po(payload))),
{
    let n = payload.po_number@;
    lemma_not_found_is_single::<PO>(state, po_address(payload.po_number@), payload.po_number@, "Cannot deserialize po list: "@);
    law_read_after_write::<PO>(
        state,
        po_address(n),
        n,
        created_po(payload),
        "Cannot decode the po list"@,
        "Cannot deserialize po list: "@,
    );
}

/// Law: a purchase order cannot be placed twice; the second request is
/// refused as an invalid transaction that names the order.
pub proof fn law_second_po_refused(state: Seq<SlotView<POView>>, payload: CreatePO)
    requires
        po_creation(state, payload) is Ok,
    ensures
        po_creation(po_creation(state, payload)->Ok_0, payload) == Err::<
            Seq<SlotView<POView>>,
            Failure,
        >(Failure::InvalidTransaction("PO already exists: "@ + payload.po_number@)),
{
    law_created_po_is_found(state, payload);
}

/// Law: placing a purchase order changes nothing that a lookup of another
/// number finds.
pub proof fn law_po_creation_leaves_others(
    state: Seq<SlotView<POView>>,
    payload: CreatePO,
    other: Seq<char>,
)
    requires
        po_creation(state, payload) is Ok,
        other != payload.po_number@,
    ensures
        po_found(po_creation(state, payload)->Ok_0, other) == po_found(state, other),
{
    law_read_other_after_write::<PO>(
        state,
        po_address(payload.po_number@),
        payload.po_number@,
        created_po(payload),
        "Cannot decode the po list"@,
        po_address(other),
        other,
        "Cannot deserialize po list: "@,
    );
}

/// Law: after a purchase order is received, it is found with the received
/// step after the steps it had.
pub proof fn law_received_po_is_found(state: Seq<SlotView<POView>>, payload: ReceivePO)
    requires
        single_at::<PO>(state, po_address(payload.po_number@), payload.po_number@),
        po_receipt(state, payload) is Ok,
    ensures
        po_found(state, payload.po_number@) matches Ok(Some(before)) && po_found(
            po_receipt(state, payload)->Ok_0,
            payload.po_number@,
        ) == Ok::<Option<POView>, Failure>(
            Some(received(before, payload.party@, payload.date@)),
        ),
{
    let n = payload.po_number@;
    let before = po_found(state, n)->Ok_0->Some_0;
    let after = received(before, payload.party@, payload.date@);
    crate::record::lemma_index_of_key::<PO>(
        match crate::state::entry_at::<PO>(state, po_address(n)) {
            crate::state::Stored::Present(l) => l,
            _ => Seq::empty(),
        },
        n,
    );
    law_read_after_write::<PO>(
        state,
        po_address(n),
        n,
        after,
        "Cannot decode the po list"@,
        "Cannot deserialize po list: "@,
    );
}

/// Law: receiving a purchase order changes nothing that a lookup of another
/// number finds.
pub proof fn law_po_receipt_leaves_others(
    state: Seq<SlotView<POView>>,
    payload: ReceivePO,
    other: Seq<char>,
)
    requires
        po_receipt(state, payload) is Ok,
        other != payload.po_number@,
    ensures
        po_found(po_receipt(state, payload)->Ok_0, other) == po_found(state, other),
{
    let n = payload.po_number@;
    let before = po_found(state, n)->Ok_0->Some_0;
    crate::record::lemma_index_of_key::<PO>(
        match crate::state::entry_at::<PO>(state, po_address(n)) {
            crate::state::Stored::Present(l) => l,
            _ => Seq::empty(),
        },
        n,
    );
    law_read_other_after_write::<PO>(
        state,
        po_address(n),
        n,
        received(before, payload.party@, payload.date@),
        "Cannot decode the po list"@,
        po_address(other),
        other,
        "Cannot deserialize po list: "@,
    );
}

/// Law: every transaction the handler applies keeps each stored list free
/// of two records with the same key.
pub proof fn law_handling_keeps_keys_unique(
    state: Seq<SlotView<POView>>,
    payload: Option<POPayload>,
)
    requires
        keys_unique_everywhere::<PO>(state),
        po_handling(state, payload) is Ok,
    ensures
        keys_unique_everywhere::<PO>(po_handling(state, payload)->Ok_0),
{
    match payload {
        Some(p) => {
            match p.action {
                POAction::CreatePo => {
                    let q = p.create_po;
                    law_write_keeps_keys_unique::<PO>(
                        state,
                        po_address(q.po_number@),
                        q.po_number@,
                        created_po(q),
                        "Cannot decode the po list"@,
                    );
                },
                POAction::ReceivePo => {
                    let q = p.receive_po;
                    let k = q.po_number@;
                    let before = po_found(state, k)->Ok_0->Some_0;
                    crate::record::lemma_index_of_key::<PO>(
                        match crate::state::entry_at::<PO>(state, po_address(k)) {
                            crate::state::Stored::Present(l) => l,
                            _ => Seq::empty(),
                        },
                        k,
                    );
                    law_write_keeps_keys_unique::<PO>(
                        state,
                        po_address(k),
                        k,
                        received(before, q.party@, q.date@),
                        "Cannot decode the po list"@,
                    );
                },
                _ => {},
            }
        },
        None => {},
    }
}

/// Law: what a transaction does depends only on the entry at the address
/// its payload names: two states with the same entry there get the same
/// outcome and the same entry written there, and no other address changes.
pub proof fn law_handling_reads_only_payload_address(
    state: Seq<SlotView<POView>>,
    other_state: Seq<SlotView<POView>>,
    payload: POPayload,
    elsewhere: Seq<char>,
)
    requires
        po_payload_address(payload) matches Some(a) ==> entry_at::<PO>(state, a) == entry_at::<PO>(
            other_state,
            a,
        ),
    ensures
        po_handling(state, Some(payload)) is Ok <==> po_handling(other_state, Some(payload)) is Ok,
        po_handling(state, Some(payload)) is Err ==> po_handling(state, Some(payload)) == po_handling(
            other_state,
            Some(payload),
        ),
        po_handling(state, Some(payload)) is Ok ==> (po_payload_address(payload) matches Some(a)
            && entry_at::<PO>(po_handling(state, Some(payload))->Ok_0, a) == entry_at::<PO>(
            po_handling(other_state, Some(payload))->Ok_0,
            a,
        ) && (elsewhere != a ==> entry_at::<PO>(po_handling(state, Some(payload))->Ok_0, elsewhere)
            == entry_at::<PO>(state, elsewhere))),
{
    if let Some(a) = po_payload_address(payload) {
        let list = match entry_at::<PO>(state, a) {
            Stored::Present(l) => l,
            _ => Seq::empty(),
        };
        let k = match payload.action {
            POAction::CreatePo => payload.create_po.po_number@,
            _ => payload.receive_po.po_number@,
        };
        assert forall|v: POView| #![auto] true implies {
            &&& entry_at::<PO>(stored::<PO>(state, a, upsert::<PO>(list, k, v)), a)
                == Stored::<POView>::Present(upsert::<PO>(list, k, v))
            &&& entry_at::<PO>(stored::<PO>(other_state, a, upsert::<PO>(list, k, v)), a)
                == Stored::<POView>::Present(upsert::<PO>(list, k, v))
            &&& (elsewhere != a ==> entry_at::<PO>(
                stored::<PO>(state, a, upsert::<PO>(list, k, v)),
                elsewhere,
            ) == entry_at::<PO>(state, elsewhere))
        } by {
            law_fetch_after_store::<PO>(state, a, upsert::<PO>(list, k, v));
            law_fetch_after_store::<PO>(other_state, a, upsert::<PO>(list, k, v));
            if elsewhere != a {
                law_fetch_other_after_store::<PO>(state, a, upsert::<PO>(list, k, v), elsewhere);
            }
        }
    }
}

/// Law: writing the same record twice under its po number leaves the state as
/// writing it once does, when the list at its address held at most one
/// record of that po number.
pub proof fn law_po_written_twice(state: Seq<SlotView<POView>>, key: Seq<char>, record: POView)
    requires
        single_at::<PO>(state, po_address(key), key),
        PO::key_of(record) == key,
        po_written(state, key, record) is Ok,
    ensures
        po_written(po_written(state, key, record)->Ok_0, key, record) == po_written(state, key, record),
{
    law_write_twice::<PO>(state, po_address(key), key, record, "Cannot decode the po list"@);
}

/// Law: placing a purchase order whose number is not yet taken, in a
/// readable state, succeeds, and the order then found under that number
/// carries exactly the requested number, dates, total amount and
/// originating party, no order lines, and a single step: ordered by the
/// originating party, with no date.
pub proof fn law_po_creation_stores_the_request(state: Seq<SlotView<POView>>, payload: CreatePO)
    requires
        po_found(state, payload.po_number@) == Ok::<Option<POView>, Failure>(None),
    ensures
        po_creation(state, payload) is Ok,
        po_found(po_creation(state, payload)->Ok_0, payload.po_number@) matches Ok(Some(o)) && {
            &&& o.po_number == payload.po_number@
            &&& o.po_date == payload.po_date@
            &&& o.total_amount_bits == payload.total_amount_bits
            &&& o.ship_date == payload.ship_date@
            &&& o.payment_date == payload.payment_date@
            &&& o.origin_party == payload.origin_party@
            &&& o.items.len() == 0
            &&& o.order_status_history.len() == 1
            &&& o.order_status_history[0].party == payload.origin_party@
            &&& o.order_status_history[0].date.len() == 0
            &&& o.order_status_history[0].status == OrderStatus::Ordered
        },
{
    assert(po_creation(state, payload) is Ok);
    law_created_po_is_found(state, payload);
}

/// Law: receiving an existing purchase order, in a state whose list at its
/// address holds it once, succeeds and changes only its history: the order
/// found afterwards has the same number, dates, total amount, originating
/// party and order lines as before, and its steps are those it had followed
/// by a received step with the given party and date.
pub proof fn law_receipt_only_appends(state: Seq<SlotView<POView>>, payload: ReceivePO)
    requires
        single_at::<PO>(state, po_address(payload.po_number@), payload.po_number@),
        po_found(state, payload.po_number@) matches Ok(Some(_)),
    ensures
        po_receipt(state, payload) is Ok,
        po_found(state, payload.po_number@) matches Ok(Some(b)) && po_found(
            po_receipt(state, payload)->Ok_0,
            payload.po_number@,
        ) matches Ok(Some(o)) && {
            &&& o.po_number == b.po_number
            &&& o.po_date == b.po_date
            &&& o.total_amount_bits == b.total_amount_bits
            &&& o.ship_date == b.ship_date
            &&& o.payment_date == b.payment_date
            &&& o.origin_party == b.origin_party
            &&& o.items == b.items
            &&& o.order_status_history.len() == b.order_status_history.len() + 1
            &&& o.order_status_history.take(b.order_status_history.len() as int)
                == b.order_status_history
            &&& o.order_status_history.last().party == payload.party@
            &&& o.order_status_history.last().date == payload.date@
            &&& o.order_status_history.last().status == OrderStatus::Received
        },
{
    assert(po_receipt(state, payload) is Ok);
    law_received_po_is_found(state, payload);
    let b = po_found(state, payload.po_number@)->Ok_0->Some_0;
    let o = received(b, payload.party@, payload.date@);
    assert(o.order_status_history.take(b.order_status_history.len() as int)
        =~= b.order_status_history);
}

/// Law: creating a purchase order whose key is already taken is refused as an
/// invalid transaction, and creating one when the state at its address
/// cannot be read or decoded is refused with that failure's text.
pub proof fn law_po_creation_refusals(state: Seq<SlotView<POView>>, payload: CreatePO)
    ensures
        po_found(state, payload.po_number@) matches Ok(Some(_)) ==> po_creation(state, payload) == Err::<
            Seq<SlotView<POView>>,
            Failure,
        >(Failure::InvalidTransaction("PO already exists: "@ + payload.po_number@)),
        po_found(state, payload.po_number@) matches Err(f) ==> po_creation(state, payload) == Err::<
            Seq<SlotView<POView>>,
            Failure,
        >(Failure::InvalidTransaction("Failed to retrieve state: "@ + failure_text(f))),
{
}

/// Law: changing a purchase order that does not exist is refused as an invalid
/// transaction naming it, and changing one when the state at its address
/// cannot be read or decoded is refused with that failure's text.
pub proof fn law_po_change_refusals(state: Seq<SlotView<POView>>, payload: ReceivePO)
    ensures
        po_found(state, payload.po_number@) == Ok::<Option<POView>, Failure>(None) ==> po_receipt(
            state,
            payload,
        ) == Err::<Seq<SlotView<POView>>, Failure>(Failure::InvalidTransaction("PO does not exists : "@ + payload.po_number@)),
        po_found(state, payload.po_number@) matches Err(f) ==> po_receipt(state, payload) == Err::<
            Seq<SlotView<POView>>,
            Failure,
        >(Failure::InvalidTransaction("Failed to retrieve state: "@ + failure_text(f))),
{
}

} // verus!
