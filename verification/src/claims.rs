//! The agreement family: an organisation issues an agreement on a GTIN, and
//! other parties record that they agree to it.

use vstd::prelude::*;
use vstd::string::*;
use crate::address::{address_for, is_lower_hex, namespaced_address};
use crate::error::{ApplyError, Failure, failure_text, failure_debug};
use crate::ledger::{
    applied, found_view, read_record, write_record, get_record, set_record,
    CommitFailure, commit_failure, commit_error, keys_unique_everywhere, law_read_after_write,
    law_write_twice, single_at, lemma_not_found_is_single,
    law_read_other_after_write, law_write_keeps_keys_unique,
};
use crate::record::{Duplicate, Record, views, copy_all, upsert};
use crate::state::{
    SlotView, StateContext, Stored, entry_at, stored, law_fetch_after_store,
    law_fetch_other_after_store,
};
use crate::text::join;

verus! {

/// The namespace of the agreement family's addresses.
pub const AGREEMENT_NAMESPACE: &'static str = "000004";

/// Where a party stands on an agreement.
#[derive(Debug, Clone, Copy, PartialEq, Eq, Structural)]
pub enum AgreementStatusKind {
    Initiated,
    Agreed,
}

/// One party's standing on an agreement.
#[derive(Debug)]
pub struct AgreementStatus {
    pub party: String,
    pub status: AgreementStatusKind,
}

/// An agreement status by its views.
pub struct AgreementStatusView {
    pub party: Seq<char>,
    pub status: AgreementStatusKind,
}

impl View for AgreementStatus {
    type V = AgreementStatusView;

    open spec fn view(&self) -> AgreementStatusView {
        AgreementStatusView { party: self.party@, status: self.status }
    }
}

impl Duplicate for AgreementStatus {
    fn duplicate(&self) -> (d: Self) {
        AgreementStatus { party: self.party.clone(), status: self.status }
    }
}

/// An agreement, kept under its name. The price is held as the bits of its
/// IEEE-754 double-precision value.
#[derive(Debug)]
pub struct Agreement {
    pub name: String,
    pub gtin: String,
    pub price_bits: u64,
    pub effective_date: String,
    pub termination_date: String,
    pub unit_of_quantity: String,
    pub payment_term: String,
    pub origin_party: String,
    /// The standing of each party, in the order it was recorded.
    pub agreement_status: Vec<AgreementStatus>,
}

/// An agreement by its views.
pub struct AgreementView {
    pub name: Seq<char>,
    pub gtin: Seq<char>,
    pub price_bits: u64,
    pub effective_date: Seq<char>,
    pub termination_date: Seq<char>,
    pub unit_of_quantity: Seq<char>,
    pub payment_term: Seq<char>,
    pub origin_party: Seq<char>,
    pub agreement_status: Seq<AgreementStatusView>,
}

impl View for Agreement {
    type V = AgreementView;

    open spec fn view(&self) -> AgreementView {
        AgreementView {
            name: self.name@,
            gtin: self.gtin@,
            price_bits: self.price_bits,
            effective_date: self.effective_date@,
            termination_date: self.termination_date@,
            unit_of_quantity: self.unit_of_quantity@,
            payment_term: self.payment_term@,
            origin_party: self.origin_party@,
            agreement_status: views(self.agreement_status@),
        }
    }
}

impl Duplicate for Agreement {
    fn duplicate(&self) -> (d: Self) {
        Agreement {
            name: self.name.clone(),
            gtin: self.gtin.clone(),
            price_bits: self.price_bits,
            effective_date: self.effective_date.clone(),
            termination_date: self.termination_date.clone(),
            unit_of_quantity: self.unit_of_quantity.clone(),
            payment_term: self.payment_term.clone(),
            origin_party: self.origin_party.clone(),
            agreement_status: copy_all(&self.agreement_status),
        }
    }
}

impl Record for Agreement {
    open spec fn key_of(v: AgreementView) -> Seq<char> {
        v.name
    }

    fn key(&self) -> (k: &String) {
        &self.name
    }
}

/// The request to create an agreement.
#[derive(Debug)]
pub struct CreateAgreement {
    pub name: String,
    pub gtin: String,
    pub price_bits: u64,
    pub effective_date: String,
    pub termination_date: String,
    pub unit_of_quantity: String,
    pub payment_term: String,
    pub origin_party: String,
}

/// The request by which a party agrees to an agreement.
#[derive(Debug)]
pub struct SetAgreementStatus {
    pub name: String,
    pub party: String,
}

/// What a payload asks for.
#[derive(Debug, Clone, Copy, PartialEq, Eq, Structural)]
pub enum AgreementAction {
    CreateAgreement,
    SetAgreementStatus,
    /// An action this family does not know.
    Unrecognized,
}

/// A transaction of the agreement family: the action and the request of
/// each kind (a request that is not used is empty).
#[derive(Debug)]
pub struct AgreementPayload {
    pub action: AgreementAction,
    pub create_agreement: CreateAgreement,
    pub set_agreement_status: SetAgreementStatus,
}

/// The address of the agreements named `name`.
pub open spec fn agreement_address(name: Seq<char>) -> Seq<char> {
    address_for(AGREEMENT_NAMESPACE@, name)
}

/// The address of the agreements named `name`.
pub fn compute_agreement_address(name: &str) -> (r: String)
    ensures
        r@ == agreement_address(name@),
        r@.len() == 70,
        forall|i: int| 6 <= i < 70 ==> is_lower_hex(#[trigger] r@[i]),
{
    proof {
        reveal_strlit("000004");
    }
    namespaced_address(AGREEMENT_NAMESPACE, name)
}

/// The agreements' state as a transaction sees it.
pub struct AgreementState {
    context: StateContext<Agreement>,
}

impl View for AgreementState {
    type V = Seq<SlotView<AgreementView>>;

    closed spec fn view(&self) -> Seq<SlotView<AgreementView>> {
        self.context@
    }
}

/// What looking up the agreement named `name` gives.
pub open spec fn agreement_found(
    state: Seq<SlotView<AgreementView>>,
    name: Seq<char>,
) -> Result<Option<AgreementView>, Failure> {
    read_record::<Agreement>(
        state,
        agreement_address(name),
        name,
        "Cannot deserialize agreement list: "@,
    )
}

/// The state after `agreement` is written under the name `name`.
pub open spec fn agreement_written(
    state: Seq<SlotView<AgreementView>>,
    name: Seq<char>,
    agreement: AgreementView,
) -> Result<Seq<SlotView<AgreementView>>, Failure> {
    write_record::<Agreement>(
        state,
        agreement_address(name),
        name,
        agreement,
        "Cannot decode the agreement list"@,
    )
}

impl AgreementState {
    /// The agreements' state over `context`.
    pub fn new(context: StateContext<Agreement>) -> (r: Self)
        ensures
            r@ == context@,
    {
        AgreementState { context }
    }

    /// The context, with what the transaction wrote.
    pub fn into_context(self) -> (r: StateContext<Agreement>)
        ensures
            r@ == self@,
    {
        self.context
    }

    /// The agreement named `name`, if any.
    pub fn get_agreement(&mut self, name: &str) -> (r: Result<Option<Agreement>, ApplyError>)
        ensures
            final(self)@ == old(self)@,
            found_view(r) == agreement_found(old(self)@, name@),
    {
        let address = compute_agreement_address(name);
        get_record(&self.context, address.as_str(), name, "Cannot deserialize agreement list: ")
    }

    /// Writes `new_agreement` in place of the agreement named `name`.
    pub fn set_agreement(&mut self, name: &str, new_agreement: Agreement) -> (r: Result<
        (),
        ApplyError,
    >)
        ensures
            applied(
                r,
                old(self)@,
                final(self)@,
                agreement_written(old(self)@, name@, new_agreement@),
            ),
    {
        let address = compute_agreement_address(name);
        set_record(&mut self.context, address, name, new_agreement, "Cannot decode the agreement list")
    }
}

/// The agreement that `payload` creates: its fields, with the originating
/// party's standing as initiated.
pub open spec fn created_agreement(payload: CreateAgreement) -> AgreementView {
    AgreementView {
        name: payload.name@,
        gtin: payload.gtin@,
        price_bits: payload.price_bits,
        effective_date: payload.effective_date@,
        termination_date: payload.termination_date@,
        unit_of_quantity: payload.unit_of_quantity@,
        payment_term: payload.payment_term@,
        origin_party: payload.origin_party@,
        agreement_status: seq![
            AgreementStatusView {
                party: payload.origin_party@,
                status: AgreementStatusKind::Initiated,
            },
        ],
    }
}

/// The outcome of creating an agreement: refused when one of that name
/// exists or the state cannot be read; otherwise the new agreement is
/// written.
pub open spec fn creation(
    state: Seq<SlotView<AgreementView>>,
    payload: CreateAgreement,
) -> Result<Seq<SlotView<AgreementView>>, Failure> {
    match agreement_found(state, payload.name@) {
        Err(f) => Err(Failure::InvalidTransaction("Failed to retrieve state: "@ + failure_text(f))),
        Ok(Some(_)) => Err(Failure::InvalidTransaction("Agreement already exists: "@ + payload.gtin@)),
        Ok(None) => match agreement_written(state, payload.name@, created_agreement(payload)) {
            Ok(after) => Ok(after),
            Err(f) => Err(Failure::InternalError("Failed to create agreement: "@ + failure_debug(f))),
        },
    }
}

/// `agreement` with the standing of `party` recorded as agreed.
pub open spec fn agreed_by(agreement: AgreementView, party: Seq<char>) -> AgreementView {
    AgreementView {
        agreement_status: agreement.agreement_status.push(
            AgreementStatusView { party, status: AgreementStatusKind::Agreed },
        ),
        ..agreement
    }
}

/// The outcome of a party agreeing: refused when no agreement of that name
/// exists or the state cannot be read; otherwise the agreement is written
/// back with the party's standing appended.
pub open spec fn status_setting(
    state: Seq<SlotView<AgreementView>>,
    payload: SetAgreementStatus,
) -> Result<Seq<SlotView<AgreementView>>, Failure> {
    match agreement_found(state, payload.name@) {
        Err(f) => Err(Failure::InvalidTransaction("Failed to retrieve state: "@ + failure_text(f))),
        Ok(None) => Err(Failure::InvalidTransaction("Agreement does not exists : "@ + payload.name@)),
        Ok(Some(a)) => match agreement_written(state, payload.name@, agreed_by(a, payload.party@)) {
            Ok(after) => Ok(after),
            Err(f) => Err(
                Failure::InternalError("Failed to update the agreement: "@ + failure_debug(f)),
            ),
        },
    }
}

/// Creates the agreement that `payload` describes.
pub fn create_agreement(payload: &CreateAgreement, state: &mut AgreementState) -> (r: Result<
    (),
    ApplyError,
>)
    ensures
        applied(r, old(state)@, final(state)@, creation(old(state)@, *payload)),
{
    match state.get_agreement(payload.name.as_str()) {
        Ok(None) => {},
        Ok(Some(_)) => {
            return Err(
                ApplyError::InvalidTransaction(
                    join("Agreement already exists: ", payload.gtin.as_str()),
                ),
            );
        },
        Err(err) => {
            let text = err.describe();
            return Err(
                ApplyError::InvalidTransaction(join("Failed to retrieve state: ", text.as_str())),
            );
        },
    }
    let mut agreement_status: Vec<AgreementStatus> = Vec::new();
    agreement_status.push(
        AgreementStatus {
            party: payload.origin_party.clone(),
            status: AgreementStatusKind::Initiated,
        },
    );
    let agreement = Agreement {
        name: payload.name.clone(),
        gtin: payload.gtin.clone(),
        price_bits: payload.price_bits,
        effective_date: payload.effective_date.clone(),
        termination_date: payload.termination_date.clone(),
        unit_of_quantity: payload.unit_of_quantity.clone(),
        payment_term: payload.payment_term.clone(),
        origin_party: payload.origin_party.clone(),
        agreement_status,
    };
    assert(agreement@ == created_agreement(*payload)) by {
        assert(views(agreement.agreement_status@) =~= created_agreement(*payload).agreement_status);
    }
    match state.set_agreement(payload.name.as_str(), agreement) {
        Ok(()) => Ok(()),
        Err(e) => {
            let text = e.debug_text();
            Err(ApplyError::InternalError(join("Failed to create agreement: ", text.as_str())))
        },
    }
}

/// Records that the party of `payload` agrees to the agreement it names.
pub fn set_agreement_status(payload: &SetAgreementStatus, state: &mut AgreementState) -> (r:
    Result<(), ApplyError>)
    ensures
        applied(r, old(state)@, final(state)@, status_setting(old(state)@, *payload)),
{
    let mut agreement = match state.get_agreement(payload.name.as_str()) {
        Ok(None) => {
            return Err(
                ApplyError::InvalidTransaction(
                    join("Agreement does not exists : ", payload.name.as_str()),
                ),
            );
        },
        Ok(Some(agreement)) => agreement,
        Err(err) => {
            let text = err.describe();
            return Err(
                ApplyError::InvalidTransaction(join("Failed to retrieve state: ", text.as_str())),
            );
        },
    };
    let ghost found = agreement@;
    agreement.agreement_status.push(
        AgreementStatus { party: payload.party.clone(), status: AgreementStatusKind::Agreed },
    );
    assert(agreement@ == agreed_by(found, payload.party@)) by {
        assert(views(agreement.agreement_status@) =~= agreed_by(
            found,
            payload.party@,
        ).agreement_status);
    }
    match state.set_agreement(payload.name.as_str(), agreement) {
        Ok(()) => Ok(()),
        Err(e) => {
            let text = e.debug_text();
            Err(ApplyError::InternalError(join("Failed to update the agreement: ", text.as_str())))
        },
    }
}

/// The transaction handler of the agreement family.
pub struct AgreementTransactionHandler {
    family_name: String,
    family_versions: Vec<String>,
    namespaces: Vec<String>,
}

/// The handler's name, versions and namespaces, by their views.
pub open spec fn handler_view(
    family_name: String,
    family_versions: Vec<String>,
    namespaces: Vec<String>,
) -> (Seq<char>, Seq<Seq<char>>, Seq<Seq<char>>) {
    (family_name@, views(family_versions@), views(namespaces@))
}

impl View for AgreementTransactionHandler {
    type V = (Seq<char>, Seq<Seq<char>>, Seq<Seq<char>>);

    closed spec fn view(&self) -> (Seq<char>, Seq<Seq<char>>, Seq<Seq<char>>) {
        handler_view(self.family_name, self.family_versions, self.namespaces)
    }
}

/// What handling a transaction of the agreement family does: a payload that
/// could not be parsed, or whose action is unknown, is refused; otherwise the
/// action it names is carried out.
pub open spec fn handling(
    state: Seq<SlotView<AgreementView>>,
    payload: Option<AgreementPayload>,
) -> Result<Seq<SlotView<AgreementView>>, Failure> {
    match payload {
        None => Err(Failure::InternalError("Failed to parse agreement payload"@)),
        Some(p) => match p.action {
            AgreementAction::CreateAgreement => creation(state, p.create_agreement),
            AgreementAction::SetAgreementStatus => status_setting(state, p.set_agreement_status),
            AgreementAction::Unrecognized => Err(Failure::InvalidTransaction("Invalid action"@)),
        },
    }
}

/// The one address a transaction of this payload reads and writes: that of
/// the record its action names; none for an unknown action.
pub open spec fn agreement_payload_address(payload: AgreementPayload) -> Option<Seq<char>> {
    match payload.action {
        AgreementAction::CreateAgreement => Some(agreement_address(payload.create_agreement.name@)),
        AgreementAction::SetAgreementStatus => Some(agreement_address(payload.set_agreement_status.name@)),
        AgreementAction::Unrecognized => None,
    }
}

impl AgreementTransactionHandler {
    /// The handler of family `agreement`, version `0.1`, in namespace `000004`.
    pub fn new() -> (r: Self)
        ensures
            r@ == ("agreement"@, seq!["0.1"@], seq![AGREEMENT_NAMESPACE@]),
    {
        let r = AgreementTransactionHandler {
            family_name: "agreement".to_string(),
            family_versions: vec!["0.1".to_string()],
            namespaces: vec![AGREEMENT_NAMESPACE.to_string()],
        };
        assert(r@.1 =~= seq!["0.1"@]);
        assert(r@.2 =~= seq![AGREEMENT_NAMESPACE@]);
        r
    }

    /// The address whose entry a transaction of `payload` reads: the
    /// handler decides from that entry alone and writes nowhere else.
    pub fn read_address(&self, payload: &AgreementPayload) -> (r: Option<String>)
        ensures
            match r {
                Some(a) => agreement_payload_address(*payload) == Some(a@),
                None => agreement_payload_address(*payload) is None,
            },
    {
        match payload.action {
            AgreementAction::CreateAgreement => Some(compute_agreement_address(payload.create_agreement.name.as_str())),
            AgreementAction::SetAgreementStatus => Some(compute_agreement_address(payload.set_agreement_status.name.as_str())),
            AgreementAction::Unrecognized => None,
        }
    }

    /// The family's name.
    pub fn family_name(&self) -> (r: String)
        ensures
            r@ == self@.0,
    {
        self.family_name.clone()
    }

    /// The family's versions.
    pub fn family_versions(&self) -> (r: Vec<String>)
        ensures
            views(r@) == self@.1,
    {
        copy_all(&self.family_versions)
    }

    /// The namespaces of the family's addresses.
    pub fn namespaces(&self) -> (r: Vec<String>)
        ensures
            views(r@) == self@.2,
    {
        copy_all(&self.namespaces)
    }

    /// Handles a transaction whose payload is `payload` (`None` when it could
    /// not be parsed).
    pub fn apply(&self, payload: Option<&AgreementPayload>, state: &mut AgreementState) -> (r:
        Result<(), ApplyError>)
        ensures
            applied(
                r,
                old(state)@,
                final(state)@,
                handling(old(state)@, match payload {
                    Some(p) => Some(*p),
                    None => None,
                }),
            ),
    {
        match payload {
            None => Err(ApplyError::InternalError("Failed to parse agreement payload".to_string())),
            Some(p) => match p.action {
                AgreementAction::CreateAgreement => create_agreement(&p.create_agreement, state),
                AgreementAction::SetAgreementStatus => set_agreement_status(
                    &p.set_agreement_status,
                    state,
                ),
                AgreementAction::Unrecognized => Err(
                    ApplyError::InvalidTransaction("Invalid action".to_string()),
                ),
            },
        }
    }

    /// The error of a transaction whose written agreements could not be
    /// committed: the failure, wrapped as the action's write failure.
    pub fn commit_error(&self, payload: &AgreementPayload, failure: &CommitFailure) -> (r:
        ApplyError)
        requires
            payload.action != AgreementAction::Unrecognized,
        ensures
            r@ == Failure::InternalError(
                (if payload.action == AgreementAction::CreateAgreement {
                    "Failed to create agreement: "@
                } else {
                    "Failed to update the agreement: "@
                }) + failure_debug(commit_failure(*failure, "Cannot serialize agreement list"@)),
            ),
    {
        let inner = commit_error(failure, "Cannot serialize agreement list");
        let text = inner.debug_text();
        match payload.action {
            AgreementAction::CreateAgreement => ApplyError::InternalError(
                join("Failed to create agreement: ", text.as_str()),
            ),
            _ => ApplyError::InternalError(join("Failed to update the agreement: ", text.as_str())),
        }
    }
}

/// Runs a transaction as a Sabre contract does: `true` when it was applied.
pub fn apply(payload: Option<&AgreementPayload>, state: &mut AgreementState) -> (r: Result<
    bool,
    ApplyError,
>)
    ensures
        applied(
            match r {
                Ok(_) => Ok(()),
                Err(e) => Err(e),
            },
            old(state)@,
            final(state)@,
            handling(old(state)@, match payload {
                Some(p) => Some(*p),
                None => None,
            }),
        ),
        r matches Ok(b) ==> b,
{
    let handler = AgreementTransactionHandler::new();
    match handler.apply(payload, state) {
        Ok(_) => Ok(true),
        Err(err) => Err(err),
    }
}

/// Law: once an agreement is created, looking up its name finds it, with
/// the originating party's standing as initiated.
pub proof fn law_created_agreement_is_found(
    state: Seq<SlotView<AgreementView>>,
    payload: CreateAgreement,
)
    requires
        creation(state, payload) is Ok,
    ensures
        agreement_found(creation(state, payload)->Ok_0, payload.name@) == Ok::<
            Option<AgreementView>,
            Failure,
        >(Some(created_agreement(payload))),
{
    let name = payload.name@;
    lemma_not_found_is_single::<Agreement>(state, agreement_address(payload.name@), payload.name@, "Cannot deserialize agreement list: "@);
    law_read_after_write::<Agreement>(
        state,
        agreement_address(name),
        name,
        created_agreement(payload),
        "Cannot decode the agreement list"@,
        "Cannot deserialize agreement list: "@,
    );
}

/// Law: an agreement cannot be created twice; the second request is refused
/// as an invalid transaction that names the GTIN.
pub proof fn law_second_creation_refused(
    state: Seq<SlotView<AgreementView>>,
    payload: CreateAgreement,
)
    requires
        creation(state, payload) is Ok,
    ensures
        creation(creation(state, payload)->Ok_0, payload) == Err::<
            Seq<SlotView<AgreementView>>,
            Failure,
        >(Failure::InvalidTransaction("Agreement already exists: "@ + payload.gtin@)),
{
    law_created_agreement_is_found(state, payload);
}

/// Law: creating an agreement changes nothing that a lookup of another name finds.
pub proof fn law_creation_leaves_other_agreements(
    state: Seq<SlotView<AgreementView>>,
    payload: CreateAgreement,
    other: Seq<char>,
)
    requires
        creation(state, payload) is Ok,
        other != payload.name@,
    ensures
        agreement_found(creation(state, payload)->Ok_0, other) == agreement_found(state, other),
{
    law_read_other_after_write::<Agreement>(
        state,
        agreement_address(payload.name@),
        payload.name@,
        created_agreement(payload),
        "Cannot decode the agreement list"@,
        agreement_address(other),
        other,
        "Cannot deserialize agreement list: "@,
    );
}

/// Law: after a party agrees, the agreement is found with that party's
/// standing, as agreed, after the standings it had.
pub proof fn law_agreed_status_is_found(
    state: Seq<SlotView<AgreementView>>,
    payload: SetAgreementStatus,
)
    requires
        single_at::<Agreement>(state, agreement_address(payload.name@), payload.name@),
        status_setting(state, payload) is Ok,
    ensures
        agreement_found(state, payload.name@) matches Ok(Some(before)) && agreement_found(
            status_setting(state, payload)->Ok_0,
            payload.name@,
        ) == Ok::<Option<AgreementView>, Failure>(Some(agreed_by(before, payload.party@))),
{
    let name = payload.name@;
    let before = agreement_found(state, name)->Ok_0->Some_0;
    let after = agreed_by(before, payload.party@);
    crate::record::lemma_index_of_key::<Agreement>(
        match crate::state::entry_at::<Agreement>(state, agreement_address(name)) {
            crate::state::Stored::Present(l) => l,
            _ => Seq::empty(),
        },
        name,
    );
    law_read_after_write::<Agreement>(
        state,
        agreement_address(name),
        name,
        after,
        "Cannot decode the agreement list"@,
        "Cannot deserialize agreement list: "@,
    );
}

/// Law: a party agreeing changes nothing that a lookup of another name finds.
pub proof fn law_status_setting_leaves_other_agreements(
    state: Seq<SlotView<AgreementView>>,
    payload: SetAgreementStatus,
    other: Seq<char>,
)
    requires
        status_setting(state, payload) is Ok,
        other != payload.name@,
    ensures
        agreement_found(status_setting(state, payload)->Ok_0, other) == agreement_found(
            state,
            other,
        ),
{
    let name = payload.name@;
    let before = agreement_found(state, name)->Ok_0->Some_0;
    crate::record::lemma_index_of_key::<Agreement>(
        match crate::state::entry_at::<Agreement>(state, agreement_address(name)) {
            crate::state::Stored::Present(l) => l,
            _ => Seq::empty(),
        },
        name,
    );
    law_read_other_after_write::<Agreement>(
        state,
        agreement_address(name),
        name,
        agreed_by(before, payload.party@),
        "Cannot decode the agreement list"@,
        agreement_address(other),
        other,
        "Cannot deserialize agreement list: "@,
    );
}

/// Law: every transaction the handler applies keeps each stored list free
/// of two records with the same key.
pub proof fn law_handling_keeps_keys_unique(
    state: Seq<SlotView<AgreementView>>,
    payload: Option<AgreementPayload>,
)
    requires
        keys_unique_everywhere::<Agreement>(state),
        handling(state, payload) is Ok,
    ensures
        keys_unique_everywhere::<Agreement>(handling(state, payload)->Ok_0),
{
    match payload {
        Some(p) => {
            match p.action {
                AgreementAction::CreateAgreement => {
                    let q = p.create_agreement;
                    law_write_keeps_keys_unique::<Agreement>(
                        state,
                        agreement_address(q.name@),
                        q.name@,
                        created_agreement(q),
                        "Cannot decode the agreement list"@,
                    );
                },
                AgreementAction::SetAgreementStatus => {
                    let q = p.set_agreement_status;
                    let k = q.name@;
                    let before = agreement_found(state, k)->Ok_0->Some_0;
                    crate::record::lemma_index_of_key::<Agreement>(
                        match crate::state::entry_at::<Agreement>(state, agreement_address(k)) {
                            crate::state::Stored::Present(l) => l,
                            _ => Seq::empty(),
                        },
                        k,
                    );
                    law_write_keeps_keys_unique::<Agreement>(
                        state,
                        agreement_address(k),
                        k,
                        agreed_by(before, q.party@),
                        "Cannot decode the agreement list"@,
                    );
                },
                _ => {},
            }
        },
        None => {},
    }
}

/// Law: what a transaction does depends only on the entry at the address
/// its payload names: two states with the same entry there get the same
/// outcome and the same entry written there, and no other address changes.
pub proof fn law_handling_reads_only_payload_address(
    state: Seq<SlotView<AgreementView>>,
    other_state: Seq<SlotView<AgreementView>>,
    payload: AgreementPayload,
    elsewhere: Seq<char>,
)
    requires
        agreement_payload_address(payload) matches Some(a) ==> entry_at::<Agreement>(state, a) == entry_at::<Agreement>(
            other_state,
            a,
        ),
    ensures
        handling(state, Some(payload)) is Ok <==> handling(other_state, Some(payload)) is Ok,
        handling(state, Some(payload)) is Err ==> handling(state, Some(payload)) == handling(
            other_state,
            Some(payload),
        ),
        handling(state, Some(payload)) is Ok ==> (agreement_payload_address(payload) matches Some(a)
            && entry_at::<Agreement>(handling(state, Some(payload))->Ok_0, a) == entry_at::<Agreement>(
            handling(other_state, Some(payload))->Ok_0,
            a,
        ) && (elsewhere != a ==> entry_at::<Agreement>(handling(state, Some(payload))->Ok_0, elsewhere)
            == entry_at::<Agreement>(state, elsewhere))),
{
    if let Some(a) = agreement_payload_address(payload) {
        let list = match entry_at::<Agreement>(state, a) {
            Stored::Present(l) => l,
            _ => Seq::empty(),
        };
        let k = match payload.action {
            AgreementAction::CreateAgreement => payload.create_agreement.name@,
            _ => payload.set_agreement_status.name@,
        };
        assert forall|v: AgreementView| #![auto] true implies {
            &&& entry_at::<Agreement>(stored::<Agreement>(state, a, upsert::<Agreement>(list, k, v)), a)
                == Stored::<AgreementView>::Present(upsert::<Agreement>(list, k, v))
            &&& entry_at::<Agreement>(stored::<Agreement>(other_state, a, upsert::<Agreement>(list, k, v)), a)
                == Stored::<AgreementView>::Present(upsert::<Agreement>(list, k, v))
            &&& (elsewhere != a ==> entry_at::<Agreement>(
                stored::<Agreement>(state, a, upsert::<Agreement>(list, k, v)),
                elsewhere,
            ) == entry_at::<Agreement>(state, elsewhere))
        } by {
            law_fetch_after_store::<Agreement>(state, a, upsert::<Agreement>(list, k, v));
            law_fetch_after_store::<Agreement>(other_state, a, upsert::<Agreement>(list, k, v));
            if elsewhere != a {
                law_fetch_other_after_store::<Agreement>(state, a, upsert::<Agreement>(list, k, v), elsewhere);
            }
        }
    }
}

/// Law: writing the same record twice under its name leaves the state as
/// writing it once does, when the list at its address held at most one
/// record of that name.
pub proof fn law_agreement_written_twice(state: Seq<SlotView<AgreementView>>, key: Seq<char>, record: AgreementView)
    requires
        single_at::<Agreement>(state, agreement_address(key), key),
        Agreement::key_of(record) == key,
        agreement_written(state, key, record) is Ok,
    ensures
        agreement_written(agreement_written(state, key, record)->Ok_0, key, record) == agreement_written(state, key, record),
{
    law_write_twice::<Agreement>(state, agreement_address(key), key, record, "Cannot decode the agreement list"@);
}

/// Law: creating an agreement whose name is not yet taken, in a readable
/// state, succeeds, and the agreement then found under that name carries
/// exactly the requested name, GTIN, price, dates, unit of quantity, payment
/// term and originating party, with the originating party's standing as its
/// only standing, initiated.
pub proof fn law_creation_stores_the_request(
    state: Seq<SlotView<AgreementView>>,
    payload: CreateAgreement,
)
    requires
        agreement_found(state, payload.name@) == Ok::<Option<AgreementView>, Failure>(None),
    ensures
        creation(state, payload) is Ok,
        agreement_found(creation(state, payload)->Ok_0, payload.name@) matches Ok(Some(a)) && {
            &&& a.name == payload.name@
            &&& a.gtin == payload.gtin@
            &&& a.price_bits == payload.price_bits
            &&& a.effective_date == payload.effective_date@
            &&& a.termination_date == payload.termination_date@
            &&& a.unit_of_quantity == payload.unit_of_quantity@
            &&& a.payment_term == payload.payment_term@
            &&& a.origin_party == payload.origin_party@
            &&& a.agreement_status.len() == 1
            &&& a.agreement_status[0].party == payload.origin_party@
            &&& a.agreement_status[0].status == AgreementStatusKind::Initiated
        },
{
    assert(creation(state, payload) is Ok);
    law_created_agreement_is_found(state, payload);
}

/// Law: a party agreeing to an existing agreement, in a state whose list at
/// its address holds it once, succeeds; the agreement found afterwards has
/// the same name, GTIN, price, dates, unit of quantity, payment term and
/// originating party as before, and its standings are those it had followed
/// by the party's standing, agreed.
pub proof fn law_agreeing_only_appends(
    state: Seq<SlotView<AgreementView>>,
    payload: SetAgreementStatus,
)
    requires
        single_at::<Agreement>(state, agreement_address(payload.name@), payload.name@),
        agreement_found(state, payload.name@) matches Ok(Some(_)),
    ensures
        status_setting(state, payload) is Ok,
        agreement_found(state, payload.name@) matches Ok(Some(b)) && agreement_found(
            status_setting(state, payload)->Ok_0,
            payload.name@,
        ) matches Ok(Some(a)) && {
            &&& a.name == b.name
            &&& a.gtin == b.gtin
            &&& a.price_bits == b.price_bits
            &&& a.effective_date == b.effective_date
            &&& a.termination_date == b.termination_date
            &&& a.unit_of_quantity == b.unit_of_quantity
            &&& a.payment_term == b.payment_term
            &&& a.origin_party == b.origin_party
            &&& a.agreement_status.len() == b.agreement_status.len() + 1
            &&& a.agreement_status.take(b.agreement_status.len() as int) == b.agreement_status
            &&& a.agreement_status.last().party == payload.party@
            &&& a.agreement_status.last().status == AgreementStatusKind::Agreed
        },
{
    assert(status_setting(state, payload) is Ok);
    law_agreed_status_is_found(state, payload);
    let b = agreement_found(state, payload.name@)->Ok_0->Some_0;
    let a = agreed_by(b, payload.party@);
    assert(a.agreement_status.take(b.agreement_status.len() as int) =~= b.agreement_status);
}

/// Law: creating a agreement whose key is already taken is refused as an
/// invalid transaction, and creating one when the state at its address
/// cannot be read or decoded is refused with that failure's text.
pub proof fn law_agreement_creation_refusals(state: Seq<SlotView<AgreementView>>, payload: CreateAgreement)
    ensures
        agreement_found(state, payload.name@) matches Ok(Some(_)) ==> creation(state, payload) == Err::<
            Seq<SlotView<AgreementView>>,
            Failure,
        >(Failure::InvalidTransaction("Agreement already exists: "@ + payload.gtin@)),
        agreement_found(state, payload.name@) matches Err(f) ==> creation(state, payload) == Err::<
            Seq<SlotView<AgreementView>>,
            Failure,
        >(Failure::InvalidTransaction("Failed to retrieve state: "@ + failure_text(f))),
{
}

/// Law: changing a agreement that does not exist is refused as an invalid
/// transaction naming it, and changing one when the state at its address
/// cannot be read or decoded is refused with that failure's text.
pub proof fn law_agreement_change_refusals(state: Seq<SlotView<AgreementView>>, payload: SetAgreementStatus)
    ensures
        agreement_found(state, payload.name@) == Ok::<Option<AgreementView>, Failure>(None) ==> status_setting(
            state,
            payload,
        ) == Err::<Seq<SlotView<AgreementView>>, Failure>(Failure::InvalidTransaction("Agreement does not exists : "@ + payload.name@)),
        agreement_found(state, payload.name@) matches Err(f) ==> status_setting(state, payload) == Err::<
            Seq<SlotView<AgreementView>>,
            Failure,
        >(Failure::InvalidTransaction("Failed to retrieve state: "@ + failure_text(f))),
{
}

} // verus!
