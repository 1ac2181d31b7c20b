//! The GTIN program family: an organisation publishes a program for a GTIN,
//! and organisations record their status in it.

use vstd::prelude::*;
use vstd::string::*;
use crate::address::{address_for, is_lower_hex, namespaced_address};
use crate::error::{ApplyError, Failure, failure_text, failure_debug};
use crate::ledger::{
    applied, found_view, read_record, write_record, get_record, set_record, CommitFailure,
    commit_failure, commit_error, keys_unique_everywhere, law_read_after_write,
    law_write_twice, single_at, lemma_not_found_is_single,
    law_read_other_after_write, law_write_keeps_keys_unique,
};
use crate::record::{
    Duplicate, Record, views, copy_all, upsert, upsert_record, lookup, keys_unique,
    law_lookup_after_upsert, law_upsert_keeps_keys_unique, at_most_one_key,
    law_upsert_twice,
};
use crate::state::{
    SlotView, StateContext, Stored, entry_at, stored, law_fetch_after_store,
    law_fetch_other_after_store,
};
use crate::text::join;

verus! {

/// The namespace of the program family's addresses.
pub const NAMESPACE: &'static str = "123456";

/// An organisation's status in a program, kept under the organisation's name.
#[derive(Debug)]
pub struct OrgStatus {
    pub org_name: String,
    pub status: String,
}

/// An organisation's status by its views.
pub struct OrgStatusView {
    pub org_name: Seq<char>,
    pub status: Seq<char>,
}

impl View for OrgStatus {
    type V = OrgStatusView;

    open spec fn view(&self) -> OrgStatusView {
        OrgStatusView { org_name: self.org_name@, status: self.status@ }
    }
}

impl Duplicate for OrgStatus {
    fn duplicate(&self) -> (d: Self) {
        OrgStatus { org_name: self.org_name.clone(), status: self.status.clone() }
    }
}

impl Record for OrgStatus {
    open spec fn key_of(v: OrgStatusView) -> Seq<char> {
        v.org_name
    }

    fn key(&self) -> (k: &String) {
        &self.org_name
    }
}

/// A program, kept under its GTIN.
#[derive(Debug)]
pub struct Program {
    pub gtin: String,
    pub org_status: Vec<OrgStatus>,
}

/// A program by its views.
pub struct ProgramView {
    pub gtin: Seq<char>,
    pub org_status: Seq<OrgStatusView>,
}

impl View for Program {
    type V = ProgramView;

    open spec fn view(&self) -> ProgramView {
        ProgramView { gtin: self.gtin@, org_status: views(self.org_status@) }
    }
}

impl Duplicate for Program {
    fn duplicate(&self) -> (d: Self) {
        Program { gtin: self.gtin.clone(), org_status: copy_all(&self.org_status) }
    }
}

impl Record for Program {
    open spec fn key_of(v: ProgramView) -> Seq<char> {
        v.gtin
    }

    fn key(&self) -> (k: &String) {
        &self.gtin
    }
}

/// The request to publish a program.
#[derive(Debug)]
pub struct CreateProgramAction {
    pub gtin: String,
}

/// The request by which an organisation records its status in a program.
#[derive(Debug)]
pub struct UpdateOrgStatus {
    pub gtin: String,
    pub org_status: OrgStatus,
}

/// What a payload asks for.
#[derive(Debug, Clone, Copy, PartialEq, Eq, Structural)]
pub enum ProgramAction {
    CreateProgram,
    UpdateOrgStatus,
    /// An action this family does not know.
    Unrecognized,
}

/// A transaction of the program family: the action and the request of each
/// kind (a request that is not used is empty).
#[derive(Debug)]
pub struct ProgramPayload {
    pub action: ProgramAction,
    pub create_program: CreateProgramAction,
    pub update_org_status: UpdateOrgStatus,
}

/// The address of the programs of `gtin`.
pub open spec fn program_address(gtin: Seq<char>) -> Seq<char> {
    address_for(NAMESPACE@, gtin)
}

/// The address of the programs of `gtin`.
pub fn compute_address(gtin: &str) -> (r: String)
    ensures
        r@ == program_address(gtin@),
        r@.len() == 70,
        forall|i: int| 6 <= i < 70 ==> is_lower_hex(#[trigger] r@[i]),
{
    proof {
        reveal_strlit("123456");
    }
    namespaced_address(NAMESPACE, gtin)
}

/// The programs' state as a transaction sees it.
pub struct ProgramState {
    context: StateContext<Program>,
}

impl View for ProgramState {
    type V = Seq<SlotView<ProgramView>>;

    closed spec fn view(&self) -> Seq<SlotView<ProgramView>> {
        self.context@
    }
}

/// What looking up the program of `gtin` gives.
pub open spec fn program_found(state: Seq<SlotView<ProgramView>>, gtin: Seq<char>) -> Result<
    Option<ProgramView>,
    Failure,
> {
    read_record::<Program>(state, program_address(gtin), gtin, "Cannot deserialize Program list: "@)
}

/// The state after `program` is written under the GTIN `gtin`.
pub open spec fn program_written(
    state: Seq<SlotView<ProgramView>>,
    gtin: Seq<char>,
    program: ProgramView,
) -> Result<Seq<SlotView<ProgramView>>, Failure> {
    write_record::<Program>(
        state,
        program_address(gtin),
        gtin,
        program,
        "Cannot decode the program list"@,
    )
}

impl ProgramState {
    /// The programs' state over `context`.
    pub fn new(context: StateContext<Program>) -> (r: Self)
        ensures
            r@ == context@,
    {
        ProgramState { context }
    }

    /// The context, with what the transaction wrote.
    pub fn into_context(self) -> (r: StateContext<Program>)
        ensures
            r@ == self@,
    {
        self.context
    }

    /// The program of `gtin`, if any.
    pub fn get_program(&mut self, gtin: &str) -> (r: Result<Option<Program>, ApplyError>)
        ensures
            final(self)@ == old(self)@,
            found_view(r) == program_found(old(self)@, gtin@),
    {
        let address = compute_address(gtin);
        get_record(&self.context, address.as_str(), gtin, "Cannot deserialize Program list: ")
    }

    /// Writes `new_program` in place of the program of `gtin`.
    pub fn set_program(&mut self, gtin: &str, new_program: Program) -> (r: Result<(), ApplyError>)
        ensures
            applied(r, old(self)@, final(self)@, program_written(old(self)@, gtin@, new_program@)),
    {
        let address = compute_address(gtin);
        set_record(&mut self.context, address, gtin, new_program, "Cannot decode the program list")
    }
}

/// The program that `payload` publishes: its GTIN, with no status yet.
pub open spec fn created_program(payload: CreateProgramAction) -> ProgramView {
    ProgramView { gtin: payload.gtin@, org_status: Seq::empty() }
}

/// The outcome of publishing a program: refused when one for that GTIN
/// exists or the state cannot be read; otherwise the new program is written.
pub open spec fn program_creation(
    state: Seq<SlotView<ProgramView>>,
    payload: CreateProgramAction,
) -> Result<Seq<SlotView<ProgramView>>, Failure> {
    match program_found(state, payload.gtin@) {
        Err(f) => Err(Failure::InvalidTransaction("Failed to retrieve state: "@ + failure_text(f))),
        Ok(Some(_)) => Err(Failure::InvalidTransaction("Program already exists: "@ + payload.gtin@)),
        Ok(None) => match program_written(state, payload.gtin@, created_program(payload)) {
            Ok(after) => Ok(after),
            Err(f) => Err(Failure::InternalError("Failed to create program: "@ + failure_debug(f))),
        },
    }
}

/// `program` with `status` in place of the status of the same organisation
/// (which goes to the end of the list), or appended when it had none.
pub open spec fn with_org_status(program: ProgramView, status: OrgStatusView) -> ProgramView {
    ProgramView {
        org_status: upsert::<OrgStatus>(program.org_status, status.org_name, status),
        ..program
    }
}

/// The outcome of an organisation recording its status: refused when there
/// is no program for the GTIN or the state cannot be read; otherwise the
/// program is written back with the organisation's status replaced.
pub open spec fn org_status_update(
    state: Seq<SlotView<ProgramView>>,
    payload: UpdateOrgStatus,
) -> Result<Seq<SlotView<ProgramView>>, Failure> {
    match program_found(state, payload.gtin@) {
        Err(f) => Err(Failure::InvalidTransaction("Failed to retrieve state: "@ + failure_text(f))),
        Ok(None) => Err(Failure::InvalidTransaction("Program does not exists : "@ + payload.gtin@)),
        Ok(Some(program)) => match program_written(
            state,
            payload.gtin@,
            with_org_status(program, payload.org_status@),
        ) {
            Ok(after) => Ok(after),
            Err(f) => Err(Failure::InternalError("Failed to update the program: "@ + failure_debug(f))),
        },
    }
}

/// Publishes the program that `payload` describes.
pub fn create_program(payload: &CreateProgramAction, state: &mut ProgramState) -> (r: Result<
    (),
    ApplyError,
>)
    ensures
        applied(r, old(state)@, final(state)@, program_creation(old(state)@, *payload)),
{
    match state.get_program(payload.gtin.as_str()) {
        Ok(None) => {},
        Ok(Some(_)) => {
            return Err(
                ApplyError::InvalidTransaction(
                    join("Program already exists: ", payload.gtin.as_str()),
                ),
            );
        },
        Err(err) => {
            let text = err.describe();
            return Err(
                ApplyError::InvalidTransaction(join("Failed to retrieve state: ", text.as_str())),
            );
        },
    }
    let org_status: Vec<OrgStatus> = Vec::new();
    let program = Program { gtin: payload.gtin.clone(), org_status };
    assert(program@ == created_program(*payload)) by {
        assert(views(program.org_status@) =~= Seq::<OrgStatusView>::empty());
    }
    match state.set_program(payload.gtin.as_str(), program) {
        Ok(()) => Ok(()),
        Err(e) => {
            let text = e.debug_text();
            Err(ApplyError::InternalError(join("Failed to create program: ", text.as_str())))
        },
    }
}

/// Records the status of the organisation that `payload` names in the
/// program of its GTIN.
pub fn update_org_state(payload: &UpdateOrgStatus, state: &mut ProgramState) -> (r: Result<
    (),
    ApplyError,
>)
    ensures
        applied(r, old(state)@, final(state)@, org_status_update(old(state)@, *payload)),
{
    let mut program = match state.get_program(payload.gtin.as_str()) {
        Ok(None) => {
            return Err(
                ApplyError::InvalidTransaction(
                    join("Program does not exists : ", payload.gtin.as_str()),
                ),
            );
        },
        Ok(Some(program)) => program,
        Err(err) => {
            let text = err.describe();
            return Err(
                ApplyError::InvalidTransaction(join("Failed to retrieve state: ", text.as_str())),
            );
        },
    };
    let ghost found = program@;
    let status = payload.org_status.duplicate();
    upsert_record(&mut program.org_status, payload.org_status.org_name.as_str(), status);
    assert(program@ == with_org_status(found, payload.org_status@));
    match state.set_program(payload.gtin.as_str(), program) {
        Ok(()) => Ok(()),
        Err(e) => {
            let text = e.debug_text();
            Err(ApplyError::InternalError(join("Failed to update the program: ", text.as_str())))
        },
    }
}

/// The transaction handler of the program family.
pub struct ProgramTransactionHandler {
    family_name: String,
    family_versions: Vec<String>,
    namespaces: Vec<String>,
}

impl View for ProgramTransactionHandler {
    type V = (Seq<char>, Seq<Seq<char>>, Seq<Seq<char>>);

    closed spec fn view(&self) -> (Seq<char>, Seq<Seq<char>>, Seq<Seq<char>>) {
        (self.family_name@, views(self.family_versions@), views(self.namespaces@))
    }
}

/// What handling a transaction of the program family does: a payload that
/// could not be parsed, or whose action is unknown, is refused; otherwise the
/// action it names is carried out.
pub open spec fn program_handling(
    state: Seq<SlotView<ProgramView>>,
    payload: Option<ProgramPayload>,
) -> Result<Seq<SlotView<ProgramView>>, Failure> {
    match payload {
        None => Err(Failure::InternalError("Failed to parse payload"@)),
        Some(p) => match p.action {
            ProgramAction::CreateProgram => program_creation(state, p.create_program),
            ProgramAction::UpdateOrgStatus => org_status_update(state, p.update_org_status),
            ProgramAction::Unrecognized => Err(Failure::InvalidTransaction("Invalid action"@)),
        },
    }
}

/// The one address a transaction of this payload reads and writes: that of
/// the record its action names; none for an unknown action.
pub open spec fn program_payload_address(payload: ProgramPayload) -> Option<Seq<char>> {
    match payload.action {
        ProgramAction::CreateProgram => Some(program_address(payload.create_program.gtin@)),
        ProgramAction::UpdateOrgStatus => Some(program_address(payload.update_org_status.gtin@)),
        ProgramAction::Unrecognized => None,
    }
}

impl ProgramTransactionHandler {
    /// The handler of family `program`, version `0.1`, in namespace `123456`.
    pub fn new() -> (r: Self)
        ensures
            r@ == ("program"@, seq!["0.1"@], seq![NAMESPACE@]),
    {
        let r = ProgramTransactionHandler {
            family_name: "program".to_string(),
            family_versions: vec!["0.1".to_string()],
            namespaces: vec![NAMESPACE.to_string()],
        };
        assert(r@.1 =~= seq!["0.1"@]);
        assert(r@.2 =~= seq![NAMESPACE@]);
        r
    }

    /// The address whose entry a transaction of `payload` reads: the
    /// handler decides from that entry alone and writes nowhere else.
    pub fn read_address(&self, payload: &ProgramPayload) -> (r: Option<String>)
        ensures
            match r {
                Some(a) => program_payload_address(*payload) == Some(a@),
                None => program_payload_address(*payload) is None,
            },
    {
        match payload.action {
            ProgramAction::CreateProgram => Some(compute_address(payload.create_program.gtin.as_str())),
            ProgramAction::UpdateOrgStatus => Some(compute_address(payload.update_org_status.gtin.as_str())),
            ProgramAction::Unrecognized => None,
        }
    }

    /// The family's name.
    pub fn family_name(&self) -> (r: String)
        ensures
            r@ == self@.0,
    {
        self.family_name.clone()
    }

    /// The family's versions.
    pub fn family_versions(&self) -> (r: Vec<String>)
        ensures
            views(r@) == self@.1,
    {
        copy_all(&self.family_versions)
    }

    /// The namespaces of the family's addresses.
    pub fn namespaces(&self) -> (r: Vec<String>)
        ensures
            views(r@) == self@.2,
    {
        copy_all(&self.namespaces)
    }

    /// Handles a transaction whose payload is `payload` (`None` when it could
    /// not be parsed).
    pub fn apply(&self, payload: Option<&ProgramPayload>, state: &mut ProgramState) -> (r: Result<
        (),
        ApplyError,
    >)
        ensures
            applied(
                r,
                old(state)@,
                final(state)@,
                program_handling(old(state)@, match payload {
                    Some(p) => Some(*p),
                    None => None,
                }),
            ),
    {
        match payload {
            None => Err(ApplyError::InternalError("Failed to parse payload".to_string())),
            Some(p) => match p.action {
                ProgramAction::CreateProgram => create_program(&p.create_program, state),
                ProgramAction::UpdateOrgStatus => update_org_state(&p.update_org_status, state),
                ProgramAction::Unrecognized => Err(
                    ApplyError::InvalidTransaction("Invalid action".to_string()),
                ),
            },
        }
    }

    /// The error of a transaction whose written programs could not be
    /// committed: the failure, wrapped as the action's write failure.
    pub fn commit_error(&self, payload: &ProgramPayload, failure: &CommitFailure) -> (r:
        ApplyError)
        requires
            payload.action != ProgramAction::Unrecognized,
        ensures
            r@ == Failure::InternalError(
                (if payload.action == ProgramAction::CreateProgram {
                    "Failed to create program: "@
                } else {
                    "Failed to update the program: "@
                }) + failure_debug(commit_failure(*failure, "Cannot serialize program list"@)),
            ),
    {
        let inner = commit_error(failure, "Cannot serialize program list");
        let text = inner.debug_text();
        match payload.action {
            ProgramAction::CreateProgram => ApplyError::InternalError(
                join("Failed to create program: ", text.as_str()),
            ),
            _ => ApplyError::InternalError(join("Failed to update the program: ", text.as_str())),
        }
    }
}

/// Runs a transaction as a Sabre contract does: `true` when it was applied.
pub fn apply(payload: Option<&ProgramPayload>, state: &mut ProgramState) -> (r: Result<
    bool,
    ApplyError,
>)
    ensures
        applied(
            match r {
                Ok(_) => Ok(()),
                Err(e) => Err(e),
            },
            old(state)@,
            final(state)@,
            program_handling(old(state)@, match payload {
                Some(p) => Some(*p),
                None => None,
            }),
        ),
        r matches Ok(b) ==> b,
{
    let handler = ProgramTransactionHandler::new();
    match handler.apply(payload, state) {
        Ok(_) => Ok(true),
        Err(err) => Err(err),
    }
}

/// Law: once a program is published, looking up its GTIN finds it, with no
/// organisation status.
pub proof fn law_created_program_is_found(
    state: Seq<SlotView<ProgramView>>,
    payload: CreateProgramAction,
)
    requires
        program_creation(state, payload) is Ok,
    ensures
        program_found(program_creation(state, payload)->Ok_0, payload.gtin@) == Ok::<
            Option<ProgramView>,
            Failure,
        >(Some(created_program(payload))),
{
    let g = payload.gtin@;
    lemma_not_found_is_single::<Program>(state, program_address(payload.gtin@), payload.gtin@, "Cannot deserialize Program list: "@);
    law_read_after_write::<Program>(
        state,
        program_address(g),
        g,
        created_program(payload),
        "Cannot decode the program list"@,
        "Cannot deserialize Program list: "@,
    );
}

/// Law: a program cannot be published twice; the second request is refused
/// as an invalid transaction that names the GTIN.
pub proof fn law_second_program_refused(
    state: Seq<SlotView<ProgramView>>,
    payload: CreateProgramAction,
)
    requires
        program_creation(state, payload) is Ok,
    ensures
        program_creation(program_creation(state, payload)->Ok_0, payload) == Err::<
            Seq<SlotView<ProgramView>>,
            Failure,
        >(Failure::InvalidTransaction("Program already exists: "@ + payload.gtin@)),
{
    law_created_program_is_found(state, payload);
}

/// Law: publishing a program changes nothing that a lookup of another GTIN finds.
pub proof fn law_program_creation_leaves_others(
    state: Seq<SlotView<ProgramView>>,
    payload: CreateProgramAction,
    other: Seq<char>,
)
    requires
        program_creation(state, payload) is Ok,
        other != payload.gtin@,
    ensures
        program_found(program_creation(state, payload)->Ok_0, other) == program_found(state, other),
{
    law_read_other_after_write::<Program>(
        state,
        program_address(payload.gtin@),
        payload.gtin@,
        created_program(payload),
        "Cannot decode the program list"@,
        program_address(other),
        other,
        "Cannot deserialize Program list: "@,
    );
}

/// Law: after an organisation records its status, the program is found with
/// that status in place of the organisation's earlier one; a lookup of the
/// organisation in it finds the new status, provided the program listed that
/// organisation at most once.
pub proof fn law_org_status_is_found(state: Seq<SlotView<ProgramView>>, payload: UpdateOrgStatus)
    requires
        single_at::<Program>(state, program_address(payload.gtin@), payload.gtin@),
        org_status_update(state, payload) is Ok,
    ensures
        program_found(state, payload.gtin@) matches Ok(Some(before)) && program_found(
            org_status_update(state, payload)->Ok_0,
            payload.gtin@,
        ) == Ok::<Option<ProgramView>, Failure>(
            Some(with_org_status(before, payload.org_status@)),
        ) && (at_most_one_key::<OrgStatus>(before.org_status, payload.org_status.org_name@)
            ==> lookup::<OrgStatus>(
            with_org_status(before, payload.org_status@).org_status,
            payload.org_status.org_name@,
        ) == Some(payload.org_status@)) && (keys_unique::<OrgStatus>(before.org_status)
            ==> keys_unique::<OrgStatus>(with_org_status(before, payload.org_status@).org_status)),
{
    let g = payload.gtin@;
    let before = program_found(state, g)->Ok_0->Some_0;
    let after = with_org_status(before, payload.org_status@);
    crate::record::lemma_index_of_key::<Program>(
        match crate::state::entry_at::<Program>(state, program_address(g)) {
            crate::state::Stored::Present(l) => l,
            _ => Seq::empty(),
        },
        g,
    );
    law_read_after_write::<Program>(
        state,
        program_address(g),
        g,
        after,
        "Cannot decode the program list"@,
        "Cannot deserialize Program list: "@,
    );
    if at_most_one_key::<OrgStatus>(before.org_status, payload.org_status.org_name@) {
        law_lookup_after_upsert::<OrgStatus>(
            before.org_status,
            payload.org_status.org_name@,
            payload.org_status@,
        );
    }
    if keys_unique::<OrgStatus>(before.org_status) {
        law_upsert_keeps_keys_unique::<OrgStatus>(
            before.org_status,
            payload.org_status.org_name@,
            payload.org_status@,
        );
    }
}

/// Law: an organisation recording its status changes nothing that a lookup
/// of another GTIN finds.
pub proof fn law_org_status_update_leaves_others(
    state: Seq<SlotView<ProgramView>>,
    payload: UpdateOrgStatus,
    other: Seq<char>,
)
    requires
        org_status_update(state, payload) is Ok,
        other != payload.gtin@,
    ensures
        program_found(org_status_update(state, payload)->Ok_0, other) == program_found(
            state,
            other,
        ),
{
    let g = payload.gtin@;
    let before = program_found(state, g)->Ok_0->Some_0;
    crate::record::lemma_index_of_key::<Program>(
        match crate::state::entry_at::<Program>(state, program_address(g)) {
            crate::state::Stored::Present(l) => l,
            _ => Seq::empty(),
        },
        g,
    );
    law_read_other_after_write::<Program>(
        state,
        program_address(g),
        g,
        with_org_status(before, payload.org_status@),
        "Cannot decode the program list"@,
        program_address(other),
        other,
        "Cannot deserialize Program list: "@,
    );
}

/// Law: every transaction the handler applies keeps each stored list free
/// of two records with the same key.
pub proof fn law_handling_keeps_keys_unique(
    state: Seq<SlotView<ProgramView>>,
    payload: Option<ProgramPayload>,
)
    requires
        keys_unique_everywhere::<Program>(state),
        program_handling(state, payload) is Ok,
    ensures
        keys_unique_everywhere::<Program>(program_handling(state, payload)->Ok_0),
{
    match payload {
        Some(p) => {
            match p.action {
                ProgramAction::CreateProgram => {
                    let q = p.create_program;
                    law_write_keeps_keys_unique::<Program>(
                        state,
                        program_address(q.gtin@),
                        q.gtin@,
                        created_program(q),
                        "Cannot decode the program list"@,
                    );
                },
                ProgramAction::UpdateOrgStatus => {
                    let q = p.update_org_status;
                    let k = q.gtin@;
                    let before = program_found(state, k)->Ok_0->Some_0;
                    crate::record::lemma_index_of_key::<Program>(
                        match crate::state::entry_at::<Program>(state, program_address(k)) {
                            crate::state::Stored::Present(l) => l,
                            _ => Seq::empty(),
                        },
                        k,
                    );
                    law_write_keeps_keys_unique::<Program>(
                        state,
                        program_address(k),
                        k,
                        with_org_status(before, q.org_status@),
                        "Cannot decode the program list"@,
                    );
                },
                _ => {},
            }
        },
        None => {},
    }
}

/// Law: what a transaction does depends only on the entry at the address
/// its payload names: two states with the same entry there get the same
/// outcome and the same entry written there, and no other address changes.
pub proof fn law_handling_reads_only_payload_address(
    state: Seq<SlotView<ProgramView>>,
    other_state: Seq<SlotView<ProgramView>>,
    payload: ProgramPayload,
    elsewhere: Seq<char>,
)
    requires
        program_payload_address(payload) matches Some(a) ==> entry_at::<Program>(state, a) == entry_at::<Program>(
            other_state,
            a,
        ),
    ensures
        program_handling(state, Some(payload)) is Ok <==> program_handling(other_state, Some(payload)) is Ok,
        program_handling(state, Some(payload)) is Err ==> program_handling(state, Some(payload)) == program_handling(
            other_state,
            Some(payload),
        ),
        program_handling(state, Some(payload)) is Ok ==> (program_payload_address(payload) matches Some(a)
            && entry_at::<Program>(program_handling(state, Some(payload))->Ok_0, a) == entry_at::<Program>(
            program_handling(other_state, Some(payload))->Ok_0,
            a,
        ) && (elsewhere != a ==> entry_at::<Program>(program_handling(state, Some(payload))->Ok_0, elsewhere)
            == entry_at::<Program>(state, elsewhere))),
{
    if let Some(a) = program_payload_address(payload) {
        let list = match entry_at::<Program>(state, a) {
            Stored::Present(l) => l,
            _ => Seq::empty(),
        };
        let k = match payload.action {
            ProgramAction::CreateProgram => payload.create_program.gtin@,
            _ => payload.update_org_status.gtin@,
        };
        assert forall|v: ProgramView| #![auto] true implies {
            &&& entry_at::<Program>(stored::<Program>(state, a, upsert::<Program>(list, k, v)), a)
                == Stored::<ProgramView>::Present(upsert::<Program>(list, k, v))
            &&& entry_at::<Program>(stored::<Program>(other_state, a, upsert::<Program>(list, k, v)), a)
                == Stored::<ProgramView>::Present(upsert::<Program>(list, k, v))
            &&& (elsewhere != a ==> entry_at::<Program>(
                stored::<Program>(state, a, upsert::<Program>(list, k, v)),
                elsewhere,
            ) == entry_at::<Program>(state, elsewhere))
        } by {
            law_fetch_after_store::<Program>(state, a, upsert::<Program>(list, k, v));
            law_fetch_after_store::<Program>(other_state, a, upsert::<Program>(list, k, v));
            if elsewhere != a {
                law_fetch_other_after_store::<Program>(state, a, upsert::<Program>(list, k, v), elsewhere);
            }
        }
    }
}

/// Law: writing the same record twice under its gtin leaves the state as
/// writing it once does, when the list at its address held at most one
/// record of that gtin.
pub proof fn law_program_written_twice(state: Seq<SlotView<ProgramView>>, key: Seq<char>, record: ProgramView)
    requires
        single_at::<Program>(state, program_address(key), key),
        Program::key_of(record) == key,
        program_written(state, key, record) is Ok,
    ensures
        program_written(program_written(state, key, record)->Ok_0, key, record) == program_written(state, key, record),
{
    law_write_twice::<Program>(state, program_address(key), key, record, "Cannot decode the program list"@);
}

/// Law: an organisation recording the same status twice leaves the state as
/// recording it once does, when the list at the program's address held at
/// most one program of that GTIN and the program listed that organisation at
/// most once.
pub proof fn law_org_status_update_twice(
    state: Seq<SlotView<ProgramView>>,
    payload: UpdateOrgStatus,
)
    requires
        single_at::<Program>(state, program_address(payload.gtin@), payload.gtin@),
        program_found(state, payload.gtin@) matches Ok(Some(p)) ==> at_most_one_key::<OrgStatus>(
            p.org_status,
            payload.org_status.org_name@,
        ),
        org_status_update(state, payload) is Ok,
    ensures
        org_status_update(org_status_update(state, payload)->Ok_0, payload) == org_status_update(
            state,
            payload,
        ),
{
    let g = payload.gtin@;
    let before = program_found(state, g)->Ok_0->Some_0;
    let after = with_org_status(before, payload.org_status@);
    crate::record::lemma_index_of_key::<Program>(
        match crate::state::entry_at::<Program>(state, program_address(g)) {
            crate::state::Stored::Present(l) => l,
            _ => Seq::empty(),
        },
        g,
    );
    law_read_after_write::<Program>(
        state,
        program_address(g),
        g,
        after,
        "Cannot decode the program list"@,
        "Cannot deserialize Program list: "@,
    );
    law_upsert_twice::<OrgStatus>(
        before.org_status,
        payload.org_status.org_name@,
        payload.org_status@,
    );
    assert(with_org_status(after, payload.org_status@) == after);
    law_write_twice::<Program>(
        state,
        program_address(g),
        g,
        after,
        "Cannot decode the program list"@,
    );
}

/// Law: publishing a program for a GTIN that has none, in a readable state,
/// succeeds, and the program then found for that GTIN is that GTIN's, with
/// no organisation status.
pub proof fn law_program_creation_stores_the_request(
    state: Seq<SlotView<ProgramView>>,
    payload: CreateProgramAction,
)
    requires
        program_found(state, payload.gtin@) == Ok::<Option<ProgramView>, Failure>(None),
    ensures
        program_creation(state, payload) is Ok,
        program_found(program_creation(state, payload)->Ok_0, payload.gtin@) matches Ok(Some(p))
            && p.gtin == payload.gtin@ && p.org_status.len() == 0,
{
    assert(program_creation(state, payload) is Ok);
    law_created_program_is_found(state, payload);
}

/// Law: an organisation recording its status in an existing program, in a
/// state whose list at the program's address holds it once and where the
/// program lists that organisation at most once, succeeds; the program found
/// afterwards has the same GTIN, a lookup of the organisation in it finds the
/// new status, and a lookup of any other organisation finds what it found
/// before.
pub proof fn law_org_status_update_effect(
    state: Seq<SlotView<ProgramView>>,
    payload: UpdateOrgStatus,
    other: Seq<char>,
)
    requires
        single_at::<Program>(state, program_address(payload.gtin@), payload.gtin@),
        program_found(state, payload.gtin@) matches Ok(Some(p)) && at_most_one_key::<OrgStatus>(
            p.org_status,
            payload.org_status.org_name@,
        ),
        other != payload.org_status.org_name@,
    ensures
        org_status_update(state, payload) is Ok,
        program_found(state, payload.gtin@) matches Ok(Some(b)) && program_found(
            org_status_update(state, payload)->Ok_0,
            payload.gtin@,
        ) matches Ok(Some(p)) && {
            &&& p.gtin == b.gtin
            &&& lookup::<OrgStatus>(p.org_status, payload.org_status.org_name@) == Some(
                payload.org_status@,
            )
            &&& lookup::<OrgStatus>(p.org_status, other) == lookup::<OrgStatus>(b.org_status, other)
            &&& p.org_status.last() == payload.org_status@
            &&& p.org_status.len() == b.org_status.len() + if lookup::<OrgStatus>(
                b.org_status,
                payload.org_status.org_name@,
            ) is Some {
                0int
            } else {
                1int
            }
        },
{
    assert(org_status_update(state, payload) is Ok);
    law_org_status_is_found(state, payload);
    let b = program_found(state, payload.gtin@)->Ok_0->Some_0;
    crate::record::law_lookup_other_after_upsert::<OrgStatus>(
        b.org_status,
        payload.org_status.org_name@,
        payload.org_status@,
        other,
    );
    crate::record::law_upsert_length::<OrgStatus>(
        b.org_status,
        payload.org_status.org_name@,
        payload.org_status@,
    );
}

/// Law: creating a program whose key is already taken is refused as an
/// invalid transaction, and creating one when the state at its address
/// cannot be read or decoded is refused with that failure's text.
pub proof fn law_program_creation_refusals(state: Seq<SlotView<ProgramView>>, payload: CreateProgramAction)
    ensures
        program_found(state, payload.gtin@) matches Ok(Some(_)) ==> program_creation(state, payload) == Err::<
            Seq<SlotView<ProgramView>>,
            Failure,
        >(Failure::InvalidTransaction("Program already exists: "@ + payload.gtin@)),
        program_found(state, payload.gtin@) matches Err(f) ==> program_creation(state, payload) == Err::<
            Seq<SlotView<ProgramView>>,
            Failure,
        >(Failure::InvalidTransaction("Failed to retrieve state: "@ + failure_text(f))),
{
}

/// Law: changing a program that does not exist is refused as an invalid
/// transaction naming it, and changing one when the state at its address
/// cannot be read or decoded is refused with that failure's text.
pub proof fn law_program_change_refusals(state: Seq<SlotView<ProgramView>>, payload: UpdateOrgStatus)
    ensures
        program_found(state, payload.gtin@) == Ok::<Option<ProgramView>, Failure>(None) ==> org_status_update(
            state,
            payload,
        ) == Err::<Seq<SlotView<ProgramView>>, Failure>(Failure::InvalidTransaction("Program does not exists : "@ + payload.gtin@)),
        program_found(state, payload.gtin@) matches Err(f) ==> org_status_update(state, payload) == Err::<
            Seq<SlotView<ProgramView>>,
            Failure,
        >(Failure::InvalidTransaction("Failed to retrieve state: "@ + failure_text(f))),
{
}

} // verus!
