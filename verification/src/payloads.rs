//! The sample transactions that the payload tools of each family write out.

use vstd::prelude::*;
use vstd::string::*;
use crate::claims::{AgreementAction, AgreementPayload, CreateAgreement, SetAgreementStatus};
use crate::program::{
    CreateProgramAction, OrgStatus, ProgramAction, ProgramPayload, UpdateOrgStatus,
};
use crate::po::{CreatePO, Item, ItemView, POAction, POPayload, ReceivePO};
use crate::record::views;

verus! {

/// The bits of the double-precision value 195.0.
pub const PRICE_195_BITS: u64 = 0x4068_6000_0000_0000u64;

/// The bits of the double-precision value 1345.0.
pub const AMOUNT_1345_BITS: u64 = 0x4095_0400_0000_0000u64;

/// The bits of the double-precision value 19000.0.
pub const PRICE_19000_BITS: u64 = 0x40D2_8E00_0000_0000u64;

/// The bits of the double-precision value 56000.0.
pub const PRICE_56000_BITS: u64 = 0x40EB_5800_0000_0000u64;

/// The sample agreement creation: agreement `agreement-v1-1234` on GTIN
/// `00049000015966` at 195.0, effective `2019-19-10` until `2020-19-10`,
/// unit of quantity `100`, payment term `Net10`, originated by `SYY`.
pub fn create_agreement_payload() -> (r: AgreementPayload)
    ensures
        r.action == AgreementAction::CreateAgreement,
        r.create_agreement.name@ == "agreement-v1-1234"@,
        r.create_agreement.gtin@ == "00049000015966"@,
        r.create_agreement.price_bits == PRICE_195_BITS,
        r.create_agreement.effective_date@ == "2019-19-10"@,
        r.create_agreement.termination_date@ == "2020-19-10"@,
        r.create_agreement.unit_of_quantity@ == "100"@,
        r.create_agreement.payment_term@ == "Net10"@,
        r.create_agreement.origin_party@ == "SYY"@,
        r.set_agreement_status.name@ == Seq::<char>::empty(),
        r.set_agreement_status.party@ == Seq::<char>::empty(),
{
    let create_agree = CreateAgreement {
        name: String::from_str("agreement-v1-1234"),
        gtin: String::from_str("00049000015966"),
        price_bits: PRICE_195_BITS,
        effective_date: String::from_str("2019-19-10"),
        termination_date: String::from_str("2020-19-10"),
        unit_of_quantity: String::from_str("100"),
        payment_term: String::from_str("Net10"),
        origin_party: String::from_str("SYY"),
    };
    AgreementPayload {
        action: AgreementAction::CreateAgreement,
        create_agreement: create_agree,
        set_agreement_status: SetAgreementStatus { name: String::new(), party: String::new() },
    }
}

/// The sample program creation: a program for GTIN `12345678`.
pub fn create_program_payload() -> (r: ProgramPayload)
    ensures
        r.action == ProgramAction::CreateProgram,
        r.create_program.gtin@ == "12345678"@,
        r.update_org_status.gtin@ == Seq::<char>::empty(),
        r.update_org_status.org_status@.org_name == Seq::<char>::empty(),
        r.update_org_status.org_status@.status == Seq::<char>::empty(),
{
    ProgramPayload {
        action: ProgramAction::CreateProgram,
        create_program: CreateProgramAction { gtin: String::from_str("12345678") },
        update_org_status: UpdateOrgStatus {
            gtin: String::new(),
            org_status: OrgStatus { org_name: String::new(), status: String::new() },
        },
    }
}

/// The order lines of the sample purchase order.
pub open spec fn sample_items() -> Seq<ItemView> {
    seq![
        ItemView {
            gtin: "00099345897431"@,
            quantity: 100,
            price_bits: PRICE_19000_BITS,
            agreement_id: "agreement-v1-1234"@,
            carrier_name: "SYY"@,
        },
        ItemView {
            gtin: "00099345897465"@,
            quantity: 89,
            price_bits: PRICE_56000_BITS,
            agreement_id: "agreement-v2-1234"@,
            carrier_name: "DDD"@,
        },
    ]
}

/// The sample purchase order: `po-v1-1234` dated `2020-19-7` for 1345.0,
/// shipping `2019-19-14`, paid `2020-19-10`, originated by `SYY`, with two
/// order lines.
pub fn create_po_payload() -> (r: POPayload)
    ensures
        r.action == POAction::CreatePo,
        r.create_po.po_number@ == "po-v1-1234"@,
        r.create_po.po_date@ == "2020-19-7"@,
        r.create_po.total_amount_bits == AMOUNT_1345_BITS,
        r.create_po.ship_date@ == "2019-19-14"@,
        r.create_po.payment_date@ == "2020-19-10"@,
        r.create_po.origin_party@ == "SYY"@,
        views(r.create_po.items@) == sample_items(),
        r.receive_po.po_number@ == Seq::<char>::empty(),
        r.receive_po.party@ == Seq::<char>::empty(),
        r.receive_po.date@ == Seq::<char>::empty(),
{
    let item1 = Item {
        gtin: String::from_str("00099345897431"),
        quantity: 100,
        price_bits: PRICE_19000_BITS,
        agreement_id: String::from_str("agreement-v1-1234"),
        carrier_name: String::from_str("SYY"),
    };
    let item2 = Item {
        gtin: String::from_str("00099345897465"),
        quantity: 89,
        price_bits: PRICE_56000_BITS,
        agreement_id: String::from_str("agreement-v2-1234"),
        carrier_name: String::from_str("DDD"),
    };
    let mut items: Vec<Item> = Vec::new();
    items.push(item1);
    items.push(item2);
    assert(views(items@) =~= sample_items());
    let create_po = CreatePO {
        po_number: String::from_str("po-v1-1234"),
        po_date: String::from_str("2020-19-7"),
        total_amount_bits: AMOUNT_1345_BITS,
        ship_date: String::from_str("2019-19-14"),
        payment_date: String::from_str("2020-19-10"),
        origin_party: String::from_str("SYY"),
        items,
    };
    POPayload {
        action: POAction::CreatePo,
        create_po,
        receive_po: ReceivePO {
            po_number: String::new(),
            party: String::new(),
            date: String::new(),
        },
    }
}

} // verus!
