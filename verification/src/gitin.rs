//! The first draft of the program family's Sabre contract: a handler that
//! declares the family and accepts every transaction without touching state.

use vstd::prelude::*;
use crate::error::ApplyError;
use crate::record::{views, copy_all};

verus! {

/// The namespace of the draft program family.
pub const NAMESPACE: &'static str = "123456";

/// The draft transaction handler of the program family.
pub struct ProgramTransactionHandler {
    family_name: String,
    family_versions: Vec<String>,
    namespaces: Vec<String>,
}

impl View for ProgramTransactionHandler {
    type V = (Seq<char>, Seq<Seq<char>>, Seq<Seq<char>>);

    closed spec fn view(&self) -> (Seq<char>, Seq<Seq<char>>, Seq<Seq<char>>) {
        (self.family_name@, views(self.family_versions@), views(self.namespaces@))
    }
}

impl ProgramTransactionHandler {
    /// The handler of family `program`, version `0.1`, in namespace `123456`.
    pub fn new() -> (r: Self)
        ensures
            r@ == ("program"@, seq!["0.1"@], seq![NAMESPACE@]),
    {
        let r = ProgramTransactionHandler {
            family_name: "program".to_string(),
            family_versions: vec!["0.1".to_string()],
            namespaces: vec![NAMESPACE.to_string()],
        };
        assert(r@.1 =~= seq!["0.1"@]);
        assert(r@.2 =~= seq![NAMESPACE@]);
        r
    }

    /// The family's name.
    pub fn family_name(&self) -> (r: String)
        ensures
            r@ == self@.0,
    {
        self.family_name.clone()
    }

    /// The family's versions.
    pub fn family_versions(&self) -> (r: Vec<String>)
        ensures
            views(r@) == self@.1,
    {
        copy_all(&self.family_versions)
    }

    /// The namespaces of the family's addresses.
    pub fn namespaces(&self) -> (r: Vec<String>)
        ensures
            views(r@) == self@.2,
    {
        copy_all(&self.namespaces)
    }

    /// Handles a transaction: the draft does nothing with its payload.
    pub fn apply(&self, payload: &Vec<u8>) -> (r: Result<(), ApplyError>)
        ensures
            r is Ok,
    {
        Ok(())
    }
}

/// The draft's Sabre entry point: every transaction is accepted.
pub fn apply(payload: &Vec<u8>) -> (r: Result<bool, ApplyError>)
    ensures
        r matches Ok(b) && b,
{
    Ok(true)
}

} // verus!
