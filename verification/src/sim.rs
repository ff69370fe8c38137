//! The chain simulator behind a session, held as an opaque handle.
//!
//! The simulator executes blockchain operations; this layer only relies on
//! the little the simulator's interface promises: a fresh simulator starts
//! at chain height zero, advancing the chain adds exactly the requested
//! number of blocks to that height, and the default transaction sender is
//! a stored value that only `set_tx_sender` moves. Those observations are
//! given names here, and every verified contract above speaks in them.

use crate::chain::{Account, Contract};
use vstd::prelude::*;
use vstd::utf8::is_ascii_chars;

verus! {

#[verifier::external_type_specification]
#[verifier::external_body]
pub struct ExReplSession(clarity_repl::repl::Session);

// The simulated chain height stored in a simulator value.
pub uninterp spec fn sim_height(s: clarity_repl::repl::Session) -> u32;

// The canonical text of the default transaction sender stored in a
// simulator value.
pub uninterp spec fn sim_sender(s: clarity_repl::repl::Session) -> Seq<char>;

// Whether a literal is a well-formed standard principal address.
pub uninterp spec fn address_ok(a: Seq<char>) -> bool;

// The canonical principal text a well-formed address literal denotes.
pub uninterp spec fn canonical_principal(a: Seq<char>) -> Seq<char>;

/// Relies on clarity_repl::repl::Session::new: a fresh simulator's
/// datastore starts at chain height 0. The deployer account is left
/// unset, so the default sender falls back to the burn address and the
/// parse inside cannot panic.
#[verifier::external_body]
pub(crate) fn sim_new(contracts: &Vec<Contract>, accounts: &Vec<Account>) -> (s:
    clarity_repl::repl::Session)
    ensures
        sim_height(s) == 0,
{
    let mut st = clarity_repl::repl::SessionSettings::default();
    for c in contracts.iter() {
        let (code, name) = (c.code.clone(), Some(c.name.clone()));
        let (path, deployer) = (String::new(), Some(c.deployer.clone()));
        let entry = clarity_repl::repl::settings::InitialContract { code, name, path, deployer };
        st.initial_contracts.push(entry);
    }
    for a in accounts.iter() {
        let (name, address, balance) = (a.name.clone(), a.address.clone(), a.balance);
        st.initial_accounts.push(clarity_repl::repl::settings::Account { name, address, balance });
    }
    clarity_repl::repl::Session::new(st)
}

/// Relies on clarity_repl::repl::Session::advance_chain_tip: the
/// datastore adds the requested count to its chain height and returns the
/// new height; nothing else of the observable state moves. Heights at the
/// integer limit are kept out because the datastore's height arithmetic
/// would overflow.
#[verifier::external_body]
pub(crate) fn sim_advance_one(s: &mut clarity_repl::repl::Session) -> (h: u32)
    requires
        sim_height(*old(s)) < u32::MAX,
    ensures
        sim_height(*final(s)) == sim_height(*old(s)) + 1,
        h == sim_height(*final(s)),
        sim_sender(*final(s)) == sim_sender(*old(s)),
{
    s.advance_chain_tip(1)
}

/// Relies on clarity_repl::repl::Session::set_tx_sender: the parsed
/// principal is stored as the default sender and the chain height is
/// untouched. It panics on an unparsable address, and the decode inside
/// slices the literal by byte index — a panic on multi-byte characters —
/// so only validated ASCII addresses may reach it.
#[verifier::external_body]
pub(crate) fn sim_set_sender(s: &mut clarity_repl::repl::Session, address: &str)
    requires
        is_ascii_chars(address@),
        address_ok(address@),
    ensures
        sim_sender(*final(s)) == canonical_principal(address@),
        sim_height(*final(s)) == sim_height(*old(s)),
{
    s.set_tx_sender(address.to_string());
}

/// Relies on clarity_repl::repl::Session::get_tx_sender: returns the
/// canonical text of the stored default sender.
#[verifier::external_body]
pub(crate) fn sim_get_sender(s: &clarity_repl::repl::Session) -> (r: String)
    ensures
        r@ == sim_sender(*s),
{
    s.get_tx_sender()
}

/// Relies on PrincipalData::parse_standard_principal: decides whether a
/// literal is a well-formed standard principal address; the decision is a
/// function of the literal alone. The decode inside slices the literal by
/// byte index and panics on multi-byte characters, so only ASCII literals
/// are admitted; callers test that first.
#[verifier::external_body]
pub fn is_valid_address(address: &str) -> (ok: bool)
    requires
        is_ascii_chars(address@),
    ensures
        ok == address_ok(address@),
{
    clarity_repl::clarity::types::PrincipalData::parse_standard_principal(address).is_ok()
}

} // verus!
