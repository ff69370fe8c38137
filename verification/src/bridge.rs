//! The host-call bridge: the closed set of named, synchronous operations a
//! running script can invoke. Each operation takes the registry for its
//! own read or mutation only — the caller holds the registry's lock for
//! exactly that span — and every failure path returns a structured error
//! value; no native fault crosses the boundary.
//!
//! The wire layer around these functions decodes a script's JSON arguments
//! into the plain values taken here and encodes the plain results back;
//! arguments it cannot decode fail with an argument error before reaching
//! the registry.

use crate::chain::{clone_accounts, Account, ChainConfig, MainConfig};
use crate::errors::HarnessError;
use crate::registry::{
    config_ok, created_ok, same_identity, same_sessions_except, ChainSession, SessionRegistry,
};
use crate::sim::{
    address_ok, canonical_principal, is_valid_address, sim_advance_one, sim_set_sender,
};
use vstd::prelude::*;
use vstd::string::StringExecFns;
use vstd::utf8::is_ascii_chars;

verus! {

/// The `setup_chain` host call: creates a new session from the loaded
/// project and chain configuration and returns the issued id together
/// with the account snapshot the session was seeded with.
pub fn handle_setup_chain(
    reg: &mut SessionRegistry,
    project: &MainConfig,
    chain: &ChainConfig,
) -> (r: Result<(u32, Vec<Account>), HarnessError>)
    requires
        old(reg).wf(),
        old(reg)@.len() < u32::MAX,
    ensures
        final(reg).wf(),
        r is Ok <==> config_ok(*project, *chain),
        match r {
            Ok((id, accounts)) => created_ok(old(reg)@, final(reg)@, *project, *chain, id, accounts@),
            Err(e) => final(reg)@ == old(reg)@ && e is ConfigError,
        },
{
    reg.create_session(project, chain)
}

/// The `mine_block` host call: advances the session's simulator by one
/// block, applying queued transactions deterministically, and returns the
/// new block height. An unknown id fails with `SessionNotFound`; a session
/// whose height has reached the integer limit fails with `SimulatorError`;
/// a failed call leaves the registry unmodified.
pub fn mine_block(reg: &mut SessionRegistry, session_id: u32) -> (r: Result<u32, HarnessError>)
    requires
        old(reg).wf(),
    ensures
        final(reg).wf(),
        r is Ok <==> ((session_id as int) < old(reg)@.len() && old(reg)@[session_id as int].height
            < u32::MAX),
        match r {
            Ok(h) => {
                &&& same_sessions_except(old(reg)@, final(reg)@, session_id as int)
                &&& same_identity(old(reg)@[session_id as int], final(reg)@[session_id as int])
                &&& h == old(reg)@[session_id as int].height + 1
                &&& final(reg)@[session_id as int].height == h
                &&& final(reg)@[session_id as int].sender() == old(reg)@[session_id as int].sender()
            },
            Err(e) => {
                &&& final(reg)@ == old(reg)@
                &&& ((session_id as int) >= old(reg)@.len() ==> e == HarnessError::SessionNotFound(
                    session_id,
                ))
                &&& ((session_id as int) < old(reg)@.len() ==> e is SimulatorError)
            },
        },
{
    let idx = session_id as usize;
    if idx >= reg.session_count() {
        return Err(HarnessError::SessionNotFound(session_id));
    }
    if reg.sessions[idx].height == u32::MAX {
        return Err(
            HarnessError::SimulatorError(
                String::from_str("the simulated chain cannot grow any further"),
            ),
        );
    }
    let s = &mut reg.sessions[idx];
    let h = sim_advance_one(&mut s.sim);
    s.height = h;
    Ok(h)
}

/// The `set_tx_sender` host call: sets the default transaction sender for
/// subsequent simulator calls on that session. An unknown id fails with
/// `SessionNotFound`, a malformed address with `ArgumentError`; a failed
/// call leaves the registry unmodified.
pub fn set_tx_sender(reg: &mut SessionRegistry, session_id: u32, address: &str) -> (r: Result<
    (),
    HarnessError,
>)
    requires
        old(reg).wf(),
    ensures
        final(reg).wf(),
        r is Ok <==> ((session_id as int) < old(reg)@.len() && is_ascii_chars(address@)
            && address_ok(address@)),
        match r {
            Ok(_) => {
                &&& same_sessions_except(old(reg)@, final(reg)@, session_id as int)
                &&& same_identity(old(reg)@[session_id as int], final(reg)@[session_id as int])
                &&& final(reg)@[session_id as int].sender() == canonical_principal(address@)
                &&& final(reg)@[session_id as int].height == old(reg)@[session_id as int].height
            },
            Err(e) => {
                &&& final(reg)@ == old(reg)@
                &&& ((session_id as int) >= old(reg)@.len() ==> e == HarnessError::SessionNotFound(
                    session_id,
                ))
                &&& ((session_id as int) < old(reg)@.len() ==> e is ArgumentError && !(
                is_ascii_chars(address@) && address_ok(address@)))
            },
        },
{
    let idx = session_id as usize;
    if idx >= reg.session_count() {
        return Err(HarnessError::SessionNotFound(session_id));
    }
    if !address.is_ascii() || !is_valid_address(address) {
        return Err(
            HarnessError::ArgumentError(String::from_str("the sender address is malformed")),
        );
    }
    let s = &mut reg.sessions[idx];
    sim_set_sender(&mut s.sim, address);
    Ok(())
}

/// The `get_accounts` host call: a snapshot of the session's account list,
/// in the same order as at creation. An unknown id fails with
/// `SessionNotFound`.
pub fn get_accounts(reg: &SessionRegistry, session_id: u32) -> (r: Result<
    Vec<Account>,
    HarnessError,
>)
    ensures
        r is Ok <==> (session_id as int) < reg@.len(),
        match r {
            Ok(accounts) => accounts@ == reg@[session_id as int].accounts@,
            Err(e) => e == HarnessError::SessionNotFound(session_id),
        },
{
    let idx = session_id as usize;
    if idx >= reg.session_count() {
        return Err(HarnessError::SessionNotFound(session_id));
    }
    Ok(clone_accounts(&reg.sessions[idx].accounts))
}

/// One successful `mine_block` on session `id`, seen at the model level.
pub open spec fn mined_once(pre: Seq<ChainSession>, post: Seq<ChainSession>, id: int) -> bool {
    &&& 0 <= id < pre.len()
    &&& same_sessions_except(pre, post, id)
    &&& same_identity(pre[id], post[id])
    &&& post[id].height == pre[id].height + 1
}

/// Mining is cumulative: across any chain of registry states in which
/// every consecutive pair is one successful `mine_block` on the same
/// session, that session's block height rises by exactly the number of
/// calls.
pub proof fn lemma_mine_block_accumulates(states: Seq<Seq<ChainSession>>, id: int)
    requires
        states.len() >= 1,
        forall|k: int|
            0 <= k < states.len() - 1 ==> mined_once(#[trigger] states[k], states[k + 1], id),
    ensures
        states.last()[id].height == states[0][id].height + (states.len() - 1),
    decreases states.len(),
{
    if states.len() > 1 {
        let shorter = states.drop_last();
        assert forall|k: int|
            0 <= k < shorter.len() - 1 implies mined_once(#[trigger] shorter[k], shorter[k + 1], id) by {
            assert(shorter[k] == states[k]);
            assert(shorter[k + 1] == states[k + 1]);
        }
        lemma_mine_block_accumulates(shorter, id);
        assert(shorter.last() == states[states.len() - 2]);
        assert(mined_once(states[states.len() - 2], states[states.len() - 1], id));
    }
}

} // verus!
