//! The session registry: the one piece of state shared by every execution
//! context of a test run. It owns the mapping from session id to simulated
//! chain session. Ids are the mapping's cardinality at insertion time, so
//! they are dense, and — since sessions are never removed — an id is never
//! issued twice. The registry is owned by the test-run context and handed
//! to the host-call bridge at construction; the caller serializes access
//! with a single lock, taking it only for the span of one operation.

use crate::chain::{
    account_matches, clone_accounts, contract_matches, Account, ChainConfig, Contract, MainConfig,
    DEFAULT_DEPLOYER,
};
use crate::errors::HarnessError;
use crate::sim::{address_ok, is_valid_address, sim_get_sender, sim_height, sim_new, sim_sender};
use vstd::prelude::*;
use vstd::string::StringExecFns;
use vstd::utf8::is_ascii_chars;

verus! {

/// One simulated blockchain instance: its identity, the accounts and
/// contracts it was seeded with, the chain height reached so far, and the
/// simulator state it exclusively owns.
pub struct ChainSession {
    pub id: u32,
    pub accounts: Vec<Account>,
    pub contracts: Vec<Contract>,
    /// The simulated chain height, mirrored out of the simulator so that
    /// executable code can read it.
    pub height: u32,
    /// The opaque simulator handle.
    pub sim: clarity_repl::repl::Session,
}

/// The mirrored height agrees with the simulator's own.
pub open spec fn session_wf(s: ChainSession) -> bool {
    s.height == sim_height(s.sim)
}

impl ChainSession {
    /// The canonical text of this session's default transaction sender.
    pub open spec fn sender(&self) -> Seq<char> {
        sim_sender(self.sim)
    }

    /// Reads the default transaction sender back from the simulator.
    pub fn current_sender(&self) -> (r: String)
        ensures
            r@ == self.sender(),
    {
        sim_get_sender(&self.sim)
    }
}

/// Only the session at `id` may differ between two registry states.
pub open spec fn same_sessions_except(pre: Seq<ChainSession>, post: Seq<ChainSession>, id: int) -> bool {
    &&& post.len() == pre.len()
    &&& forall|j: int| 0 <= j < pre.len() && j != id ==> post[j] == pre[j]
}

/// The session's identity and loaded data are kept: only simulator state
/// may move.
pub open spec fn same_identity(pre: ChainSession, post: ChainSession) -> bool {
    &&& post.id == pre.id
    &&& post.accounts@ == pre.accounts@
    &&& post.contracts@ == pre.contracts@
}

/// When a session can be created from a configuration: every contract
/// source was readable and every account address is a well-formed ASCII
/// principal literal.
pub open spec fn config_ok(project: MainConfig, chain: ChainConfig) -> bool {
    &&& forall|i: int|
        0 <= i < project.contracts@.len() ==> (#[trigger] project.contracts@[i]).source is Some
    &&& forall|i: int|
        0 <= i < chain.accounts@.len() ==> is_ascii_chars(
            (#[trigger] chain.accounts@[i]).address@,
        ) && address_ok(chain.accounts@[i].address@)
}

/// What a successful session creation guarantees: one session appended,
/// everything older untouched, the issued id fresh and equal to the old
/// cardinality, and the new session seeded exactly from the configuration,
/// order kept, at chain height zero.
pub open spec fn created_ok(
    pre: Seq<ChainSession>,
    post: Seq<ChainSession>,
    project: MainConfig,
    chain: ChainConfig,
    id: u32,
    accounts: Seq<Account>,
) -> bool {
    &&& post.len() == pre.len() + 1
    &&& forall|j: int| 0 <= j < pre.len() ==> post[j] == pre[j]
    &&& id as int == pre.len()
    &&& forall|j: int| 0 <= j < pre.len() ==> id != (#[trigger] pre[j]).id
    &&& post.last().id == id
    &&& accounts == post.last().accounts@
    &&& accounts.len() == chain.accounts@.len()
    &&& forall|j: int|
        0 <= j < chain.accounts@.len() ==> account_matches(
            chain.accounts@[j],
            #[trigger] accounts[j],
        )
    &&& post.last().contracts@.len() == project.contracts@.len()
    &&& forall|j: int|
        0 <= j < project.contracts@.len() ==> contract_matches(
            project.contracts@[j],
            #[trigger] post.last().contracts@[j],
        )
    &&& post.last().height == 0
}

/// The registry: session id to session, keys unique. Stored as a vector
/// whose index is the id, which realizes the mapping because ids are
/// issued densely and never reused.
pub struct SessionRegistry {
    pub sessions: Vec<ChainSession>,
}

impl View for SessionRegistry {
    type V = Seq<ChainSession>;

    open spec fn view(&self) -> Seq<ChainSession> {
        self.sessions@
    }
}

impl SessionRegistry {
    /// Well-formed: the session at index `i` carries id `i` — ids are
    /// dense and unique — and every mirrored height agrees with its
    /// simulator.
    pub open spec fn wf(&self) -> bool {
        forall|i: int|
            0 <= i < self@.len() ==> (#[trigger] self@[i]).id as int == i && session_wf(self@[i])
    }

    /// A fresh registry: no session exists, no id was ever issued.
    pub fn new() -> (r: Self)
        ensures
            r@ == Seq::<ChainSession>::empty(),
            r.wf(),
    {
        SessionRegistry { sessions: Vec::new() }
    }

    /// The number of sessions created so far.
    pub fn session_count(&self) -> (n: usize)
        ensures
            n == self@.len(),
    {
        self.sessions.len()
    }

    /// Creates a new session: loads every contract the manifest references,
    /// resolves every declared account, seeds a fresh simulator with them,
    /// and inserts the session under the next dense id. Fails with a
    /// configuration error — leaving the registry untouched — exactly when
    /// a contract source could not be read or an account address is
    /// malformed.
    pub fn create_session(&mut self, project: &MainConfig, chain: &ChainConfig) -> (r: Result<
        (u32, Vec<Account>),
        HarnessError,
    >)
        requires
            old(self).wf(),
            old(self)@.len() < u32::MAX,
        ensures
            final(self).wf(),
            r is Ok <==> config_ok(*project, *chain),
            match r {
                Ok((id, accounts)) => created_ok(
                    old(self)@,
                    final(self)@,
                    *project,
                    *chain,
                    id,
                    accounts@,
                ),
                Err(e) => final(self)@ == old(self)@ && e is ConfigError,
            },
    {
        let mut contracts: Vec<Contract> = Vec::new();
        let mut i: usize = 0;
        while i < project.contracts.len()
            invariant
                self@ == old(self)@,
                self.wf(),
                i <= project.contracts@.len(),
                contracts@.len() == i,
                forall|j: int|
                    0 <= j < i ==> contract_matches(
                        project.contracts@[j],
                        #[trigger] contracts@[j],
                    ),
                forall|j: int| 0 <= j < i ==> (#[trigger] project.contracts@[j]).source is Some,
            decreases project.contracts@.len() - i,
        {
            let cc = &project.contracts[i];
            match &cc.source {
                None => {
                    return Err(
                        HarnessError::ConfigError(
                            String::from_str("a referenced contract file could not be read"),
                        ),
                    );
                },
                Some(code) => {
                    let deployer = match &cc.deployer {
                        Some(d) => d.clone(),
                        None => String::from_str(DEFAULT_DEPLOYER),
                    };
                    contracts.push(
                        Contract { name: cc.name.clone(), code: code.clone(), deployer },
                    );
                },
            }
            i += 1;
        }
        let mut accounts: Vec<Account> = Vec::new();
        let mut k: usize = 0;
        while k < chain.accounts.len()
            invariant
                self@ == old(self)@,
                self.wf(),
                k <= chain.accounts@.len(),
                accounts@.len() == k,
                forall|j: int|
                    0 <= j < k ==> account_matches(chain.accounts@[j], #[trigger] accounts@[j]),
                forall|j: int|
                    0 <= j < k ==> is_ascii_chars((#[trigger] chain.accounts@[j]).address@)
                        && address_ok(chain.accounts@[j].address@),
            decreases chain.accounts@.len() - k,
        {
            let ac = &chain.accounts[k];
            if !ac.address.as_str().is_ascii() || !is_valid_address(ac.address.as_str()) {
                return Err(
                    HarnessError::ConfigError(
                        String::from_str("an account address is malformed"),
                    ),
                );
            }
            accounts.push(
                Account {
                    name: ac.name.clone(),
                    address: ac.address.clone(),
                    balance: ac.balance,
                    mnemonic: ac.mnemonic.clone(),
                    derivation: ac.derivation.clone(),
                },
            );
            k += 1;
        }
        let sim = sim_new(&contracts, &accounts);
        let id = self.sessions.len() as u32;
        let accounts_out = clone_accounts(&accounts);
        self.sessions.push(ChainSession { id, accounts, contracts, height: 0, sim });
        Ok((id, accounts_out))
    }

    /// Looks a session up by id; fails with `SessionNotFound` exactly when
    /// the id was never issued.
    pub fn get_session(&self, session_id: u32) -> (r: Result<&ChainSession, HarnessError>)
        ensures
            r is Ok <==> (session_id as int) < self@.len(),
            match r {
                Ok(s) => *s == self@[session_id as int],
                Err(e) => e == HarnessError::SessionNotFound(session_id),
            },
    {
        let idx = session_id as usize;
        if idx < self.sessions.len() {
            Ok(&self.sessions[idx])
        } else {
            Err(HarnessError::SessionNotFound(session_id))
        }
    }
}

/// Ids issued by serialized creations always differ: whichever creation
/// the registry's lock admits first issues the cardinality it finds, the
/// other sees the mapping grown by one and issues a strictly larger value.
pub proof fn lemma_serialized_creates_distinct(
    pre: Seq<ChainSession>,
    mid: Seq<ChainSession>,
    id_first: u32,
    id_second: u32,
)
    requires
        id_first as int == pre.len(),
        mid.len() == pre.len() + 1,
        id_second as int == mid.len(),
    ensures
        id_first != id_second,
{
}

/// A registry state transition that keeps every already-loaded session's
/// identity, accounts and contracts (every bridge operation is one).
pub open spec fn keeps_loaded_data(pre: Seq<ChainSession>, post: Seq<ChainSession>) -> bool {
    &&& post.len() >= pre.len()
    &&& forall|i: int| 0 <= i < pre.len() ==> same_identity(#[trigger] pre[i], post[i])
}

/// The account snapshot is stable: across any chain of registry states in
/// which each step keeps loaded data — as every bridge operation does — a
/// session still holds exactly the accounts supplied when it was created,
/// in the same order.
pub proof fn lemma_accounts_stable(states: Seq<Seq<ChainSession>>, id: int)
    requires
        states.len() >= 1,
        forall|k: int|
            0 <= k < states.len() - 1 ==> keeps_loaded_data(#[trigger] states[k], states[k + 1]),
        0 <= id < states[0].len(),
    ensures
        states.last().len() >= states[0].len(),
        same_identity(states[0][id], states.last()[id]),
    decreases states.len(),
{
    if states.len() > 1 {
        let shorter = states.drop_last();
        assert forall|k: int|
            0 <= k < shorter.len() - 1 implies keeps_loaded_data(
            #[trigger] shorter[k],
            shorter[k + 1],
        ) by {
            assert(shorter[k] == states[k]);
            assert(shorter[k + 1] == states[k + 1]);
        }
        lemma_accounts_stable(shorter, id);
        assert(keeps_loaded_data(states[states.len() - 2], states[states.len() - 1]));
        assert(shorter.last() == states[states.len() - 2]);
    }
}

} // verus!
