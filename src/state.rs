use vstd::prelude::*;

use crate::block::WorkingBlockOption;
use crate::error::PbftError;
use crate::membership::{distinct_peers, fault_bound, node_id_lookup, valid_membership, Membership};
use crate::message_type::PbftMessageType;
use crate::text::{decimal, decimal_of, hex_of, hex_prefix, pad_two, prefix};
use crate::timing::Timeout;

verus! {

/// Possible roles for a node; the primary is in charge of making consensus
/// decisions.
#[derive(Debug, Clone, Copy, PartialEq, Eq, Structural)]
pub enum PbftNodeRole {
    Primary,
    Secondary,
}

/// Stages of one consensus round.
#[derive(Debug, Clone, Copy, PartialEq, Eq, PartialOrd, Structural)]
pub enum PbftPhase {
    NotStarted,
    PrePreparing,
    Preparing,
    Checking,
    Committing,
    Finished,
}

/// Normal operation, or one of the two excursions that suspend it.
#[derive(Debug, Clone, Copy, PartialEq, Eq, Structural)]
pub enum PbftMode {
    Normal,
    ViewChanging,
    Checkpointing,
}

/// The static configuration of a node.
#[derive(Debug)]
pub struct PbftConfig {
    /// Each member of the network: its peer identifier and its node identifier.
    pub peers: Vec<(Vec<u8>, u64)>,
    /// Milliseconds without a timely message before a view change starts.
    pub view_change_timeout: u64,
}

/// The single legal successor of each phase.
pub open spec fn next_phase(p: PbftPhase) -> PbftPhase {
    match p {
        PbftPhase::NotStarted => PbftPhase::PrePreparing,
        PbftPhase::PrePreparing => PbftPhase::Preparing,
        PbftPhase::Preparing => PbftPhase::Checking,
        PbftPhase::Checking => PbftPhase::Committing,
        PbftPhase::Committing => PbftPhase::Finished,
        PbftPhase::Finished => PbftPhase::NotStarted,
    }
}

/// The position of a phase in the round.
pub open spec fn phase_index(p: PbftPhase) -> int {
    match p {
        PbftPhase::NotStarted => 0,
        PbftPhase::PrePreparing => 1,
        PbftPhase::Preparing => 2,
        PbftPhase::Checking => 3,
        PbftPhase::Committing => 4,
        PbftPhase::Finished => 5,
    }
}

/// The kind of message sent or expected in a phase; `Unset` where none is.
pub open spec fn msg_type_for(p: PbftPhase) -> PbftMessageType {
    match p {
        PbftPhase::PrePreparing => PbftMessageType::PrePrepare,
        PbftPhase::Preparing => PbftMessageType::Prepare,
        PbftPhase::Checking => PbftMessageType::Prepare,
        PbftPhase::Committing => PbftMessageType::Commit,
        _ => PbftMessageType::Unset,
    }
}

/// The state of the consensus algorithm at one node.
#[derive(Debug)]
pub struct PbftState {
    /// This node's identifier
    pub id: u64,
    /// The current sequence number; 0 stands for an unknown one
    pub seq_num: u64,
    /// The current view; its primary is the node `view mod n`
    pub view: u64,
    /// Current phase of the round
    pub phase: PbftPhase,
    /// Is this node primary or secondary? Changed by `upgrade_role` and
    /// `downgrade_role` only
    pub role: PbftNodeRole,
    /// Normal operation, view change, or checkpointing
    pub mode: PbftMode,
    /// The mode to return to when an excursion ends
    pub pre_checkpoint_mode: PbftMode,
    /// The members of the network, including this node
    pub network_node_ids: Membership,
    /// The largest number of faulty nodes that the network tolerates
    pub f: u64,
    /// Expires when the primary has sent nothing timely for too long
    pub timeout: Timeout,
    /// The block under agreement
    pub working_block: WorkingBlockOption,
}

impl PbftState {
    /// The number of members.
    pub open spec fn n(&self) -> int {
        self.network_node_ids@.len() as int
    }

    /// The membership is well formed, the node is a member, and `f` is the
    /// fault bound of the network.
    pub open spec fn wf(&self) -> bool {
        &&& self.network_node_ids.wf()
        &&& self.id < self.n()
        &&& self.f == fault_bound(self.n())
    }

    /// The node of this view's primary.
    pub open spec fn primary_node(&self) -> int {
        self.view as int % self.n()
    }

    /// The stored role agrees with the role that the view gives.
    pub open spec fn role_in_sync(&self) -> bool {
        (self.role is Primary) <==> self.id as int == self.primary_node()
    }

    /// The state after a checkpoint starts: the mode is saved, then set.
    pub open spec fn spec_enter_checkpointing(self) -> PbftState {
        PbftState { pre_checkpoint_mode: self.mode, mode: PbftMode::Checkpointing, ..self }
    }

    /// The state after a view change starts: the mode is saved, then set, and
    /// the view moves on by one.
    pub open spec fn spec_enter_view_change(self) -> PbftState {
        PbftState {
            pre_checkpoint_mode: self.mode,
            mode: PbftMode::ViewChanging,
            view: (self.view + 1) as u64,
            ..self
        }
    }

    /// The state after an excursion ends: the saved mode is restored.
    pub open spec fn spec_restore_mode(self) -> PbftState {
        PbftState { mode: self.pre_checkpoint_mode, ..self }
    }

    /// Builds the state of node `id` from the static configuration: view 0,
    /// sequence number 0 (unknown), phase `NotStarted`, mode `Normal`, no
    /// working block, an inactive timeout, and the primary role exactly for
    /// node 0, the primary of view 0.
    pub fn new(id: u64, config: &PbftConfig) -> (r: Result<PbftState, PbftError>)
        ensures
            !valid_membership(config.peers@) <==> r == Err::<PbftState, PbftError>(
                PbftError::InvalidMembership,
            ),
            (valid_membership(config.peers@) && id >= config.peers@.len()) <==> r == Err::<
                PbftState,
                PbftError,
            >(PbftError::NodeNotFound),
            r matches Ok(s) ==> s.wf() && s.n() == config.peers@.len() && s.f == fault_bound(
                config.peers@.len() as int,
            ),
            r matches Ok(s) ==> forall|i: int|
                0 <= i < config.peers@.len() ==> s.network_node_ids@[config.peers@[i].1 as int]
                    == #[trigger] config.peers@[i].0@,
            r matches Ok(s) ==> s.id == id && s.seq_num == 0 && s.view == 0 && s.phase
                == PbftPhase::NotStarted,
            r matches Ok(s) ==> s.role == (if id == 0 {
                PbftNodeRole::Primary
            } else {
                PbftNodeRole::Secondary
            }) && s.role_in_sync(),
            r matches Ok(s) ==> s.mode == PbftMode::Normal && s.pre_checkpoint_mode
                == PbftMode::Normal,
            r matches Ok(s) ==> s.timeout == Timeout::new_spec(config.view_change_timeout)
                && s.working_block == WorkingBlockOption::NoWorkingBlock,
    {
        let membership = match Membership::from_peers(&config.peers) {
            Ok(m) => m,
            Err(e) => {
                return Err(e);
            },
        };
        let n = membership.len();
        if id >= n {
            return Err(PbftError::NodeNotFound);
        }
        let f = membership.fault_bound();
        let state = PbftState {
                id,
                seq_num: 0,
                view: 0,
                phase: PbftPhase::NotStarted,
                role: if id == 0 {
                    PbftNodeRole::Primary
                } else {
                    PbftNodeRole::Secondary
                },
                mode: PbftMode::Normal,
                pre_checkpoint_mode: PbftMode::Normal,
                network_node_ids: membership,
                f,
                timeout: Timeout::new(config.view_change_timeout),
                working_block: WorkingBlockOption::NoWorkingBlock,
            };
        assert(state.primary_node() == 0) by {
            let m = state.n();
            assert(m >= 1);
            assert(0int % m == 0) by (nonlinear_arith)
                requires
                    m >= 1,
            ;
        }
        assert(forall|i: int|
            0 <= i < config.peers@.len() ==> state.network_node_ids@[config.peers@[i].1 as int]
                == #[trigger] config.peers@[i].0@);
        Ok(state)
    }

    /// The kind of message that the node sends or expects next.
    pub fn check_msg_type(&self) -> (r: PbftMessageType)
        ensures
            r == msg_type_for(self.phase),
    {
        match self.phase {
            PbftPhase::PrePreparing => PbftMessageType::PrePrepare,
            PbftPhase::Preparing => PbftMessageType::Prepare,
            PbftPhase::Checking => PbftMessageType::Prepare,
            PbftPhase::Committing => PbftMessageType::Commit,
            _ => PbftMessageType::Unset,
        }
    }

    /// The node identifier of the member with peer identifier `peer_id`;
    /// `NodeNotFound` when no member has it.
    pub fn get_node_id_from_bytes(&self, peer_id: &[u8]) -> (r: Result<u64, PbftError>)
        requires
            self.wf(),
        ensures
            r == node_id_lookup(self.network_node_ids@, peer_id@),
    {
        self.network_node_ids.node_id_of(peer_id)
    }

    /// This node's peer identifier.
    pub fn get_own_peer_id(&self) -> (r: Vec<u8>)
        requires
            self.wf(),
        ensures
            r@ == self.network_node_ids@[self.id as int],
    {
        self.network_node_ids.peer_id(self.id)
    }

    /// The peer identifier of the current view's primary.
    pub fn get_primary_peer_id(&self) -> (r: Vec<u8>)
        requires
            self.wf(),
        ensures
            r@ == self.network_node_ids@[self.primary_node()],
    {
        self.network_node_ids.primary_peer_id(self.view)
    }

    /// Whether this node holds the primary role.
    pub fn is_primary(&self) -> (r: bool)
        ensures
            r == (self.role is Primary),
    {
        match self.role {
            PbftNodeRole::Primary => true,
            PbftNodeRole::Secondary => false,
        }
    }

    /// Makes this node the primary.
    pub fn upgrade_role(&mut self)
        ensures
            *final(self) == (PbftState { role: PbftNodeRole::Primary, ..*old(self) }),
    {
        self.role = PbftNodeRole::Primary;
    }

    /// Makes this node a secondary.
    pub fn downgrade_role(&mut self)
        ensures
            *final(self) == (PbftState { role: PbftNodeRole::Secondary, ..*old(self) }),
    {
        self.role = PbftNodeRole::Secondary;
    }

    /// Moves to `desired_phase` if it is the successor of the current phase,
    /// and returns it; otherwise changes nothing and returns `None`.
    pub fn switch_phase(&mut self, desired_phase: PbftPhase) -> (r: Option<PbftPhase>)
        ensures
            desired_phase == next_phase(old(self).phase) ==> r == Some(desired_phase)
                && *final(self) == (PbftState { phase: desired_phase, ..*old(self) }),
            desired_phase != next_phase(old(self).phase) ==> r is None && *final(self) == *old(
                self,
            ),
    {
        let next = match self.phase {
            PbftPhase::NotStarted => PbftPhase::PrePreparing,
            PbftPhase::PrePreparing => PbftPhase::Preparing,
            PbftPhase::Preparing => PbftPhase::Checking,
            PbftPhase::Checking => PbftPhase::Committing,
            PbftPhase::Committing => PbftPhase::Finished,
            PbftPhase::Finished => PbftPhase::NotStarted,
        };
        if desired_phase == next {
            self.phase = desired_phase;
            Some(desired_phase)
        } else {
            None
        }
    }

    /// Starts a checkpoint, saving the mode that was active.
    pub fn enter_checkpointing(&mut self)
        ensures
            *final(self) == old(self).spec_enter_checkpointing(),
    {
        self.pre_checkpoint_mode = self.mode;
        self.mode = PbftMode::Checkpointing;
    }

    /// Starts a view change, saving the mode that was active and moving to
    /// the next view. The role is not changed: the caller upgrades or
    /// downgrades it when the view change completes.
    pub fn enter_view_change(&mut self)
        requires
            old(self).view < u64::MAX,
        ensures
            *final(self) == old(self).spec_enter_view_change(),
    {
        self.pre_checkpoint_mode = self.mode;
        self.mode = PbftMode::ViewChanging;
        self.view = self.view + 1;
    }

    /// Ends an excursion, returning to the mode saved when it began.
    pub fn restore_mode(&mut self)
        ensures
            *final(self) == old(self).spec_restore_mode(),
    {
        self.mode = self.pre_checkpoint_mode;
    }
}

/// The two-character code of each phase.
pub open spec fn phase_code(p: PbftPhase) -> Seq<char> {
    match p {
        PbftPhase::NotStarted => "NS"@,
        PbftPhase::PrePreparing => "PP"@,
        PbftPhase::Preparing => "Pr"@,
        PbftPhase::Checking => "Ch"@,
        PbftPhase::Committing => "Co"@,
        PbftPhase::Finished => "Fi"@,
    }
}

/// The one-character code of each mode.
pub open spec fn mode_code(m: PbftMode) -> Seq<char> {
    match m {
        PbftMode::Normal => "N"@,
        PbftMode::Checkpointing => "C"@,
        PbftMode::ViewChanging => "V"@,
    }
}

/// How the working block is shown: the first six hexadecimal digits of a
/// bound block's identifier, the first five of a tentative one and a `~`,
/// or `~none~`.
pub open spec fn working_block_text(wb: WorkingBlockOption) -> Seq<char> {
    match wb {
        WorkingBlockOption::WorkingBlock(block) => prefix(hex_of(block.block_id@), 6),
        WorkingBlockOption::TentativeWorkingBlock(block_id) => prefix(hex_of(block_id@), 5)
            + "~"@,
        WorkingBlockOption::NoWorkingBlock => "~none~"@,
    }
}

/// The one-line rendering of a state: phase, mode, view, sequence number,
/// working block, a `*` for the primary, and the node identifier in at least
/// two digits.
pub open spec fn state_text(s: PbftState) -> Seq<char> {
    "("@ + phase_code(s.phase) + " "@ + mode_code(s.mode) + " "@ + decimal_of(s.view as nat)
        + ", seq "@ + decimal_of(s.seq_num as nat) + ", wb "@ + working_block_text(
        s.working_block,
    ) + "), Node "@ + (if s.role is Primary {
        "*"@
    } else {
        " "@
    }) + pad_two(decimal_of(s.id as nat))
}

impl PbftState {
    /// The one-line rendering of the state, for log lines.
    pub fn to_string(&self) -> (r: String)
        ensures
            r@ == state_text(*self),
    {
        let ast = if self.is_primary() {
            "*"
        } else {
            " "
        };
        let mode = match self.mode {
            PbftMode::Normal => "N",
            PbftMode::Checkpointing => "C",
            PbftMode::ViewChanging => "V",
        };
        let phase = match self.phase {
            PbftPhase::NotStarted => "NS",
            PbftPhase::PrePreparing => "PP",
            PbftPhase::Preparing => "Pr",
            PbftPhase::Checking => "Ch",
            PbftPhase::Committing => "Co",
            PbftPhase::Finished => "Fi",
        };
        let wb = match &self.working_block {
            WorkingBlockOption::WorkingBlock(block) => hex_prefix(block.get_block_id().as_slice(), 6),
            WorkingBlockOption::TentativeWorkingBlock(block_id) => {
                let mut t = hex_prefix(block_id.as_slice(), 5);
                t.append("~");
                t
            },
            WorkingBlockOption::NoWorkingBlock => "~none~".to_owned(),
        };
        let mut id = decimal(self.id);
        if self.id < 10 {
            let mut padded = "0".to_owned();
            padded.append(id.as_str());
            id = padded;
        }
        let mut out = "(".to_owned();
        out.append(phase);
        out.append(" ");
        out.append(mode);
        out.append(" ");
        out.append(decimal(self.view).as_str());
        out.append(", seq ");
        out.append(decimal(self.seq_num).as_str());
        out.append(", wb ");
        out.append(wb.as_str());
        out.append("), Node ");
        out.append(ast);
        out.append(id.as_str());
        proof {
            reveal_strlit("0");
            if self.id < 10 {
                assert(decimal_of(self.id as nat).len() == 1);
            } else {
                assert(decimal_of(self.id as nat).len() >= 2) by {
                    lemma_decimal_len(self.id as nat);
                }
            }
        }
        assert(out@ =~= state_text(*self));
        out
    }
}

proof fn lemma_decimal_len(n: nat)
    requires
        n >= 10,
    ensures
        decimal_of(n).len() >= 2,
{
    reveal_with_fuel(decimal_of, 2);
}

/// A successful phase switch moves one step forward in the round, or wraps
/// from `Finished` back to `NotStarted`; it never skips or goes back.
pub proof fn lemma_switch_never_skips(p: PbftPhase)
    ensures
        phase_index(next_phase(p)) == phase_index(p) + 1 || (p == PbftPhase::Finished
            && next_phase(p) == PbftPhase::NotStarted),
        phase_index(next_phase(p)) == (phase_index(p) + 1) % 6,
{
}

proof fn lemma_phase_run_at(run: Seq<PbftPhase>, k: int)
    requires
        forall|i: int| 0 <= i < run.len() - 1 ==> run[i + 1] == #[trigger] next_phase(run[i]),
        0 <= k < run.len(),
    ensures
        phase_index(run[k]) == (phase_index(run[0]) + k) % 6,
    decreases k,
{
    if k > 0 {
        lemma_phase_run_at(run, k - 1);
        assert(run[k] == next_phase(run[k - 1]));
        lemma_switch_never_skips(run[k - 1]);
        let y = phase_index(run[0]) + k - 1;
        assert(((y % 6) + 1) % 6 == (y + 1) % 6) by (nonlinear_arith)
            requires
                y >= 0,
        ;
    }
}

/// Along any run of accepted phase switches, the phase after `k` switches is
/// `k` steps further round the cycle.
pub proof fn lemma_phase_run(run: Seq<PbftPhase>)
    requires
        forall|i: int| 0 <= i < run.len() - 1 ==> run[i + 1] == #[trigger] next_phase(run[i]),
    ensures
        forall|k: int|
            0 <= k < run.len() ==> #[trigger] phase_index(run[k]) == (phase_index(run[0]) + k)
                % 6,
{
    assert forall|k: int| 0 <= k < run.len() implies #[trigger] phase_index(run[k]) == (
    phase_index(run[0]) + k) % 6 by {
        lemma_phase_run_at(run, k);
    }
}

/// `f = (n - 1) / 3` is the largest number of faults that `n` members
/// tolerate: `3f + 1 <= n < 3(f + 1) + 1`.
pub proof fn lemma_fault_bound(n: int)
    requires
        n >= 1,
    ensures
        fault_bound(n) >= 0,
        3 * fault_bound(n) + 1 <= n,
        n < 3 * (fault_bound(n) + 1) + 1,
{
}

/// In one view, states whose roles are in sync agree on the primary: it is
/// one member, and no two different nodes both hold the primary role.
pub proof fn lemma_single_primary(a: PbftState, b: PbftState)
    requires
        a.wf(),
        b.wf(),
        a.network_node_ids@ == b.network_node_ids@,
        a.view == b.view,
        a.role_in_sync(),
        b.role_in_sync(),
    ensures
        0 <= a.primary_node() < a.n(),
        a.primary_node() == b.primary_node(),
        (a.role is Primary && b.role is Primary) ==> a.id == b.id,
        a.id == b.id ==> a.role == b.role,
{
}

/// Looking up each configured peer identifier gives its node identifier.
pub proof fn lemma_lookup_round_trip(pairs: Seq<(Vec<u8>, u64)>, m: Seq<Seq<u8>>)
    requires
        valid_membership(pairs),
        distinct_peers(m),
        m.len() == pairs.len(),
        forall|i: int| 0 <= i < pairs.len() ==> m[pairs[i].1 as int] == #[trigger] pairs[i].0@,
    ensures
        forall|i: int|
            0 <= i < pairs.len() ==> node_id_lookup(m, #[trigger] pairs[i].0@) == Ok::<
                u64,
                PbftError,
            >(pairs[i].1),
        forall|peer: Seq<u8>|
            !m.contains(peer) ==> node_id_lookup(m, peer) == Err::<u64, PbftError>(
                PbftError::NodeNotFound,
            ),
{
    assert forall|i: int| 0 <= i < pairs.len() implies node_id_lookup(m, #[trigger] pairs[i].0@)
        == Ok::<u64, PbftError>(pairs[i].1) by {
        let k = pairs[i].1 as int;
        assert(m[k] == pairs[i].0@);
        let c = choose|c: int| 0 <= c < m.len() && m[c] == pairs[i].0@;
        assert(m[c] == m[k]);
    }
    assert forall|peer: Seq<u8>| !m.contains(peer) implies node_id_lookup(m, peer) == Err::<
        u64,
        PbftError,
    >(PbftError::NodeNotFound) by {
        if exists|k: int| 0 <= k < m.len() && m[k] == peer {
            let k = choose|k: int| 0 <= k < m.len() && m[k] == peer;
            assert(m.contains(peer));
        }
    }
}

/// Ending an excursion restores the mode that was active just before it
/// began, for a checkpoint and for a view change alike.
pub proof fn lemma_mode_round_trip(s: PbftState)
    ensures
        s.spec_enter_checkpointing().spec_restore_mode().mode == s.mode,
        s.view < u64::MAX ==> s.spec_enter_view_change().spec_restore_mode().mode == s.mode,
        s.spec_enter_view_change().spec_enter_checkpointing().pre_checkpoint_mode
            == PbftMode::ViewChanging,
{
}

/// `Unset` is what the node expects when no round is in progress, and the
/// `Checking` phase still takes `Prepare` messages.
pub proof fn lemma_msg_type_by_phase()
    ensures
        msg_type_for(PbftPhase::NotStarted) == PbftMessageType::Unset,
        msg_type_for(PbftPhase::Finished) == PbftMessageType::Unset,
        msg_type_for(PbftPhase::Preparing) == PbftMessageType::Prepare,
        msg_type_for(PbftPhase::Checking) == PbftMessageType::Prepare,
        forall|p: PbftPhase| #[trigger] msg_type_for(p).spec_is_multicast() <==> (p
            != PbftPhase::NotStarted && p != PbftPhase::Finished),
{
}

} // verus!
