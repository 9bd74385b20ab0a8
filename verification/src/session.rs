use vstd::prelude::*;

use crate::network::NetworkCommand;

verus! {

/// What the orchestrator must do after consuming one command.
#[derive(Clone, Copy, Debug, PartialEq, Eq, Structural)]
pub enum Action {
    /// Keep waiting for the next command.
    Continue,
    /// Perform the DHCP reset procedure, then keep waiting.
    DoReset,
    /// Leave the run loop and tear the session down.
    Terminate,
}

/// How one pass over the run loop ended.
#[derive(Clone, Copy, Debug, PartialEq, Eq, Structural)]
pub enum LoopExit {
    /// A `Reset` command arrived: the caller must perform the DHCP reset and
    /// re-enter the loop with the same session.
    ResetRequested,
    /// A terminating command arrived: the session ended successfully.
    Terminated,
    /// Every sender was dropped without a terminating command: the session
    /// ended with a `ChannelClosed` error.
    ChannelClosed,
}

/// The outcome of one blocking read of the command channel.
#[derive(Clone, Copy, Debug, PartialEq, Eq, Structural)]
pub enum LoopStep {
    /// A command arrived and was consumed; the action it demands follows.
    Handled(Action),
    /// Every sender was dropped: the channel is closed.
    Closed,
}

/// One step of the terminal cleanup, in the order the steps must run.
#[derive(Clone, Copy, Debug, PartialEq, Eq, Structural)]
pub enum CleanupStep {
    /// Send the DHCP/DNS subprocess a graceful termination request and await
    /// its exit.
    StopSubprocess,
    /// Deactivate the access-point connection.
    DeactivatePortal,
    /// Delete the access-point connection profile.
    DeletePortal,
}

/// The orchestrator's live state: whether any client has hit an API endpoint
/// since start, and which of the two external resources are still owned.
///
/// The access-point connection and the DHCP/DNS subprocess themselves live
/// with the caller; the session records their ownership so that the single
/// cleanup path releases each exactly once.
#[derive(Clone, Copy, Debug, PartialEq, Eq, Structural)]
pub struct Session {
    pub user_connected: bool,
    pub portal_owned: bool,
    pub subprocess_owned: bool,
}

/// Whether `cmd` ends the run loop in state `s`: `Exit` and `OverallTimeout`
/// always do, `Timeout` only while no user has connected yet.
pub open spec fn spec_terminates(s: Session, cmd: NetworkCommand) -> bool {
    match cmd {
        NetworkCommand::Exit => true,
        NetworkCommand::OverallTimeout => true,
        NetworkCommand::Timeout => !s.user_connected,
        NetworkCommand::Reset => false,
        NetworkCommand::Activate => false,
    }
}

/// The session state after consuming one command: `Activate` latches
/// `user_connected`; no command releases a resource.
pub open spec fn spec_step(s: Session, cmd: NetworkCommand) -> Session {
    Session { user_connected: s.user_connected || cmd is Activate, ..s }
}

/// The action owed after consuming one command in state `s`.
pub open spec fn spec_action(s: Session, cmd: NetworkCommand) -> Action {
    if spec_terminates(s, cmd) {
        Action::Terminate
    } else if cmd is Reset {
        Action::DoReset
    } else {
        Action::Continue
    }
}

/// The run loop over a whole arrival sequence: commands are consumed in
/// order until one demands an action; an exhausted sequence stands for the
/// channel closing.
pub open spec fn spec_run(s: Session, cmds: Seq<NetworkCommand>) -> (Session, LoopExit)
    decreases cmds.len(),
{
    if cmds.len() == 0 {
        (s, LoopExit::ChannelClosed)
    } else {
        let s2 = spec_step(s, cmds[0]);
        match spec_action(s, cmds[0]) {
            Action::Continue => spec_run(s2, cmds.skip(1)),
            Action::DoReset => (s2, LoopExit::ResetRequested),
            Action::Terminate => (s2, LoopExit::Terminated),
        }
    }
}

/// The state after consuming every command of `cmds`, whether or not some of
/// them demanded an action.
pub open spec fn spec_advance(s: Session, cmds: Seq<NetworkCommand>) -> Session
    decreases cmds.len(),
{
    if cmds.len() == 0 {
        s
    } else {
        spec_advance(spec_step(s, cmds[0]), cmds.skip(1))
    }
}

/// Whether a run over `cmds` consumes every command without once demanding
/// an action.
pub open spec fn spec_keeps_running(s: Session, cmds: Seq<NetworkCommand>) -> bool
    decreases cmds.len(),
{
    if cmds.len() == 0 {
        true
    } else {
        spec_action(s, cmds[0]) is Continue && spec_keeps_running(
            spec_step(s, cmds[0]),
            cmds.skip(1),
        )
    }
}

/// The cleanup steps owed by a session, in order: stop the subprocess if it
/// is still owned, then deactivate and delete the access point if it is.
pub open spec fn spec_cleanup_steps(s: Session) -> Seq<CleanupStep> {
    (if s.subprocess_owned {
        seq![CleanupStep::StopSubprocess]
    } else {
        Seq::<CleanupStep>::empty()
    }) + (if s.portal_owned {
        seq![CleanupStep::DeactivatePortal, CleanupStep::DeletePortal]
    } else {
        Seq::<CleanupStep>::empty()
    })
}

impl Session {
    /// A fresh session: no user has connected, and both the access point and
    /// the subprocess are owned.
    pub fn new() -> (s: Session)
        ensures
            s == (Session { user_connected: false, portal_owned: true, subprocess_owned: true }),
    {
        Session { user_connected: false, portal_owned: true, subprocess_owned: true }
    }

    /// Consume one command: latch `user_connected` on `Activate`, request a
    /// DHCP reset on `Reset`, terminate on `Exit`, on `OverallTimeout`, and
    /// on `Timeout` while no user has connected; ignore a `Timeout` that a
    /// connection has superseded.
    pub fn handle_command(&mut self, cmd: NetworkCommand) -> (a: Action)
        ensures
            *final(self) == spec_step(*old(self), cmd),
            a == spec_action(*old(self), cmd),
            final(self).user_connected == (old(self).user_connected || cmd is Activate),
            final(self).portal_owned == old(self).portal_owned,
            final(self).subprocess_owned == old(self).subprocess_owned,
    {
        match cmd {
            NetworkCommand::Activate => {
                if !self.user_connected {
                    self.user_connected = true;
                }
                Action::Continue
            },
            NetworkCommand::Reset => Action::DoReset,
            NetworkCommand::Timeout => {
                if !self.user_connected {
                    Action::Terminate
                } else {
                    Action::Continue
                }
            },
            NetworkCommand::OverallTimeout => Action::Terminate,
            NetworkCommand::Exit => Action::Terminate,
        }
    }

    /// Block on the shared command channel for one command and consume it.
    /// The returned ghost value is exactly what arrived: the command handled
    /// as `handle_command` says, or nothing because the channel closed.  The
    /// caller drives the run loop: it performs the returned action and calls
    /// again — the loop itself cannot live here, since a session fed a
    /// steady stream of `Activate` commands runs forever by design.
    pub fn step(&mut self, rx: &std::sync::mpsc::Receiver<NetworkCommand>) -> (r: (
        LoopStep,
        Ghost<Option<NetworkCommand>>,
    ))
        ensures
            r.1@ is None ==> r.0 is Closed && *final(self) == *old(self),
            r.1@ matches Some(cmd) ==> *final(self) == spec_step(*old(self), cmd) && r.0
                == LoopStep::Handled(spec_action(*old(self), cmd)),
            final(self).portal_owned == old(self).portal_owned,
            final(self).subprocess_owned == old(self).subprocess_owned,
    {
        match receive_network_command(rx) {
            None => (LoopStep::Closed, Ghost(None)),
            Some(cmd) => {
                let action = self.handle_command(cmd);
                (LoopStep::Handled(action), Ghost(Some(cmd)))
            },
        }
    }

    /// Consume a whole arrival sequence in order, as the run loop does,
    /// until a command demands an action; running out of commands stands
    /// for the channel closing.  Returns how the run ended and how many
    /// commands it consumed: the state and the exit are exactly what the
    /// run-loop specification gives on the sequence.
    pub fn run_commands(&mut self, cmds: &Vec<NetworkCommand>) -> (r: (LoopExit, usize))
        ensures
            (*final(self), r.0) == spec_run(*old(self), cmds@),
            r.1 <= cmds@.len(),
            (*final(self), r.0) == spec_run(*old(self), cmds@.take(r.1 as int)),
            r.0 is ChannelClosed ==> r.1 == cmds@.len(),
            !(r.0 is ChannelClosed) ==> r.1 >= 1 && spec_keeps_running(
                *old(self),
                cmds@.take(r.1 - 1),
            ) && spec_action(spec_advance(*old(self), cmds@.take(r.1 - 1)), cmds@[r.1 - 1]) == (
            if r.0 is Terminated {
                Action::Terminate
            } else {
                Action::DoReset
            }),
            final(self).portal_owned == old(self).portal_owned,
            final(self).subprocess_owned == old(self).subprocess_owned,
    {
        let mut i: usize = 0;
        while i < cmds.len()
            invariant
                i <= cmds@.len(),
                spec_keeps_running(*old(self), cmds@.take(i as int)),
                *self == spec_advance(*old(self), cmds@.take(i as int)),
                self.portal_owned == old(self).portal_owned,
                self.subprocess_owned == old(self).subprocess_owned,
            decreases cmds@.len() - i,
        {
            let cmd = cmds[i];
            let ghost pre = cmds@.take(i as int);
            let action = self.handle_command(cmd);
            proof {
                assert(cmds@.take(i + 1) =~= pre.push(cmd));
                lemma_advance_push(*old(self), pre, cmd);
                lemma_run_after_prefix(*old(self), pre, cmds@.skip(i as int));
                assert(pre + cmds@.skip(i as int) =~= cmds@);
                assert(cmds@.skip(i as int)[0] == cmds@[i as int]);
                lemma_run_after_prefix(*old(self), pre, cmds@.take(i + 1).skip(i as int));
                assert(pre + cmds@.take(i + 1).skip(i as int) =~= cmds@.take(i + 1));
                assert(cmds@.take(i + 1).skip(i as int)[0] == cmds@[i as int]);
            }
            match action {
                Action::Continue => {
                    proof {
                        lemma_keeps_running_push(*old(self), pre, cmd);
                    }
                },
                Action::DoReset => {
                    return (LoopExit::ResetRequested, i + 1);
                },
                Action::Terminate => {
                    return (LoopExit::Terminated, i + 1);
                },
            }
            i = i + 1;
        }
        proof {
            assert(cmds@.take(i as int) =~= cmds@);
            lemma_run_after_prefix(*old(self), cmds@, Seq::empty());
            assert(cmds@ + Seq::<NetworkCommand>::empty() =~= cmds@);
        }
        (LoopExit::ChannelClosed, i)
    }

    /// Run the terminal cleanup bookkeeping once: release whatever is still
    /// owned and hand back the cleanup steps owed, in order.  A second call
    /// finds nothing owned and owes no step.
    pub fn release_resources(&mut self) -> (steps: Vec<CleanupStep>)
        ensures
            steps@ == spec_cleanup_steps(*old(self)),
            !final(self).portal_owned,
            !final(self).subprocess_owned,
            final(self).user_connected == old(self).user_connected,
    {
        let mut steps: Vec<CleanupStep> = Vec::new();
        if self.subprocess_owned {
            steps.push(CleanupStep::StopSubprocess);
            self.subprocess_owned = false;
        }
        if self.portal_owned {
            steps.push(CleanupStep::DeactivatePortal);
            steps.push(CleanupStep::DeletePortal);
            self.portal_owned = false;
        }
        proof {
            assert(steps@ =~= spec_cleanup_steps(*old(self)));
        }
        steps
    }
}

/// The receiving half of the shared command channel, opaque to the proofs:
/// what arrives on it depends on the producer threads.
#[verifier::external_type_specification]
#[verifier::external_body]
#[verifier::reject_recursive_types(T)]
pub struct ExReceiver<T>(std::sync::mpsc::Receiver<T>);

/// Relies on std's `mpsc::Receiver::recv`: blocks until a command arrives
/// (`Some`) or until every sender is dropped and the channel is drained
/// (`None`).  Which of the two comes back depends on the other threads, so
/// nothing more is promised of the result.
#[verifier::external_body]
fn receive_network_command(rx: &std::sync::mpsc::Receiver<NetworkCommand>) -> (cmd: Option<
    NetworkCommand,
>) {
    match rx.recv() {
        Ok(command) => Some(command),
        Err(_) => None,
    }
}

/// Once a user has connected, `user_connected` stays set: no later command,
/// consumed by the run loop or not, ever clears it.
pub proof fn lemma_user_connected_latches(s: Session, cmds: Seq<NetworkCommand>)
    requires
        s.user_connected,
    ensures
        spec_advance(s, cmds).user_connected,
        spec_run(s, cmds).0.user_connected,
    decreases cmds.len(),
{
    if cmds.len() > 0 {
        lemma_user_connected_latches(spec_step(s, cmds[0]), cmds.skip(1));
    }
}

/// After a pass over any command sequence, `user_connected` holds exactly
/// when it held before or some `Activate` arrived: the first `Activate`
/// sets it, and repeating `Activate` changes nothing more.
pub proof fn lemma_user_connected_iff_activate(s: Session, cmds: Seq<NetworkCommand>)
    ensures
        spec_advance(s, cmds).user_connected <==> (s.user_connected || exists|j: int|
            0 <= j < cmds.len() && cmds[j] is Activate),
    decreases cmds.len(),
{
    if cmds.len() > 0 {
        lemma_user_connected_iff_activate(spec_step(s, cmds[0]), cmds.skip(1));
        assert((cmds[0] is Activate || exists|j: int|
            0 <= j < cmds.skip(1).len() && cmds.skip(1)[j] is Activate) <==> (exists|j: int|
            0 <= j < cmds.len() && cmds[j] is Activate)) by {
            if cmds[0] is Activate {
                assert(0 <= 0 < cmds.len() && cmds[0] is Activate);
            }
            if exists|j: int| 0 <= j < cmds.skip(1).len() && cmds.skip(1)[j] is Activate {
                let j = choose|j: int| 0 <= j < cmds.skip(1).len() && cmds.skip(1)[j] is Activate;
                assert(cmds[j + 1] is Activate);
            }
            if exists|j: int| 0 <= j < cmds.len() && cmds[j] is Activate {
                let j = choose|j: int| 0 <= j < cmds.len() && cmds[j] is Activate;
                if j != 0 {
                    assert(cmds.skip(1)[j - 1] is Activate);
                }
            }
        }
    }
}

/// An `ActivityTimeout` that finds no user connected ends the session
/// successfully; one that arrives after an `Activate` is ignored, the
/// session state untouched.
pub proof fn lemma_activity_timeout_decides(s: Session)
    ensures
        !s.user_connected ==> spec_action(s, NetworkCommand::Timeout) is Terminate,
        s.user_connected ==> spec_action(s, NetworkCommand::Timeout) is Continue && spec_step(
            s,
            NetworkCommand::Timeout,
        ) == s,
{
}

/// A `Timeout` that some earlier `Activate` supersedes is ignored: when an
/// `Activate` stands anywhere before position `i` of a run that is still
/// going, the `Timeout` at `i` only lets the loop keep running.
pub proof fn lemma_timeout_superseded(s: Session, cmds: Seq<NetworkCommand>, i: int)
    requires
        0 <= i < cmds.len(),
        cmds[i] is Timeout,
        exists|j: int| 0 <= j < i && cmds[j] is Activate,
    ensures
        spec_action(spec_advance(s, cmds.take(i)), cmds[i]) is Continue,
{
    lemma_user_connected_iff_activate(s, cmds.take(i));
    let j = choose|j: int| 0 <= j < i && cmds[j] is Activate;
    assert(cmds.take(i)[j] is Activate);
}

/// `OverallTimeout` and `Exit` end the session whatever its state.
pub proof fn lemma_terminal_commands_always_end(s: Session)
    ensures
        spec_action(s, NetworkCommand::OverallTimeout) is Terminate,
        spec_action(s, NetworkCommand::Exit) is Terminate,
{
}

/// Terminal cleanup runs exactly once per session: no command of a run ever
/// releases a resource, a session still owning both owes the three cleanup
/// steps once each, and a session already released owes none.
pub proof fn lemma_cleanup_exactly_once(s: Session, cmds: Seq<NetworkCommand>)
    ensures
        spec_run(s, cmds).0.portal_owned == s.portal_owned,
        spec_run(s, cmds).0.subprocess_owned == s.subprocess_owned,
        spec_advance(s, cmds).portal_owned == s.portal_owned,
        spec_advance(s, cmds).subprocess_owned == s.subprocess_owned,
        s.portal_owned && s.subprocess_owned ==> spec_cleanup_steps(s) =~= seq![
            CleanupStep::StopSubprocess,
            CleanupStep::DeactivatePortal,
            CleanupStep::DeletePortal,
        ],
        !s.portal_owned && !s.subprocess_owned ==> spec_cleanup_steps(s) =~= Seq::<
            CleanupStep,
        >::empty(),
    decreases cmds.len(),
{
    if cmds.len() > 0 {
        lemma_cleanup_exactly_once(spec_step(s, cmds[0]), cmds.skip(1));
    }
}

/// When neither timer runs, neither `Timeout` nor `OverallTimeout` can
/// arrive, and then a run ends in success only because an `Exit` arrived:
/// otherwise it goes on until the channel closes.
pub proof fn lemma_without_timers_only_exit_ends(s: Session, cmds: Seq<NetworkCommand>)
    requires
        forall|j: int|
            0 <= j < cmds.len() ==> !(cmds[j] is Timeout) && !(cmds[j] is OverallTimeout),
    ensures
        spec_run(s, cmds).1 is Terminated ==> exists|j: int|
            0 <= j < cmds.len() && cmds[j] is Exit,
    decreases cmds.len(),
{
    if cmds.len() > 0 {
        assert forall|j: int| 0 <= j < cmds.skip(1).len() implies !(cmds.skip(1)[j] is Timeout) && !(
        cmds.skip(1)[j] is OverallTimeout) by {
            assert(cmds.skip(1)[j] == cmds[j + 1]);
        }
        lemma_without_timers_only_exit_ends(spec_step(s, cmds[0]), cmds.skip(1));
        if spec_run(s, cmds).1 is Terminated {
            if spec_action(s, cmds[0]) is Terminate {
                assert(0 <= 0 < cmds.len() && cmds[0] is Exit);
            } else {
                let j = choose|j: int| 0 <= j < cmds.skip(1).len() && cmds.skip(1)[j] is Exit;
                assert(cmds[j + 1] is Exit);
            }
        }
    }
}

/// A run over a consumed prefix that never demanded an action continues as a
/// run from the advanced state over the rest.
proof fn lemma_run_after_prefix(s: Session, pre: Seq<NetworkCommand>, rest: Seq<NetworkCommand>)
    requires
        spec_keeps_running(s, pre),
    ensures
        spec_run(s, pre + rest) == spec_run(spec_advance(s, pre), rest),
    decreases pre.len(),
{
    if pre.len() == 0 {
        assert(pre + rest =~= rest);
        assert(spec_advance(s, pre) == s);
    } else {
        let s2 = spec_step(s, pre[0]);
        assert((pre + rest)[0] == pre[0]);
        assert((pre + rest).skip(1) =~= pre.skip(1) + rest);
        lemma_run_after_prefix(s2, pre.skip(1), rest);
        assert(spec_run(s, pre + rest) == spec_run(s2, pre.skip(1) + rest));
        assert(spec_advance(s, pre) == spec_advance(s2, pre.skip(1)));
    }
}

/// Advancing over a prefix and then one more command is advancing over the
/// extended prefix.
proof fn lemma_advance_push(s: Session, pre: Seq<NetworkCommand>, cmd: NetworkCommand)
    ensures
        spec_advance(s, pre.push(cmd)) == spec_step(spec_advance(s, pre), cmd),
    decreases pre.len(),
{
    if pre.len() == 0 {
        assert(pre.push(cmd)[0] == cmd);
        assert(pre.push(cmd).skip(1) =~= Seq::<NetworkCommand>::empty());
        assert(spec_advance(s, pre.push(cmd)) == spec_advance(
            spec_step(s, cmd),
            Seq::<NetworkCommand>::empty(),
        ));
        assert(spec_advance(spec_step(s, cmd), Seq::<NetworkCommand>::empty()) == spec_step(
            s,
            cmd,
        ));
        assert(spec_advance(s, pre) == s);
    } else {
        assert(pre.push(cmd)[0] == pre[0]);
        assert(pre.push(cmd).skip(1) =~= pre.skip(1).push(cmd));
        lemma_advance_push(spec_step(s, pre[0]), pre.skip(1), cmd);
        assert(spec_advance(s, pre.push(cmd)) == spec_advance(
            spec_step(s, pre[0]),
            pre.skip(1).push(cmd),
        ));
        assert(spec_advance(s, pre) == spec_advance(spec_step(s, pre[0]), pre.skip(1)));
    }
}

/// A prefix that never demanded an action, extended by one command whose
/// action is `Continue`, still never demanded an action.
proof fn lemma_keeps_running_push(s: Session, pre: Seq<NetworkCommand>, cmd: NetworkCommand)
    requires
        spec_keeps_running(s, pre),
        spec_action(spec_advance(s, pre), cmd) is Continue,
    ensures
        spec_keeps_running(s, pre.push(cmd)),
    decreases pre.len(),
{
    if pre.len() == 0 {
        assert(pre.push(cmd)[0] == cmd);
        assert(pre.push(cmd).skip(1) =~= Seq::<NetworkCommand>::empty());
        assert(spec_advance(s, pre) == s);
        assert(spec_keeps_running(spec_step(s, cmd), Seq::<NetworkCommand>::empty()));
    } else {
        assert(pre.push(cmd)[0] == pre[0]);
        assert(pre.push(cmd).skip(1) =~= pre.skip(1).push(cmd));
        assert(spec_advance(s, pre) == spec_advance(spec_step(s, pre[0]), pre.skip(1)));
        lemma_keeps_running_push(spec_step(s, pre[0]), pre.skip(1), cmd);
    }
}

} // verus!
