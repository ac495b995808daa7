//! Playing sound cues: at most one at a time, the last one triggered wins.
use vstd::prelude::*;

verus! {

/// Why a cue could not be played.
#[derive(Clone, Copy, Debug, PartialEq, Eq, Structural)]
pub enum CueError {
    /// The cue's sound asset was not found.
    AssetMissing,
    /// The cue's samples cannot be converted to the device's format.
    FormatConversionFailure,
}

/// One step that the audio device is asked to take.
#[derive(Debug)]
pub enum DeviceCommand {
    /// Drop whatever is queued and not yet played.
    ClearQueue,
    /// Append these bytes, already in the device's format, to the queue.
    Enqueue(Vec<u8>),
    /// Start playback, or keep it going.
    Resume,
}

/// What the device holds: the queued bytes, and whether it plays.
pub open spec fn apply_command(state: (Seq<u8>, bool), cmd: DeviceCommand) -> (Seq<u8>, bool) {
    match cmd {
        DeviceCommand::ClearQueue => (Seq::empty(), state.1),
        DeviceCommand::Enqueue(bytes) => (state.0 + bytes@, state.1),
        DeviceCommand::Resume => (state.0, true),
    }
}

/// The device's state after it has taken `cmds` in order.
pub open spec fn run_commands(state: (Seq<u8>, bool), cmds: Seq<DeviceCommand>) -> (Seq<u8>, bool)
    decreases cmds.len(),
{
    if cmds.len() == 0 {
        state
    } else {
        run_commands(apply_command(state, cmds[0]), cmds.drop_first())
    }
}

/// The commands that play the converted samples `bytes` in place of
/// anything queued before.
pub open spec fn plays_only(cmds: Seq<DeviceCommand>, bytes: Seq<u8>) -> bool {
    &&& cmds.len() == 3
    &&& cmds[0] is ClearQueue
    &&& cmds[1] matches DeviceCommand::Enqueue(b) && b@ == bytes
    &&& cmds[2] is Resume
}

/// The commands for one trigger of a cue, given the cue's samples already
/// converted to the device's format, or the reason they are not there.
///
/// A cue that failed to load or convert is skipped: the device is left as
/// it is.
pub fn plan_cue(converted: Result<Vec<u8>, CueError>) -> (cmds: Vec<DeviceCommand>)
    ensures
        match converted {
            Ok(bytes) => plays_only(cmds@, bytes@),
            Err(_) => cmds@.len() == 0,
        },
{
    match converted {
        Ok(bytes) => {
            let mut cmds: Vec<DeviceCommand> = Vec::new();
            cmds.push(DeviceCommand::ClearQueue);
            cmds.push(DeviceCommand::Enqueue(bytes));
            cmds.push(DeviceCommand::Resume);
            cmds
        },
        Err(_) => Vec::new(),
    }
}

proof fn lemma_plays_only(state: (Seq<u8>, bool), cmds: Seq<DeviceCommand>, bytes: Seq<u8>)
    requires
        plays_only(cmds, bytes),
    ensures
        run_commands(state, cmds) == (bytes, true),
{
    let s1 = apply_command(state, cmds[0]);
    let s2 = apply_command(s1, cmds[1]);
    let s3 = apply_command(s2, cmds[2]);
    assert(s1.0 == Seq::<u8>::empty());
    assert(s2.0 =~= bytes);
    let rest1 = cmds.drop_first();
    let rest2 = rest1.drop_first();
    let rest3 = rest2.drop_first();
    assert(rest1[0] == cmds[1]);
    assert(rest2[0] == cmds[2]);
    assert(rest3.len() == 0);
    assert(run_commands(s3, rest3) == s3);
    assert(run_commands(s2, rest2) == s3);
    assert(run_commands(s1, rest1) == s3);
    assert(run_commands(state, cmds) == s3);
}

/// Whatever the device held, playing cue `a` and then at once cue `b`
/// leaves exactly `b`'s converted bytes queued, and the device playing.
pub proof fn lemma_last_trigger_wins(
    state: (Seq<u8>, bool),
    a_cmds: Seq<DeviceCommand>,
    a: Seq<u8>,
    b_cmds: Seq<DeviceCommand>,
    b: Seq<u8>,
)
    requires
        plays_only(a_cmds, a),
        plays_only(b_cmds, b),
    ensures
        run_commands(run_commands(state, a_cmds), b_cmds) == (b, true),
{
    lemma_plays_only(state, a_cmds, a);
    lemma_plays_only(run_commands(state, a_cmds), b_cmds, b);
}

} // verus!
