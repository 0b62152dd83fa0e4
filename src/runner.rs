use vstd::prelude::*;

verus! {

/// What a finished external process left behind.
#[derive(Clone, Debug)]
pub struct CommandOutput {
    pub stdout: Vec<u8>,
    pub stderr: Vec<u8>,
}

/// The outcome of racing one external process against an interrupt.
#[derive(Clone, Debug)]
pub enum CommandResult {
    /// The process exited with status zero.
    Success(CommandOutput),
    /// The process exited with a non-zero status.
    Failure(CommandOutput),
    /// The interrupt came first; the process was killed.
    Interrupted,
}

/// What the process runner does next.
#[derive(Clone, Debug)]
pub enum RaceStep {
    /// Neither the process nor the interrupt has resolved: keep waiting.
    Wait,
    /// The interrupt resolved first: kill the process, then report `result`.
    Kill(CommandResult),
    /// The process exited: report `result`; nothing is left running.
    Finished(CommandResult),
}

/// The runner's decision once the interrupt has or has not `fired` and the
/// process has or has not `exited` (`Some(true)` for status zero).
pub open spec fn race_step(fired: bool, exited: Option<bool>, output: CommandOutput) -> RaceStep {
    if fired {
        RaceStep::Kill(CommandResult::Interrupted)
    } else {
        match exited {
            Option::Some(true) => RaceStep::Finished(CommandResult::Success(output)),
            Option::Some(false) => RaceStep::Finished(CommandResult::Failure(output)),
            Option::None => RaceStep::Wait,
        }
    }
}

/// Decides the race of one process against an interrupt. An interrupt
/// always ends in a kill, so no process outlives the call that ran it.
pub fn settle(fired: bool, exited: Option<bool>, output: CommandOutput) -> (r: RaceStep)
    ensures
        r == race_step(fired, exited, output),
{
    if fired {
        RaceStep::Kill(CommandResult::Interrupted)
    } else {
        match exited {
            Option::Some(true) => RaceStep::Finished(CommandResult::Success(output)),
            Option::Some(false) => RaceStep::Finished(CommandResult::Failure(output)),
            Option::None => RaceStep::Wait,
        }
    }
}

} // verus!
