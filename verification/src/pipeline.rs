//! Decisions of the pipeline director: what the command line asks for, how
//! the stages of a run follow one another, and the exit status they end in.

use vstd::prelude::*;

verus! {

/// What the command line asks for.
#[derive(Clone, Copy, Debug, PartialEq, Eq)]
pub enum CliAction {
    /// Print the usage line and do nothing else.
    Usage,
    /// Run the pipeline.
    Run,
}

/// The usage line printed for a wrong argument count.
pub fn usage_text() -> (s: &'static str)
    ensures
        s@ == "Usage: ascii_video_maker <input_video> <frame_rate>"@,
{
    "Usage: ascii_video_maker <input_video> <frame_rate>"
}

/// The pipeline runs only when called with exactly two arguments beside
/// the program name; any other count gets the usage line and no side
/// effects.
pub fn cli_action(arg_count: usize) -> (a: CliAction)
    ensures
        a is Run <==> arg_count == 3,
{
    if arg_count == 3 {
        CliAction::Run
    } else {
        CliAction::Usage
    }
}

/// The stages of one run, in order, plus its two terminal states.
#[derive(Clone, Copy, Debug, PartialEq, Eq)]
pub enum Stage {
    /// The external extraction of frames from the input video.
    Extract,
    /// The batch rendering of the extracted frames.
    RenderBatch,
    /// The external reassembly of the rendered frames into a video.
    Reassemble,
    /// Removal of the two intermediate directories.
    Cleanup,
    Done,
    Failed,
}

/// The stage that follows `s` when its work succeeded (`ok`) or not:
/// extraction and reassembly are hard dependencies, while per-frame
/// failures of the render batch and cleanup failures never abort the run.
pub open spec fn next_stage_spec(s: Stage, ok: bool) -> Stage {
    match s {
        Stage::Extract => if ok {
            Stage::RenderBatch
        } else {
            Stage::Failed
        },
        Stage::RenderBatch => Stage::Reassemble,
        Stage::Reassemble => if ok {
            Stage::Cleanup
        } else {
            Stage::Failed
        },
        Stage::Cleanup => Stage::Done,
        Stage::Done => Stage::Done,
        Stage::Failed => Stage::Failed,
    }
}

/// Advances the run by one stage.
pub fn next_stage(s: Stage, ok: bool) -> (n: Stage)
    ensures
        n == next_stage_spec(s, ok),
{
    match s {
        Stage::Extract => if ok {
            Stage::RenderBatch
        } else {
            Stage::Failed
        },
        Stage::RenderBatch => Stage::Reassemble,
        Stage::Reassemble => if ok {
            Stage::Cleanup
        } else {
            Stage::Failed
        },
        Stage::Cleanup => Stage::Done,
        Stage::Done => Stage::Done,
        Stage::Failed => Stage::Failed,
    }
}

/// The process exit status for a terminal stage: nonzero exactly for a
/// failed run.
pub fn exit_code(s: Stage) -> (c: i32)
    ensures
        c == (if s is Failed {
            1int
        } else {
            0int
        }),
{
    match s {
        Stage::Failed => 1,
        _ => 0,
    }
}

} // verus!
