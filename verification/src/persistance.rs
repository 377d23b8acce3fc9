//! What of the exam timer is kept on stable storage, and how it comes back.

use vstd::prelude::*;
use crate::clock::Timestamp;
use crate::shared_data::ExamTimes;

verus! {

/// Where the timer is kept.
pub const PERSISTANCE_PATH: &'static str = "pp.save";

/// The stored form of a running timer: its start and its duration in whole minutes,
/// which may be negative.
#[derive(Clone, Copy, Debug, PartialEq, Eq, Structural)]
pub struct SaveState {
    pub start_time: Timestamp,
    pub duration_min: i64,
}

/// The stored form of a timer: its start and its duration, as they are.
pub open spec fn saved(start_time: Timestamp, duration_minutes: i64) -> SaveState {
    SaveState { start_time, duration_min: duration_minutes }
}

/// The timer that a stored form stands for, where it is well formed.
pub open spec fn restored(save: SaveState) -> Option<ExamTimes> {
    let times = ExamTimes { start: save.start_time, duration_minutes: save.duration_min };
    if times.wf() {
        Some(times)
    } else {
        None
    }
}

/// Puts a timer into its stored form.
pub fn persist_time(start_time: Timestamp, duration_minutes: i64) -> (save: SaveState)
    ensures
        save == saved(start_time, duration_minutes),
{
    SaveState { start_time, duration_min: duration_minutes }
}

/// Brings a timer back from its stored form; `None` where the stored start is no
/// well-formed instant or the end would not be representable.
pub fn get_persisted_time(save: SaveState) -> (times: Option<ExamTimes>)
    ensures
        times == restored(save),
{
    ExamTimes::new(save.start_time, save.duration_min)
}

/// Every well-formed timer comes back from storage as it went in, and so with the same
/// end.
pub proof fn lemma_persist_round_trip(times: ExamTimes)
    requires
        times.wf(),
    ensures
        restored(saved(times.start, times.duration_minutes)) == Some(times),
        restored(saved(times.start, times.duration_minutes))->0.finish() == times.finish(),
{
}

} // verus!
