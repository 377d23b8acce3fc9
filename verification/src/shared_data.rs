//! The single source of truth that the poller, the countdown endpoint and the control
//! panel read and change.

use vstd::prelude::*;
use crate::address::Ipv4;
use crate::client::{Client, ClientView, text_of};
use crate::clock::Timestamp;
use crate::input_parser::{Config, ConfigView, SymlinkInfo, SymlinkInfoView};
use crate::nonclient_timeraccess::NonclientTimerAccess;

verus! {

/// Seconds in one minute.
pub const SECS_PER_MINUTE: i64 = 60;

/// A running exam: when it started and how many minutes it lasts.
#[derive(Clone, Copy, Debug, PartialEq, Eq, Structural)]
pub struct ExamTimes {
    pub start: Timestamp,
    pub duration_minutes: i64,
}

impl ExamTimes {
    /// The end of the exam in seconds since the Unix epoch.
    pub open spec fn finish(&self) -> int {
        self.start.secs + SECS_PER_MINUTE * self.duration_minutes
    }

    /// The start is a well-formed instant and the end is representable.
    pub open spec fn wf(&self) -> bool {
        self.start.wf() && i64::MIN <= self.finish() <= i64::MAX
    }

    /// The exam that starts at `start` and lasts `duration_minutes`, where its end is
    /// representable and `start` is well formed; `None` otherwise.
    pub fn new(start: Timestamp, duration_minutes: i64) -> (times: Option<ExamTimes>)
        ensures
            times == (if (ExamTimes { start, duration_minutes }).wf() {
                Some(ExamTimes { start, duration_minutes })
            } else {
                None
            }),
    {
        if start.nanos >= crate::clock::NANOS_PER_SEC {
            return None;
        }
        let finish: i128 = start.secs as i128 + 60 * (duration_minutes as i128);
        if finish < i64::MIN as i128 || finish > i64::MAX as i128 {
            None
        } else {
            Some(ExamTimes { start, duration_minutes })
        }
    }

    /// Computes [`ExamTimes::finish`].
    pub fn finish_secs(&self) -> (finish: i64)
        requires
            self.wf(),
        ensures
            finish == self.finish(),
    {
        let finish: i128 = self.start.secs as i128 + 60 * (self.duration_minutes as i128);
        finish as i64
    }
}

/// The timer after a start request at `now`: a stopped timer starts with the given
/// duration, a running one is left alone.
pub open spec fn timer_started(times: Option<ExamTimes>, now: Timestamp, duration_minutes: i64) -> Option<
    ExamTimes,
> {
    match times {
        Some(_) => times,
        None => Some(ExamTimes { start: now, duration_minutes }),
    }
}

/// The timer with `delta` minutes added to its duration; a stopped timer stays stopped.
pub open spec fn timer_adjusted(times: Option<ExamTimes>, delta: int) -> Option<ExamTimes> {
    match times {
        Some(t) => Some(
            ExamTimes { start: t.start, duration_minutes: (t.duration_minutes + delta) as i64 },
        ),
        None => None,
    }
}

/// Whether `delta` minutes can be added to the timer and leave it well formed.
pub open spec fn timer_adjustable(times: Option<ExamTimes>, delta: int) -> bool {
    match times {
        Some(t) => i64::MIN <= t.duration_minutes + delta <= i64::MAX && timer_adjusted(
            times,
            delta,
        )->0.wf(),
        None => true,
    }
}

/// The end of a timer in seconds since the Unix epoch; `None` for a stopped one.
pub open spec fn finish_of(times: Option<ExamTimes>) -> Option<i64> {
    match times {
        Some(t) => Some(t.finish() as i64),
        None => None,
    }
}

/// The shared runtime state.
#[derive(Debug)]
pub struct SharedData {
    pub config: Config,
    /// The roster. Its length, names and addresses never change.
    pub clients: Vec<Client>,
    /// Addresses outside the roster that asked for the countdown page.
    pub nonclients: Vec<NonclientTimerAccess>,
    /// The exam timer; `None` while the exam has not started.
    pub times: Option<ExamTimes>,
    pub symlink_info: SymlinkInfo,
    /// Where the task description's symlink was last seen pointing.
    pub symlink_target: Option<String>,
}

/// The mathematical model of a [`SharedData`].
pub struct SharedDataView {
    pub config: ConfigView,
    pub clients: Seq<ClientView>,
    pub nonclients: Seq<NonclientTimerAccess>,
    pub times: Option<ExamTimes>,
    pub symlink_info: SymlinkInfoView,
    pub symlink_target: Option<Seq<char>>,
}

impl View for SharedData {
    type V = SharedDataView;

    open spec fn view(&self) -> SharedDataView {
        SharedDataView {
            config: self.config@,
            clients: self.clients.deep_view(),
            nonclients: self.nonclients@,
            times: self.times,
            symlink_info: self.symlink_info@,
            symlink_target: text_of(self.symlink_target),
        }
    }
}

/// Whether `ip` is the address of a workstation of the roster.
pub open spec fn in_roster(clients: Seq<ClientView>, ip: Ipv4) -> bool {
    exists|i: int| 0 <= i < clients.len() && (#[trigger] clients[i]).ip_address == ip
}

/// Whether two rosters hold the same workstations: as many, with the same names and
/// addresses, in the same order.
pub open spec fn same_roster(a: Seq<ClientView>, b: Seq<ClientView>) -> bool {
    &&& a.len() == b.len()
    &&& forall|i: int|
        0 <= i < a.len() ==> (#[trigger] a[i]).name == b[i].name && a[i].ip_address
            == b[i].ip_address
}

/// The addresses of the workstations of a roster, in roster order.
pub open spec fn addresses_of(clients: Seq<ClientView>) -> Seq<Ipv4> {
    Seq::new(clients.len(), |i: int| clients[i].ip_address)
}

/// Collects the addresses of a roster.
pub fn client_addresses(clients: &Vec<Client>) -> (addresses: Vec<Ipv4>)
    ensures
        addresses@ == addresses_of(clients.deep_view()),
{
    let mut addresses: Vec<Ipv4> = Vec::new();
    let mut i: usize = 0;
    while i < clients.len()
        invariant
            i <= clients.len(),
            addresses@.len() == i,
            forall|j: int| 0 <= j < i ==> #[trigger] addresses@[j] == clients@[j].ip_address,
        decreases clients.len() - i,
    {
        addresses.push(clients[i].ip_address);
        i = i + 1;
    }
    addresses
}

/// Whether the journal holds an entry for `ip`.
pub open spec fn in_journal(nonclients: Seq<NonclientTimerAccess>, ip: Ipv4) -> bool {
    exists|i: int| 0 <= i < nonclients.len() && (#[trigger] nonclients[i]).ip_address == ip
}

impl SharedDataView {
    /// No address has two journal entries, no roster address has one, and a running
    /// timer is well formed.
    pub open spec fn wf(&self) -> bool {
        &&& forall|i: int, j: int|
            0 <= i < j < self.nonclients.len() ==> (#[trigger] self.nonclients[i]).ip_address != (
            #[trigger] self.nonclients[j]).ip_address
        &&& forall|i: int|
            0 <= i < self.nonclients.len() ==> !in_roster(
                self.clients,
                (#[trigger] self.nonclients[i]).ip_address,
            )
        &&& self.times is Some ==> self.times->0.wf()
    }

    /// The end of the exam in seconds since the Unix epoch; `None` while it has not
    /// started.
    pub open spec fn finish(&self) -> Option<i64> {
        finish_of(self.times)
    }
}

impl SharedData {
    /// See [`SharedDataView::wf`].
    pub open spec fn wf(&self) -> bool {
        self@.wf()
    }

    /// The state at startup: an empty journal, no symlink status yet, and the timer as
    /// restored from stable storage, if any.
    pub fn new(
        config: Config,
        clients: Vec<Client>,
        symlink_info: SymlinkInfo,
        times: Option<ExamTimes>,
    ) -> (shared: SharedData)
        requires
            times is Some ==> times->0.wf(),
        ensures
            shared.wf(),
            shared@ == (SharedDataView {
                config: config@,
                clients: clients.deep_view(),
                nonclients: Seq::empty(),
                times,
                symlink_info: symlink_info@,
                symlink_target: None,
            }),
    {
        SharedData {
            config,
            clients,
            nonclients: Vec::new(),
            times,
            symlink_info,
            symlink_target: None,
        }
    }

    /// Checks [`SharedData::wf`].
    pub fn is_well_formed(&self) -> (ok: bool)
        ensures
            ok == self.wf(),
    {
        match self.times {
            Some(t) => {
                if ExamTimes::new(t.start, t.duration_minutes).is_none() {
                    return false;
                }
            },
            None => {},
        }
        let ghost clients = self.clients.deep_view();
        let mut i: usize = 0;
        while i < self.nonclients.len()
            invariant
                i <= self.nonclients.len(),
                clients == self.clients.deep_view(),
                self.times is Some ==> self.times->0.wf(),
                forall|a: int, b: int|
                    0 <= a < b < self.nonclients@.len() && a < i ==> (
                    #[trigger] self.nonclients@[a]).ip_address != (
                    #[trigger] self.nonclients@[b]).ip_address,
                forall|a: int|
                    0 <= a < i ==> !in_roster(clients, (#[trigger] self.nonclients@[a]).ip_address),
            decreases self.nonclients.len() - i,
        {
            let ip = self.nonclients[i].ip_address;
            let mut k: usize = 0;
            while k < self.clients.len()
                invariant
                    k <= self.clients.len(),
                    clients == self.clients.deep_view(),
                    clients.len() == self.clients@.len(),
                    i < self.nonclients@.len(),
                    ip == self.nonclients@[i as int].ip_address,
                    forall|c: int| 0 <= c < k ==> (#[trigger] clients[c]).ip_address != ip,
                decreases self.clients.len() - k,
            {
                if self.clients[k].ip_address == ip {
                    proof {
                        assert(clients[k as int].ip_address == ip);
                        assert(in_roster(clients, self@.nonclients[i as int].ip_address));
                    }
                    return false;
                }
                k = k + 1;
            }
            let mut j: usize = i + 1;
            while j < self.nonclients.len()
                invariant
                    i < j <= self.nonclients.len(),
                    ip == self.nonclients@[i as int].ip_address,
                    forall|b: int| i < b < j ==> (#[trigger] self.nonclients@[b]).ip_address != ip,
                decreases self.nonclients.len() - j,
            {
                if self.nonclients[j].ip_address == ip {
                    proof {
                        assert(self@.nonclients[i as int].ip_address == self@.nonclients[j as int].ip_address);
                    }
                    return false;
                }
                j = j + 1;
            }
            i = i + 1;
        }
        true
    }

    /// The end of the exam in seconds since the Unix epoch; `None` while it has not
    /// started.
    pub fn finish_time_as_unix(&self) -> (finish: Option<i64>)
        requires
            self.wf(),
        ensures
            finish == self@.finish(),
            finish is Some <==> self.times is Some,
            finish is Some ==> finish->0 == self.times->0.finish(),
    {
        match &self.times {
            Some(t) => Some(t.finish_secs()),
            None => None,
        }
    }
}

/// Starting a timer that is running changes nothing, and a timer that was started
/// keeps its start however often it is started again.
pub proof fn lemma_start_once(
    times: Option<ExamTimes>,
    first: Timestamp,
    first_minutes: i64,
    again: Timestamp,
    again_minutes: i64,
)
    ensures
        times is Some ==> timer_started(times, again, again_minutes) == times,
        timer_started(timer_started(times, first, first_minutes), again, again_minutes)
            == timer_started(times, first, first_minutes),
{
}

/// Adjusting the duration of a running timer never moves its start, and a stopped
/// timer stays stopped.
pub proof fn lemma_adjust_keeps_start(times: Option<ExamTimes>, delta: int)
    ensures
        times is Some ==> timer_adjusted(times, delta) is Some && timer_adjusted(
            times,
            delta,
        )->0.start == times->0.start,
        times is None ==> timer_adjusted(times, delta) is None,
{
}

/// One minute more and then one minute less gives back the timer one began with, and
/// so does one minute less and then one minute more.
pub proof fn lemma_adjust_round_trip(times: Option<ExamTimes>)
    requires
        times is Some ==> times->0.wf(),
    ensures
        timer_adjustable(times, 1) ==> timer_adjusted(timer_adjusted(times, 1), -1) == times,
        timer_adjustable(times, -1) ==> timer_adjusted(timer_adjusted(times, -1), 1) == times,
{
}

} // verus!
