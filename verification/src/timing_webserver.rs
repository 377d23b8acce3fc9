//! The countdown endpoint: who asked, what the journal records, which page goes back.

use vstd::prelude::*;
use crate::address::Ipv4;
use crate::client::{Client, ClientView};
use crate::clock::{Timestamp, utc_now};
use crate::nonclient_timeraccess::NonclientTimerAccess;
use crate::input_parser::{Config, ConfigView};
use crate::shared_data::{
    ExamTimes, SharedData, SharedDataView, addresses_of, client_addresses, finish_of, in_journal,
    in_roster, same_roster,
};
use crate::text::{append_decimal, decimal};

verus! {

/// The countdown page up to the refresh interval.
pub const COUNTDOWN_PAGE_HEAD: &'static str = r#"
        <!DOCTYPE html>
        <html lang="en">
        <head>
            <meta charset="UTF-8">
            <meta name="viewport" content="width=device-width, initial-scale=1.0">
            <meta http-equiv="refresh" content=""#;

/// The countdown page between the refresh interval and the target time.
pub const COUNTDOWN_PAGE_SCRIPT: &'static str = r#"">
            <title>.</title>
            <style>
                body {
                    display: flex;
                    justify-content: center;
                    align-items: center;
                    height: 100vh;
                    font-family: Arial, sans-serif;
                    background-color: #f0f0f0;
                    margin: 0;
                }
                #countdown {
                    font-size: 48px;
                    color: #333;
                }
            </style>
        </head>
        <body>
            <div id="countdown"></div>

            <script>
                const targetDate = "#;

/// The countdown page between the target time and the default duration.
pub const COUNTDOWN_PAGE_UNSTARTED: &'static str = r#";

                // Update the countdown every 1 second
                const countdown = setInterval(function() {
                    let text = "";

                    const now = new Date().getTime() / 1000;
                    const distance = targetDate - now;

                    if (targetDate == -1) {
                        text = "Time left: "#;

/// The countdown page after the default duration.
pub const COUNTDOWN_PAGE_TAIL: &'static str = r#"min 0s";
                    } else if (distance < 0) {
                        text = "time is up!";
                    } else {
                        const minutes = Math.floor(distance / 60);
                        const seconds = Math.floor((distance % 60));
                        text = "Time left: " + minutes + "m " + seconds + "s";
                    }

                    document.getElementById("countdown").innerHTML = text;
                    document.title = text;

                }, 1000);
            </script>
        </body>
        </html>
        "#;

/// The page shown to a caller that may not see the countdown.
pub const ILLEGAL_ACCESS_PAGE: &'static str = r#"
    <!DOCTYPE html>
    <html lang="en">
    <head>
        <meta charset="UTF-8">
        <meta name="viewport" content="width=device-width, initial-scale=1.0">
        <title>Illegal Access!</title>
        <style>
            body {
                color: white;
                text-align: center;
                font-size: 50px;
                font-family: Arial, sans-serif;
                margin-top: 20%;
                animation: blink-bg 1s infinite;
            }

            @keyframes blink-bg {
                0% { background-color: black; }
                50% { background-color: red; }
                100% { background-color: black; }
            }
        </style>
    </head>
    <body>
        <div>Illegal Access!</div>
    </body>
    </html>
    "#;

/// The only path that the endpoint serves.
pub const TIMER_PATH: &'static str = "/";

/// The media type of both pages.
pub const HTML_CONTENT_TYPE: &'static str = "text/html";

/// The media type of the answer to an unknown path.
pub const PLAIN_CONTENT_TYPE: &'static str = "text/plain; charset=UTF-8";

/// The body of the answer to an unknown path.
pub const NOT_FOUND_BODY: &'static str = "404 Not Found";

/// What the endpoint sends back.
#[derive(Debug)]
pub struct HttpReply {
    pub status: u16,
    pub content_type: String,
    pub body: String,
}

/// The mathematical model of an [`HttpReply`].
pub struct HttpReplyView {
    pub status: u16,
    pub content_type: Seq<char>,
    pub body: Seq<char>,
}

impl View for HttpReply {
    type V = HttpReplyView;

    open spec fn view(&self) -> HttpReplyView {
        HttpReplyView { status: self.status, content_type: self.content_type@, body: self.body@ }
    }
}

/// The countdown page for a timer that ends at `times` (seconds since the epoch), or for
/// one that has not started. A started timer is refreshed every
/// `refresh_interval_running` seconds and counts down to `times`; an unstarted one is
/// refreshed every `refresh_interval_unstarted` seconds, carries the target `-1`, and
/// shows `default_time` minutes.
pub open spec fn countdown_page(
    times: Option<i64>,
    default_time: i64,
    refresh_interval_running: u32,
    refresh_interval_unstarted: u32,
) -> Seq<char> {
    let target_time: int = match times {
        Some(t) => t as int,
        None => -1,
    };
    let refresh_delay: int = match times {
        Some(_) => refresh_interval_running as int,
        None => refresh_interval_unstarted as int,
    };
    COUNTDOWN_PAGE_HEAD@ + decimal(refresh_delay) + COUNTDOWN_PAGE_SCRIPT@ + decimal(target_time)
        + COUNTDOWN_PAGE_UNSTARTED@ + decimal(default_time as int) + COUNTDOWN_PAGE_TAIL@
}

/// Renders [`countdown_page`].
pub fn generate_html(
    times: Option<i64>,
    default_time: i64,
    refresh_interval_running: u32,
    refresh_interval_unstarted: u32,
) -> (page: String)
    ensures
        page@ == countdown_page(
            times,
            default_time,
            refresh_interval_running,
            refresh_interval_unstarted,
        ),
{
    let target_time: i64 = match times {
        Some(t) => t,
        None => -1,
    };
    let refresh_delay: u32 = match times {
        Some(_) => refresh_interval_running,
        None => refresh_interval_unstarted,
    };
    let mut page = String::from_str(COUNTDOWN_PAGE_HEAD);
    append_decimal(&mut page, refresh_delay as i128);
    page.append(COUNTDOWN_PAGE_SCRIPT);
    append_decimal(&mut page, target_time as i128);
    page.append(COUNTDOWN_PAGE_UNSTARTED);
    append_decimal(&mut page, default_time as i128);
    page.append(COUNTDOWN_PAGE_TAIL);
    page
}

/// Renders the page for callers that may not see the countdown.
pub fn generate_html_illegal_access() -> (page: String)
    ensures
        page@ == ILLEGAL_ACCESS_PAGE@,
{
    String::from_str(ILLEGAL_ACCESS_PAGE)
}

/// The roster after a request from `ip` at `now`: every workstation with that address
/// has its access time set, nothing else changes.
pub open spec fn clients_touched(clients: Seq<ClientView>, ip: Ipv4, now: Timestamp) -> Seq<
    ClientView,
> {
    Seq::new(
        clients.len(),
        |i: int|
            if clients[i].ip_address == ip {
                ClientView {
                    name: clients[i].name,
                    ip_address: clients[i].ip_address,
                    current_layer: clients[i].current_layer,
                    last_timer_access: Some(now),
                }
            } else {
                clients[i]
            },
    )
}

/// The journal after a request from `ip` at `now`: an address that has an entry gets
/// its access time set, an address that has none gets a new entry at the end.
pub open spec fn journal_touched(
    nonclients: Seq<NonclientTimerAccess>,
    ip: Ipv4,
    now: Timestamp,
) -> Seq<NonclientTimerAccess> {
    if in_journal(nonclients, ip) {
        Seq::new(
            nonclients.len(),
            |i: int|
                if nonclients[i].ip_address == ip {
                    NonclientTimerAccess { ip_address: ip, last_timer_access: now }
                } else {
                    nonclients[i]
                },
        )
    } else {
        nonclients.push(NonclientTimerAccess { ip_address: ip, last_timer_access: now })
    }
}

/// The state after a countdown request from `remote` at `now`. A roster address has its
/// access time set and leaves the journal alone; any other address is journalled; a
/// caller without an IPv4 address leaves no trace.
pub open spec fn access_recorded(
    pre: SharedDataView,
    remote: Option<Ipv4>,
    now: Timestamp,
) -> SharedDataView {
    match remote {
        None => pre,
        Some(ip) => if in_roster(pre.clients, ip) {
            SharedDataView { clients: clients_touched(pre.clients, ip, now), ..pre }
        } else {
            SharedDataView { nonclients: journal_touched(pre.nonclients, ip, now), ..pre }
        },
    }
}

/// Whether the caller is a workstation of the roster.
pub open spec fn caller_is_known(pre: SharedDataView, remote: Option<Ipv4>) -> bool {
    remote is Some && in_roster(pre.clients, remote->0)
}

/// Sets the access time of every workstation with address `ip` and says whether there
/// was one.
pub fn touch_clients(clients: &mut Vec<Client>, ip: Ipv4, now: Timestamp) -> (known: bool)
    ensures
        known == in_roster(old(clients).deep_view(), ip),
        final(clients).deep_view() == clients_touched(old(clients).deep_view(), ip, now),
{
    let mut known = false;
    let mut i: usize = 0;
    let ghost pre = clients.deep_view();
    while i < clients.len()
        invariant
            i <= clients.len(),
            clients@.len() == pre.len(),
            pre == old(clients).deep_view(),
            known == (exists|j: int| 0 <= j < i && (#[trigger] pre[j]).ip_address == ip),
            forall|j: int| 0 <= j < i ==> (#[trigger] clients@[j])@ == clients_touched(pre, ip, now)[j],
            forall|j: int| i <= j < clients@.len() ==> (#[trigger] clients@[j])@ == pre[j],
        decreases clients.len() - i,
    {
        if clients[i].ip_address == ip {
            clients[i].last_timer_access = Some(now);
            known = true;
        }
        i = i + 1;
    }
    known
}

/// Sets the access time of the journal entry for `ip`, or adds one where there is none.
pub fn touch_journal(nonclients: &mut Vec<NonclientTimerAccess>, ip: Ipv4, now: Timestamp)
    ensures
        final(nonclients)@ == journal_touched(old(nonclients)@, ip, now),
{
    let mut time_stored = false;
    let mut i: usize = 0;
    let ghost pre = nonclients@;
    while i < nonclients.len()
        invariant
            i <= nonclients.len(),
            nonclients@.len() == pre.len(),
            pre == old(nonclients)@,
            time_stored == (exists|j: int| 0 <= j < i && (#[trigger] pre[j]).ip_address == ip),
            forall|j: int|
                0 <= j < i ==> #[trigger] nonclients@[j] == (if pre[j].ip_address == ip {
                    NonclientTimerAccess { ip_address: ip, last_timer_access: now }
                } else {
                    pre[j]
                }),
            forall|j: int| i <= j < nonclients@.len() ==> #[trigger] nonclients@[j] == pre[j],
        decreases nonclients.len() - i,
    {
        if nonclients[i].ip_address == ip {
            nonclients[i].last_timer_access = now;
            time_stored = true;
        }
        i = i + 1;
    }
    if !time_stored {
        nonclients.push(NonclientTimerAccess::new(ip, now));
    }
}

/// Records a countdown request from `remote` at `now` and says whether the caller is a
/// workstation of the roster.
pub fn record_timer_access(shared: &mut SharedData, remote: Option<Ipv4>, now: Timestamp) -> (known:
    bool)
    ensures
        known == caller_is_known(old(shared)@, remote),
        final(shared)@ == access_recorded(old(shared)@, remote, now),
{
    match remote {
        Some(ip) => {
            let known = touch_clients(&mut shared.clients, ip, now);
            if !known {
                proof {
                    assert(shared.clients.deep_view() =~= old(shared).clients.deep_view());
                }
                touch_journal(&mut shared.nonclients, ip, now);
            }
            known
        },
        None => false,
    }
}

/// The page for a caller: the countdown for a workstation of the roster, and for anyone
/// where the configuration allows it; the illegal-access page otherwise.
pub open spec fn page_for(pre: SharedDataView, remote: Option<Ipv4>) -> Seq<char> {
    if caller_is_known(pre, remote) || pre.config.timer_allow_nonclient_access {
        countdown_page(
            pre.finish(),
            pre.config.timer_duration_minutes,
            pre.config.timer_webpage_refresh_seconds,
            pre.config.timer_webpage_refresh_unstarted_seconds,
        )
    } else {
        ILLEGAL_ACCESS_PAGE@
    }
}

/// The answer to a request for `url` from `remote`.
pub open spec fn reply_for(pre: SharedDataView, url: Seq<char>, remote: Option<Ipv4>) -> HttpReplyView {
    if url == TIMER_PATH@ {
        HttpReplyView { status: 200, content_type: HTML_CONTENT_TYPE@, body: page_for(pre, remote) }
    } else {
        HttpReplyView { status: 404, content_type: PLAIN_CONTENT_TYPE@, body: NOT_FOUND_BODY@ }
    }
}

/// The state after a request for `url` from `remote` at `now`: only a request for the
/// countdown path is recorded.
pub open spec fn state_after_request(
    pre: SharedDataView,
    url: Seq<char>,
    remote: Option<Ipv4>,
    now: Timestamp,
) -> SharedDataView {
    if url == TIMER_PATH@ {
        access_recorded(pre, remote, now)
    } else {
        pre
    }
}

/// Answers one request that arrived at `now`: records the access and renders the page.
pub fn handle_request(shared: &mut SharedData, url: &str, remote: Option<Ipv4>, now: Timestamp) -> (reply:
    HttpReply)
    requires
        old(shared).wf(),
    ensures
        final(shared).wf(),
        final(shared)@ == state_after_request(old(shared)@, url@, remote, now),
        reply@ == reply_for(old(shared)@, url@, remote),
{
    let addresses = client_addresses(&shared.clients);
    let plan = plan_request(&addresses, url, remote, now);
    if plan.served {
        record_timer_access(shared, remote, now);
    }
    proof {
        lemma_access_keeps_wf(old(shared)@, remote, now);
        lemma_plan_is_the_request(old(shared)@, url@, remote, now);
    }
    reply_to(&plan, &shared.config, &shared.times)
}

/// Answers one request as of the current time.
///
/// Reads the system clock, and panics where that clock stands before the Unix epoch or
/// beyond the range of chrono.
pub fn webserver(shared: &mut SharedData, url: &str, remote: Option<Ipv4>) -> (reply: HttpReply)
    requires
        old(shared).wf(),
    ensures
        final(shared).wf(),
        reply@ == reply_for(old(shared)@, url@, remote),
        exists|now: Timestamp|
            #[trigger] now.wf() && final(shared)@ == state_after_request(
                old(shared)@,
                url@,
                remote,
                now,
            ),
{
    let now = utc_now();
    handle_request(shared, url, remote, now)
}

/// Recording an access keeps the state well formed.
pub proof fn lemma_access_keeps_wf(pre: SharedDataView, remote: Option<Ipv4>, now: Timestamp)
    requires
        pre.wf(),
    ensures
        access_recorded(pre, remote, now).wf(),
{
}

/// Whether the journal holds exactly one entry for `ip`, and that one with the access
/// time `at`.
pub open spec fn single_entry(nonclients: Seq<NonclientTimerAccess>, ip: Ipv4, at: Timestamp) -> bool {
    exists|i: int|
        0 <= i < nonclients.len() && #[trigger] nonclients[i] == (NonclientTimerAccess {
            ip_address: ip,
            last_timer_access: at,
        }) && forall|j: int|
            0 <= j < nonclients.len() && (#[trigger] nonclients[j]).ip_address == ip ==> j == i
}

/// The state after requests from `remote` at each of `times`, in order.
pub open spec fn accesses_recorded(
    pre: SharedDataView,
    remote: Option<Ipv4>,
    times: Seq<Timestamp>,
) -> SharedDataView
    decreases times.len(),
{
    if times.len() == 0 {
        pre
    } else {
        access_recorded(accesses_recorded(pre, remote, times.drop_last()), remote, times.last())
    }
}

/// The first request from an address outside the roster adds exactly one journal
/// entry; a second request from that address sets the time of that entry and adds
/// none.
pub proof fn lemma_first_and_second_access(
    pre: SharedDataView,
    ip: Ipv4,
    first: Timestamp,
    second: Timestamp,
)
    requires
        pre.wf(),
        !in_roster(pre.clients, ip),
        !in_journal(pre.nonclients, ip),
    ensures
        access_recorded(pre, Some(ip), first).nonclients.len() == pre.nonclients.len() + 1,
        single_entry(access_recorded(pre, Some(ip), first).nonclients, ip, first),
        access_recorded(
            access_recorded(pre, Some(ip), first),
            Some(ip),
            second,
        ).nonclients.len() == pre.nonclients.len() + 1,
        single_entry(
            access_recorded(access_recorded(pre, Some(ip), first), Some(ip), second).nonclients,
            ip,
            second,
        ),
{
    let one = access_recorded(pre, Some(ip), first);
    let last = pre.nonclients.len() as int;
    assert(one.nonclients[last] == (NonclientTimerAccess { ip_address: ip, last_timer_access: first }));
    let two = access_recorded(one, Some(ip), second);
    assert(two.nonclients[last] == (NonclientTimerAccess {
        ip_address: ip,
        last_timer_access: second,
    }));
}

/// A request from an address outside the roster leaves exactly one journal entry for
/// that address, whatever the journal held before, and no entry for another address
/// comes or goes.
pub proof fn lemma_access_journals_once(pre: SharedDataView, ip: Ipv4, now: Timestamp)
    requires
        pre.wf(),
        !in_roster(pre.clients, ip),
    ensures
        single_entry(access_recorded(pre, Some(ip), now).nonclients, ip, now),
        access_recorded(pre, Some(ip), now).nonclients.len() == pre.nonclients.len() + (if in_journal(
            pre.nonclients,
            ip,
        ) {
            0int
        } else {
            1int
        }),
        forall|other: Ipv4|
            other != ip ==> in_journal(access_recorded(pre, Some(ip), now).nonclients, other)
                == in_journal(pre.nonclients, other),
{
    let post = access_recorded(pre, Some(ip), now);
    let at = if in_journal(pre.nonclients, ip) {
        choose|i: int| 0 <= i < pre.nonclients.len() && (#[trigger] pre.nonclients[i]).ip_address == ip
    } else {
        pre.nonclients.len() as int
    };
    assert(post.nonclients[at] == (NonclientTimerAccess { ip_address: ip, last_timer_access: now }));
    assert forall|other: Ipv4| other != ip implies in_journal(post.nonclients, other) == in_journal(
        pre.nonclients,
        other,
    ) by {
        if in_journal(post.nonclients, other) {
            let k = choose|k: int|
                0 <= k < post.nonclients.len() && (#[trigger] post.nonclients[k]).ip_address == other;
            assert(pre.nonclients[k].ip_address == other);
        }
        if in_journal(pre.nonclients, other) {
            let k = choose|k: int|
                0 <= k < pre.nonclients.len() && (#[trigger] pre.nonclients[k]).ip_address == other;
            assert(post.nonclients[k].ip_address == other);
        }
    }
}

/// Requests from a roster address, however many, leave the journal as it was, and the
/// address stays in the roster.
pub proof fn lemma_roster_access_never_journalled(
    pre: SharedDataView,
    ip: Ipv4,
    times: Seq<Timestamp>,
)
    requires
        in_roster(pre.clients, ip),
    ensures
        accesses_recorded(pre, Some(ip), times).nonclients == pre.nonclients,
        in_roster(accesses_recorded(pre, Some(ip), times).clients, ip),
    decreases times.len(),
{
    if times.len() > 0 {
        lemma_roster_access_never_journalled(pre, ip, times.drop_last());
        let before = accesses_recorded(pre, Some(ip), times.drop_last());
        let after = access_recorded(before, Some(ip), times.last());
        let i = choose|i: int| 0 <= i < before.clients.len() && (#[trigger] before.clients[i]).ip_address == ip;
        assert(after.clients[i].ip_address == ip);
    }
}

/// A request from a roster address sets the access time of that workstation to the
/// time of the request and leaves the timer alone.
pub proof fn lemma_roster_access_recorded(pre: SharedDataView, ip: Ipv4, now: Timestamp)
    requires
        in_roster(pre.clients, ip),
    ensures
        access_recorded(pre, Some(ip), now).times == pre.times,
        access_recorded(pre, Some(ip), now).finish() == pre.finish(),
        access_recorded(pre, Some(ip), now).clients.len() == pre.clients.len(),
        forall|i: int|
            0 <= i < pre.clients.len() ==> (#[trigger] access_recorded(
                pre,
                Some(ip),
                now,
            ).clients[i]).last_timer_access == (if pre.clients[i].ip_address == ip {
                Some(now)
            } else {
                pre.clients[i].last_timer_access
            }),
{
}

/// However a request is answered, the roster holds the same workstations as before and
/// the observed layer of every workstation stays what it was.
pub proof fn lemma_request_keeps_layers(
    pre: SharedDataView,
    url: Seq<char>,
    remote: Option<Ipv4>,
    now: Timestamp,
)
    ensures
        same_roster(state_after_request(pre, url, remote, now).clients, pre.clients),
        forall|i: int|
            0 <= i < pre.clients.len() ==> (#[trigger] state_after_request(
                pre,
                url,
                remote,
                now,
            ).clients[i]).current_layer == pre.clients[i].current_layer,
{
}

/// A caller outside the roster, where the configuration keeps such callers out, gets
/// the illegal-access page whatever the timer holds.
pub proof fn lemma_outsider_sees_no_countdown(pre: SharedDataView, remote: Option<Ipv4>)
    requires
        !pre.config.timer_allow_nonclient_access,
        !caller_is_known(pre, remote),
    ensures
        reply_for(pre, TIMER_PATH@, remote).body == ILLEGAL_ACCESS_PAGE@,
{
}

/// What one request asks of whoever holds the state, where every field has a guard of
/// its own: which access times to set, which address to journal, and at what time. To
/// carry it out one takes, one after the other, the guard of the access time of each
/// workstation that `touch` marks, and the guard of the journal where `journal` holds an
/// address; the answer needs the timer only to be read.
#[derive(Debug)]
pub struct AccessPlan {
    /// The request is for the countdown path.
    pub served: bool,
    /// The caller is a workstation of the roster.
    pub known: bool,
    /// For each workstation, in roster order: whether its access time is to be set.
    pub touch: Vec<bool>,
    /// The address whose journal entry is to be set, or added where there is none.
    pub journal: Option<Ipv4>,
    /// The time to record.
    pub at: Timestamp,
}

/// The mathematical model of an [`AccessPlan`].
pub struct AccessPlanView {
    pub served: bool,
    pub known: bool,
    pub touch: Seq<bool>,
    pub journal: Option<Ipv4>,
    pub at: Timestamp,
}

impl View for AccessPlan {
    type V = AccessPlanView;

    open spec fn view(&self) -> AccessPlanView {
        AccessPlanView {
            served: self.served,
            known: self.known,
            touch: self.touch@,
            journal: self.journal,
            at: self.at,
        }
    }
}

/// The plan for a request for `url` from `remote` at `now`, given the addresses of the
/// roster. Only a request for the countdown path leaves a trace: a roster address has
/// the access time of every workstation with that address set; any other address is
/// journalled; a caller without an address is recorded nowhere.
pub open spec fn access_plan(
    addresses: Seq<Ipv4>,
    url: Seq<char>,
    remote: Option<Ipv4>,
    now: Timestamp,
) -> AccessPlanView {
    let served = url == TIMER_PATH@;
    let known = remote is Some && addresses.contains(remote->0);
    AccessPlanView {
        served,
        known,
        touch: Seq::new(addresses.len(), |i: int| served && remote == Some(addresses[i])),
        journal: if served && !known {
            remote
        } else {
            None
        },
        at: now,
    }
}

/// The state after a plan has been carried out.
pub open spec fn plan_applied(pre: SharedDataView, plan: AccessPlanView) -> SharedDataView {
    SharedDataView {
        clients: Seq::new(
            pre.clients.len(),
            |i: int|
                if i < plan.touch.len() && plan.touch[i] {
                    ClientView {
                        name: pre.clients[i].name,
                        ip_address: pre.clients[i].ip_address,
                        current_layer: pre.clients[i].current_layer,
                        last_timer_access: Some(plan.at),
                    }
                } else {
                    pre.clients[i]
                },
        ),
        nonclients: match plan.journal {
            Some(ip) => journal_touched(pre.nonclients, ip, plan.at),
            None => pre.nonclients,
        },
        ..pre
    }
}

/// The answer to the request that a plan was made for, given the configuration and the
/// timer: the countdown for a workstation of the roster, and for anyone where the
/// configuration allows it; the illegal-access page otherwise; and for any other path
/// that it was not found.
pub open spec fn reply_of(plan: AccessPlanView, config: ConfigView, times: Option<ExamTimes>) -> HttpReplyView {
    if plan.served {
        HttpReplyView {
            status: 200,
            content_type: HTML_CONTENT_TYPE@,
            body: if plan.known || config.timer_allow_nonclient_access {
                countdown_page(
                    finish_of(times),
                    config.timer_duration_minutes,
                    config.timer_webpage_refresh_seconds,
                    config.timer_webpage_refresh_unstarted_seconds,
                )
            } else {
                ILLEGAL_ACCESS_PAGE@
            },
        }
    } else {
        HttpReplyView { status: 404, content_type: PLAIN_CONTENT_TYPE@, body: NOT_FOUND_BODY@ }
    }
}

/// Makes the plan for one request that arrived at `now`.
pub fn plan_request(addresses: &Vec<Ipv4>, url: &str, remote: Option<Ipv4>, now: Timestamp) -> (plan:
    AccessPlan)
    ensures
        plan@ == access_plan(addresses@, url@, remote, now),
{
    let path = url.to_owned();
    let served = path == String::from_str(TIMER_PATH);
    let mut known = false;
    let mut touch: Vec<bool> = Vec::new();
    let mut i: usize = 0;
    while i < addresses.len()
        invariant
            i <= addresses.len(),
            touch@.len() == i,
            known == (remote is Some && exists|j: int|
                0 <= j < i && #[trigger] addresses@[j] == remote->0),
            forall|j: int|
                0 <= j < i ==> #[trigger] touch@[j] == (served && remote == Some(addresses@[j])),
        decreases addresses.len() - i,
    {
        let same = match remote {
            Some(ip) => addresses[i] == ip,
            None => false,
        };
        if same {
            known = true;
        }
        touch.push(served && same);
        i = i + 1;
    }
    let journal = if served && !known {
        remote
    } else {
        None
    };
    proof {
        assert(touch@ =~= access_plan(addresses@, url@, remote, now).touch);
    }
    AccessPlan { served, known, touch, journal, at: now }
}

/// Makes the plan for one request as of the current time.
///
/// Reads the system clock, and panics where that clock stands before the Unix epoch or
/// beyond the range of chrono.
pub fn plan_request_now(addresses: &Vec<Ipv4>, url: &str, remote: Option<Ipv4>) -> (plan: AccessPlan)
    ensures
        plan.at.wf(),
        plan@ == access_plan(addresses@, url@, remote, plan.at),
{
    let now = utc_now();
    plan_request(addresses, url, remote, now)
}

/// Renders the answer to the request that a plan was made for.
pub fn reply_to(plan: &AccessPlan, config: &Config, times: &Option<ExamTimes>) -> (reply: HttpReply)
    requires
        *times is Some ==> times->0.wf(),
    ensures
        reply@ == reply_of(plan@, config@, *times),
{
    if plan.served {
        let body = if plan.known || config.timer_allow_nonclient_access {
            let finish: Option<i64> = match times {
                Some(running) => Some(running.finish_secs()),
                None => None,
            };
            generate_html(
                finish,
                config.timer_duration_minutes,
                config.timer_webpage_refresh_seconds,
                config.timer_webpage_refresh_unstarted_seconds,
            )
        } else {
            generate_html_illegal_access()
        };
        HttpReply { status: 200, content_type: String::from_str(HTML_CONTENT_TYPE), body }
    } else {
        HttpReply {
            status: 404,
            content_type: String::from_str(PLAIN_CONTENT_TYPE),
            body: String::from_str(NOT_FOUND_BODY),
        }
    }
}

/// Carrying out the plan for a request field by field leaves the state that the request
/// leaves as a whole, and the answer made from the plan is the answer to the request.
pub proof fn lemma_plan_is_the_request(
    pre: SharedDataView,
    url: Seq<char>,
    remote: Option<Ipv4>,
    now: Timestamp,
)
    ensures
        access_plan(addresses_of(pre.clients), url, remote, now).known == caller_is_known(
            pre,
            remote,
        ),
        plan_applied(pre, access_plan(addresses_of(pre.clients), url, remote, now))
            == state_after_request(pre, url, remote, now),
        reply_of(access_plan(addresses_of(pre.clients), url, remote, now), pre.config, pre.times)
            == reply_for(pre, url, remote),
{
    let addresses = addresses_of(pre.clients);
    let plan = access_plan(addresses, url, remote, now);
    if remote is Some {
        let ip = remote->0;
        if addresses.contains(ip) {
            let i = choose|i: int| 0 <= i < addresses.len() && addresses[i] == ip;
            assert(pre.clients[i].ip_address == ip);
        }
        if in_roster(pre.clients, ip) {
            let i = choose|i: int| 0 <= i < pre.clients.len() && (#[trigger] pre.clients[i]).ip_address == ip;
            assert(addresses[i] == ip);
        }
    }
    assert(plan.known == caller_is_known(pre, remote));
    assert(plan_applied(pre, plan).clients =~= state_after_request(pre, url, remote, now).clients);
}

/// The address on which the endpoint listens on every interface, up to the port.
pub const LISTEN_PREFIX: &'static str = "0.0.0.0:";

/// The text of the address on which the endpoint listens.
pub fn listen_address(port: u16) -> (address: String)
    ensures
        address@ == LISTEN_PREFIX@ + decimal(port as int),
{
    let mut address = String::from_str(LISTEN_PREFIX);
    append_decimal(&mut address, port as i128);
    address
}

} // verus!
