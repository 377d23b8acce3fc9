//! The control panel: what each key does to the shared state, and what it asks the
//! surrounding program to carry out.

use vstd::prelude::*;
use crate::address::{Ipv4, dotted};
use crate::client::{Client, ClientView, text_of};
use crate::clock::{
    Timestamp, divide_truncating, seconds_between, truncated_quotient, truncated_remainder,
    utc_now, whole_seconds_between,
};
use crate::nonclient_timeraccess::NonclientTimerAccess;
use crate::text::{
    append_decimal, append_decimal_width2, decimal, decimal_string, decimal_width2, padded,
    try_pad_string,
};
use crate::input_parser::{Config, ConfigView, SymlinkInfo, SymlinkInfoView};
use crate::kanata_tcp::{
    DISABLED_LAYER, ENABLED_LAYER, LayerChangeOrder, LayerChangeOrderView, orders_for, orders_to,
};
use crate::persistance::{SaveState, persist_time, saved};
use crate::shared_data::{
    ExamTimes, SharedData, SharedDataView, addresses_of, client_addresses, timer_adjustable,
    timer_adjusted, timer_started,
};
use crate::symlinks::{
    SymlinkOrder, SymlinkOrderView, lock_order_of, lock_target, unlock_order_of, unlock_target,
};

verus! {

/// A key press, as far as the panel tells keys apart.
#[derive(Clone, Copy, Debug, PartialEq, Eq, Structural)]
pub enum Key {
    Char(char),
    Enter,
    Esc,
    Other,
}

/// The panel itself: whether the operator has asked to leave.
#[derive(Debug)]
pub struct App {
    pub exit: bool,
}

/// Something that the surrounding program carries out for the panel, in the order
/// given. After `SetSymlink` it reads the link and reports what it found.
#[derive(Debug)]
pub enum PanelAction {
    /// Remove the stored timer.
    DeletePersistedTime,
    /// Store the timer.
    PersistTime(SaveState),
    /// Point the symlink at a target.
    SetSymlink(SymlinkOrder),
    /// Deliver a layer change to every workstation, each on its own.
    ChangeLayers(Vec<LayerChangeOrder>),
}

/// The mathematical model of a [`PanelAction`].
pub enum PanelActionView {
    DeletePersistedTime,
    PersistTime(SaveState),
    SetSymlink(SymlinkOrderView),
    ChangeLayers(Seq<LayerChangeOrderView>),
}

impl View for PanelAction {
    type V = PanelActionView;

    open spec fn view(&self) -> PanelActionView {
        match self {
            PanelAction::DeletePersistedTime => PanelActionView::DeletePersistedTime,
            PanelAction::PersistTime(save) => PanelActionView::PersistTime(*save),
            PanelAction::SetSymlink(order) => PanelActionView::SetSymlink(order@),
            PanelAction::ChangeLayers(orders) => PanelActionView::ChangeLayers(orders.deep_view()),
        }
    }
}

impl DeepView for PanelAction {
    type V = PanelActionView;

    open spec fn deep_view(&self) -> PanelActionView {
        self@
    }
}

/// The key that ends the session.
pub const KEY_QUIT: char = 'q';

/// The key that lengthens the exam by a minute.
pub const KEY_MORE_TIME: char = '+';

/// The key that shortens the exam by a minute.
pub const KEY_LESS_TIME: char = '-';

/// The key that switches every keyboard off.
pub const KEY_DISABLE: char = ' ';

/// The key that points the symlink at the dummy.
pub const KEY_LOCK: char = 'd';

/// The key that points the symlink at the real task description.
pub const KEY_UNLOCK: char = 'r';

/// The timer after a key press at `now`, where a timer that is started gets
/// `default_minutes`. The quit key clears the timer. Enter starts a stopped timer and
/// leaves a running one alone; plus and minus move the duration of a running timer by a
/// minute and never its start; no other key touches it.
pub open spec fn timer_after(
    times: Option<ExamTimes>,
    default_minutes: i64,
    key: Key,
    now: Timestamp,
) -> Option<ExamTimes> {
    if key == Key::Char(KEY_QUIT) {
        None
    } else if key == Key::Enter {
        timer_started(times, now, default_minutes)
    } else if key == Key::Char(KEY_MORE_TIME) {
        timer_adjusted(times, 1)
    } else if key == Key::Char(KEY_LESS_TIME) {
        timer_adjusted(times, -1)
    } else {
        times
    }
}

/// Whether the timer that a key press leads to is representable.
pub open spec fn admissible(
    times: Option<ExamTimes>,
    default_minutes: i64,
    key: Key,
    now: Timestamp,
) -> bool {
    if key == Key::Enter {
        timer_started(times, now, default_minutes)->0.wf()
    } else if key == Key::Char(KEY_MORE_TIME) {
        timer_adjustable(times, 1)
    } else if key == Key::Char(KEY_LESS_TIME) {
        timer_adjustable(times, -1)
    } else {
        true
    }
}

/// What the surrounding program is asked to do after a key press at `now`, given the
/// timer before the key, the configuration, the symlink settings and the addresses of
/// the roster.
pub open spec fn actions_after(
    times: Option<ExamTimes>,
    config: ConfigView,
    symlink_info: SymlinkInfoView,
    addresses: Seq<Ipv4>,
    key: Key,
    now: Timestamp,
) -> Seq<PanelActionView> {
    if key == Key::Char(KEY_QUIT) {
        seq![PanelActionView::DeletePersistedTime]
    } else if key == Key::Enter {
        if times is None {
            seq![
                PanelActionView::SetSymlink(unlock_order_of(symlink_info)),
                PanelActionView::PersistTime(saved(now, config.timer_duration_minutes)),
            ]
        } else {
            Seq::empty()
        }
    } else if key == Key::Char(KEY_MORE_TIME) || key == Key::Char(KEY_LESS_TIME) {
        match timer_after(times, config.timer_duration_minutes, key, now) {
            Some(after) => seq![
                PanelActionView::PersistTime(saved(after.start, after.duration_minutes)),
            ],
            None => Seq::empty(),
        }
    } else if key == Key::Char(KEY_DISABLE) {
        seq![
            PanelActionView::ChangeLayers(
                orders_to(addresses, config.kanata_port, config.kanata_tcp_timeout_ms, DISABLED_LAYER@),
            ),
        ]
    } else if key == Key::Esc {
        seq![
            PanelActionView::ChangeLayers(
                orders_to(addresses, config.kanata_port, config.kanata_tcp_timeout_ms, ENABLED_LAYER@),
            ),
        ]
    } else if key == Key::Char(KEY_LOCK) {
        seq![PanelActionView::SetSymlink(lock_order_of(symlink_info))]
    } else if key == Key::Char(KEY_UNLOCK) {
        seq![PanelActionView::SetSymlink(unlock_order_of(symlink_info))]
    } else {
        Seq::empty()
    }
}

/// The timer of a state after a key press at `now`.
pub open spec fn timer_after_key(pre: SharedDataView, key: Key, now: Timestamp) -> Option<ExamTimes> {
    timer_after(pre.times, pre.config.timer_duration_minutes, key, now)
}

/// The state after a key press at `now`: only the timer can differ.
pub open spec fn state_after_key(pre: SharedDataView, key: Key, now: Timestamp) -> SharedDataView {
    SharedDataView { times: timer_after_key(pre, key, now), ..pre }
}

/// Whether the timer that a key press leads to, in this state, is representable.
pub open spec fn key_admissible(pre: SharedDataView, key: Key, now: Timestamp) -> bool {
    admissible(pre.times, pre.config.timer_duration_minutes, key, now)
}

/// What the surrounding program is asked to do after a key press at `now` in this state.
pub open spec fn actions_after_key(pre: SharedDataView, key: Key, now: Timestamp) -> Seq<
    PanelActionView,
> {
    actions_after(pre.times, pre.config, pre.symlink_info, addresses_of(pre.clients), key, now)
}

/// Whether `delta` minutes can be added to the timer and leave it representable.
pub fn can_adjust(times: &Option<ExamTimes>, delta: i64) -> (ok: bool)
    requires
        times is Some ==> times->0.wf(),
    ensures
        ok == timer_adjustable(*times, delta as int),
{
    match times {
        Some(t) => {
            let minutes: i128 = t.duration_minutes as i128 + delta as i128;
            let finish: i128 = t.start.secs as i128 + 60 * minutes;
            i64::MIN as i128 <= minutes && minutes <= i64::MAX as i128 && i64::MIN as i128 <= finish
                && finish <= i64::MAX as i128
        },
        None => true,
    }
}

impl App {
    /// A panel that has not been asked to leave.
    pub fn new() -> (app: App)
        ensures
            !app.exit,
    {
        App { exit: false }
    }

    /// Marks the panel as left.
    pub fn exit(&mut self)
        ensures
            final(self).exit,
    {
        self.exit = true;
    }

    /// Whether the timer that a key press at `now` leads to is representable, given the
    /// timer before the key.
    pub fn key_is_admissible_on(
        times: &Option<ExamTimes>,
        default_minutes: i64,
        key: Key,
        now: Timestamp,
    ) -> (ok: bool)
        requires
            times is Some ==> times->0.wf(),
        ensures
            ok == admissible(*times, default_minutes, key, now),
    {
        if key == Key::Enter {
            match times {
                Some(_) => true,
                None => ExamTimes::new(now, default_minutes).is_some(),
            }
        } else if key == Key::Char(KEY_MORE_TIME) {
            can_adjust(times, 1)
        } else if key == Key::Char(KEY_LESS_TIME) {
            can_adjust(times, -1)
        } else {
            true
        }
    }

    /// Whether the timer that a key press at `now` leads to is representable.
    pub fn key_is_admissible(shared_data: &SharedData, key: Key, now: Timestamp) -> (ok: bool)
        requires
            shared_data.wf(),
        ensures
            ok == key_admissible(shared_data@, key, now),
    {
        App::key_is_admissible_on(
            &shared_data.times,
            shared_data.config.timer_duration_minutes,
            key,
            now,
        )
    }

    /// Applies one key press that happened at `now` to the timer, which is all that a
    /// key can change: changes it as the key says, clears it and marks the panel as
    /// left on the quit key, and returns what is to be carried out. The holder of the
    /// state needs the guard of the timer for this call and no other.
    pub fn handle_key_on(
        &mut self,
        times: &mut Option<ExamTimes>,
        config: &Config,
        symlink_info: &SymlinkInfo,
        addresses: &Vec<Ipv4>,
        key: Key,
        now: Timestamp,
    ) -> (actions: Vec<PanelAction>)
        requires
            *old(times) is Some ==> old(times)->0.wf(),
            admissible(*old(times), config.timer_duration_minutes, key, now),
        ensures
            *final(times) is Some ==> final(times)->0.wf(),
            *final(times) == timer_after(*old(times), config.timer_duration_minutes, key, now),
            actions.deep_view() == actions_after(
                *old(times),
                config@,
                symlink_info@,
                addresses@,
                key,
                now,
            ),
            final(self).exit == (old(self).exit || key == Key::Char(KEY_QUIT)),
    {
        let mut actions: Vec<PanelAction> = Vec::new();
        if key == Key::Char(KEY_QUIT) {
            *times = None;
            actions.push(PanelAction::DeletePersistedTime);
            self.exit();
        } else if key == Key::Enter {
            if times.is_none() {
                let duration_minutes = config.timer_duration_minutes;
                *times = Some(ExamTimes { start: now, duration_minutes });
                actions.push(PanelAction::SetSymlink(unlock_target(symlink_info)));
                actions.push(PanelAction::PersistTime(persist_time(now, duration_minutes)));
            }
        } else if key == Key::Char(KEY_MORE_TIME) || key == Key::Char(KEY_LESS_TIME) {
            let delta: i64 = if key == Key::Char(KEY_MORE_TIME) {
                1
            } else {
                -1
            };
            match *times {
                Some(running) => {
                    let new_duration: i64 = running.duration_minutes + delta;
                    *times = Some(
                        ExamTimes { start: running.start, duration_minutes: new_duration },
                    );
                    actions.push(
                        PanelAction::PersistTime(persist_time(running.start, new_duration)),
                    );
                },
                None => {},
            }
        } else if key == Key::Char(KEY_DISABLE) {
            actions.push(
                PanelAction::ChangeLayers(
                    orders_for(
                        addresses,
                        config.kanata_port,
                        config.kanata_tcp_timeout_ms,
                        DISABLED_LAYER,
                    ),
                ),
            );
        } else if key == Key::Esc {
            actions.push(
                PanelAction::ChangeLayers(
                    orders_for(
                        addresses,
                        config.kanata_port,
                        config.kanata_tcp_timeout_ms,
                        ENABLED_LAYER,
                    ),
                ),
            );
        } else if key == Key::Char(KEY_LOCK) {
            actions.push(PanelAction::SetSymlink(lock_target(symlink_info)));
        } else if key == Key::Char(KEY_UNLOCK) {
            actions.push(PanelAction::SetSymlink(unlock_target(symlink_info)));
        }
        actions
    }

    /// Applies one key press to the timer as of the current time. Where the timer that
    /// the key leads to would not be representable, nothing changes and `None` comes
    /// back.
    ///
    /// Reads the system clock, and panics where that clock stands before the Unix epoch
    /// or beyond the range of chrono.
    pub fn handle_key_on_now(
        &mut self,
        times: &mut Option<ExamTimes>,
        config: &Config,
        symlink_info: &SymlinkInfo,
        addresses: &Vec<Ipv4>,
        key: Key,
    ) -> (actions: Option<Vec<PanelAction>>)
        requires
            *old(times) is Some ==> old(times)->0.wf(),
        ensures
            *final(times) is Some ==> final(times)->0.wf(),
            exists|now: Timestamp|
                #[trigger] now.wf() && match actions {
                    Some(list) => {
                        &&& admissible(*old(times), config.timer_duration_minutes, key, now)
                        &&& *final(times) == timer_after(
                            *old(times),
                            config.timer_duration_minutes,
                            key,
                            now,
                        )
                        &&& list.deep_view() == actions_after(
                            *old(times),
                            config@,
                            symlink_info@,
                            addresses@,
                            key,
                            now,
                        )
                        &&& final(self).exit == (old(self).exit || key == Key::Char(KEY_QUIT))
                    },
                    None => {
                        &&& !admissible(*old(times), config.timer_duration_minutes, key, now)
                        &&& *final(times) == *old(times)
                        &&& final(self).exit == old(self).exit
                    },
                },
    {
        let now = utc_now();
        if App::key_is_admissible_on(times, config.timer_duration_minutes, key, now) {
            Some(self.handle_key_on(times, config, symlink_info, addresses, key, now))
        } else {
            None
        }
    }

    /// Applies one key press that happened at `now`: changes the timer as the key
    /// says, clears it and marks the panel as left on the quit key, and returns what is
    /// to be carried out.
    pub fn handle_key_event(
        &mut self,
        shared_data: &mut SharedData,
        key: Key,
        now: Timestamp,
    ) -> (actions: Vec<PanelAction>)
        requires
            old(shared_data).wf(),
            key_admissible(old(shared_data)@, key, now),
        ensures
            final(shared_data).wf(),
            final(shared_data)@ == state_after_key(old(shared_data)@, key, now),
            actions.deep_view() == actions_after_key(old(shared_data)@, key, now),
            final(self).exit == (old(self).exit || key == Key::Char(KEY_QUIT)),
    {
        let addresses = client_addresses(&shared_data.clients);
        self.handle_key_on(
            &mut shared_data.times,
            &shared_data.config,
            &shared_data.symlink_info,
            &addresses,
            key,
            now,
        )
    }
}

/// The heading of the client table.
pub const CLIENT_TABLE_HEADER: &'static str =
    "kbd layer  name      IP address       time since timer request";

/// Shown in place of a layer that is not known.
pub const UNKNOWN_LAYER: &'static str = "  ---";

/// Shown in place of an access time where there was no access.
pub const NO_ACCESS: &'static str = " -";

/// Stands in a journal row where a workstation has its layer and name.
pub const NONCLIENT_INDENT: &'static str = "                     ";

/// The unit behind a time span.
pub const MINUTES_UNIT: &'static str = "min";

/// The width of the layer column.
pub const LAYER_WIDTH: usize = 11;

/// The width of the name column.
pub const NAME_WIDTH: usize = 10;

/// The width of the address column.
pub const ADDRESS_WIDTH: usize = 18;

/// The column filler.
pub const FILLER: char = ' ';

/// A time span of `seconds` as minutes, a colon, and the seconds past them on two
/// places, with the unit behind.
pub open spec fn span_text(seconds: int) -> Seq<char> {
    decimal(truncated_quotient(seconds, 60)) + seq![':'] + decimal_width2(
        truncated_remainder(seconds, 60),
    ) + MINUTES_UNIT@
}

/// The time that has passed from `earlier` to `now`, as text.
pub open spec fn elapsed_text(earlier: Timestamp, now: Timestamp) -> Seq<char> {
    span_text(whole_seconds_between(earlier, now))
}

/// The table row of a workstation at `now`: layer, name, address, and the time since
/// it last asked for the countdown page.
pub open spec fn client_row(client: ClientView, now: Timestamp) -> Seq<Seq<char>> {
    seq![
        padded(
            match client.current_layer {
                Some(layer) => layer,
                None => UNKNOWN_LAYER@,
            },
            FILLER,
            LAYER_WIDTH as nat,
        ),
        padded(client.name, FILLER, NAME_WIDTH as nat),
        padded(dotted(client.ip_address), FILLER, ADDRESS_WIDTH as nat),
        match client.last_timer_access {
            Some(last_access) => elapsed_text(last_access, now),
            None => NO_ACCESS@,
        },
    ]
}

/// The table row of a journal entry at `now`: the indent, the address, and the time
/// since its last request.
pub open spec fn nonclient_row(entry: NonclientTimerAccess, now: Timestamp) -> Seq<Seq<char>> {
    seq![
        NONCLIENT_INDENT@,
        padded(dotted(entry.ip_address), FILLER, ADDRESS_WIDTH as nat),
        elapsed_text(entry.last_timer_access, now),
    ]
}

/// A table at `now`: the heading, a row for each workstation in order and, where
/// `show_nonclients` asks for it, a row for each journal entry.
pub open spec fn table_of(
    clients: Seq<ClientView>,
    nonclients: Seq<NonclientTimerAccess>,
    show_nonclients: bool,
    now: Timestamp,
) -> Seq<Seq<Seq<char>>> {
    seq![seq![CLIENT_TABLE_HEADER@]] + Seq::new(clients.len(), |i: int| client_row(clients[i], now))
        + (if show_nonclients {
        Seq::new(nonclients.len(), |i: int| nonclient_row(nonclients[i], now))
    } else {
        Seq::empty()
    })
}

/// The client table of a state at `now`: the heading, a row for each workstation in
/// roster order and, where the configuration asks for it, a row for each journal
/// entry.
pub open spec fn client_table(shared: SharedDataView, now: Timestamp) -> Seq<Seq<Seq<char>>> {
    table_of(
        shared.clients,
        shared.nonclients,
        shared.config.tui_show_nonclient_timer_accesses,
        now,
    )
}

/// Renders [`span_text`].
pub fn render_span(seconds: i128) -> (text: String)
    requires
        seconds > i128::MIN,
    ensures
        text@ == span_text(seconds as int),
{
    let (minutes, rest) = divide_truncating(seconds, 60);
    let mut text = String::new();
    append_decimal(&mut text, minutes);
    crate::text::push_char(&mut text, ':');
    append_decimal_width2(&mut text, rest);
    text.append(MINUTES_UNIT);
    text
}

/// Renders [`client_row`].
pub fn render_client_row(client: &Client, now: Timestamp) -> (row: Vec<String>)
    ensures
        row.deep_view() == client_row(client@, now),
{
    let layer = match &client.current_layer {
        Some(layer) => layer.clone(),
        None => String::from_str(UNKNOWN_LAYER),
    };
    let access = match client.last_timer_access {
        Some(last_access) => render_span(seconds_between(last_access, now)),
        None => String::from_str(NO_ACCESS),
    };
    let mut row: Vec<String> = Vec::new();
    row.push(try_pad_string(layer, FILLER, LAYER_WIDTH));
    row.push(try_pad_string(client.name.clone(), FILLER, NAME_WIDTH));
    row.push(try_pad_string(client.ip_address.to_text(), FILLER, ADDRESS_WIDTH));
    row.push(access);
    row
}

/// Renders [`nonclient_row`].
pub fn render_nonclient_row(entry: &NonclientTimerAccess, now: Timestamp) -> (row: Vec<String>)
    ensures
        row.deep_view() == nonclient_row(*entry, now),
{
    let mut row: Vec<String> = Vec::new();
    row.push(String::from_str(NONCLIENT_INDENT));
    row.push(try_pad_string(entry.ip_address.to_text(), FILLER, ADDRESS_WIDTH));
    row.push(render_span(seconds_between(entry.last_timer_access, now)));
    row
}

/// Renders [`table_of`] from a roster and a journal as they stand.
pub fn render_table(
    clients: &Vec<Client>,
    nonclients: &Vec<NonclientTimerAccess>,
    show_nonclients: bool,
    now: Timestamp,
) -> (table: Vec<Vec<String>>)
    ensures
        table.deep_view() == table_of(clients.deep_view(), nonclients@, show_nonclients, now),
{
    let mut table: Vec<Vec<String>> = Vec::new();
    let mut heading: Vec<String> = Vec::new();
    heading.push(String::from_str(CLIENT_TABLE_HEADER));
    table.push(heading);
    let ghost roster = clients.deep_view();
    let ghost client_rows = Seq::new(roster.len(), |i: int| client_row(roster[i], now));
    let mut i: usize = 0;
    while i < clients.len()
        invariant
            i <= clients.len(),
            roster == clients.deep_view(),
            roster.len() == clients@.len(),
            client_rows == Seq::new(roster.len(), |i: int| client_row(roster[i], now)),
            table@.len() == 1 + i,
            table@[0].deep_view() == seq![CLIENT_TABLE_HEADER@],
            forall|j: int| 0 <= j < i ==> (#[trigger] table@[1 + j]).deep_view() == client_rows[j],
        decreases clients.len() - i,
    {
        let row = render_client_row(&clients[i], now);
        table.push(row);
        i = i + 1;
    }
    let ghost entries = nonclients@;
    let ghost entry_rows = Seq::new(entries.len(), |i: int| nonclient_row(entries[i], now));
    if show_nonclients {
        let base: usize = table.len();
        let mut k: usize = 0;
        while k < nonclients.len()
            invariant
                k <= nonclients.len(),
                entries == nonclients@,
                base == 1 + roster.len(),
                client_rows.len() == roster.len(),
                entry_rows == Seq::new(entries.len(), |i: int| nonclient_row(entries[i], now)),
                table@.len() == base + k,
                table@[0].deep_view() == seq![CLIENT_TABLE_HEADER@],
                forall|j: int|
                    0 <= j < roster.len() ==> (#[trigger] table@[1 + j]).deep_view()
                        == client_rows[j],
                forall|j: int|
                    0 <= j < k ==> (#[trigger] table@[base + j]).deep_view() == entry_rows[j],
            decreases nonclients.len() - k,
        {
            let row = render_nonclient_row(&nonclients[k], now);
            table.push(row);
            k = k + 1;
        }
        proof {
            let expected = table_of(clients.deep_view(), nonclients@, show_nonclients, now);
            assert forall|j: int| 0 <= j < table@.len() implies table.deep_view()[j]
                == expected[j] by {
                if 0 < j < base {
                    assert(table@[1 + (j - 1)].deep_view() == client_rows[j - 1]);
                } else if j >= base {
                    assert(table@[base + (j - base)].deep_view() == entry_rows[j - base]);
                }
            }
        }
    } else {
        proof {
            let expected = table_of(clients.deep_view(), nonclients@, show_nonclients, now);
            assert forall|j: int| 0 <= j < table@.len() implies table.deep_view()[j]
                == expected[j] by {
                if j > 0 {
                    assert(table@[1 + (j - 1)].deep_view() == client_rows[j - 1]);
                }
            }
        }
    }
    table
}

/// Renders [`table_of`] as of the current time.
///
/// Reads the system clock, and panics where that clock stands before the Unix epoch or
/// beyond the range of chrono.
pub fn render_table_now(
    clients: &Vec<Client>,
    nonclients: &Vec<NonclientTimerAccess>,
    show_nonclients: bool,
) -> (table: Vec<Vec<String>>)
    ensures
        exists|now: Timestamp|
            #[trigger] now.wf() && table.deep_view() == table_of(
                clients.deep_view(),
                nonclients@,
                show_nonclients,
                now,
            ),
{
    let now = utc_now();
    render_table(clients, nonclients, show_nonclients, now)
}

/// Renders [`client_table`].
pub fn render_clients(shared_data: &SharedData, now: Timestamp) -> (table: Vec<Vec<String>>)
    ensures
        table.deep_view() == client_table(shared_data@, now),
{
    render_table(
        &shared_data.clients,
        &shared_data.nonclients,
        shared_data.config.tui_show_nonclient_timer_accesses,
        now,
    )
}

/// Stands before the target that the symlink points at.
pub const SYMLINK_POINTS_TO: &'static str = "Currently pointing to ";

/// Stands before the path of a symlink that cannot be read.
pub const SYMLINK_PREFIX: &'static str = "Symlink ";

/// Stands behind the path of a symlink that cannot be read.
pub const SYMLINK_NOT_ACCESSIBLE: &'static str = " is not accessible";

/// A symlink line: where the link at `symlink_path` points, or that it cannot be read.
pub open spec fn symlink_line_of(target: Option<Seq<char>>, symlink_path: Seq<char>) -> Seq<
    Seq<char>,
> {
    match target {
        Some(path) => seq![SYMLINK_POINTS_TO@, path],
        None => seq![SYMLINK_PREFIX@, symlink_path, SYMLINK_NOT_ACCESSIBLE@],
    }
}

/// The symlink line of a state.
pub open spec fn symlink_line(shared: SharedDataView) -> Seq<Seq<char>> {
    symlink_line_of(shared.symlink_target, shared.symlink_info.symlink_path)
}

/// Renders [`symlink_line_of`] from the cached target as it stands.
pub fn render_symlink_line(target: &Option<String>, symlink_info: &SymlinkInfo) -> (line: Vec<String>)
    ensures
        line.deep_view() == symlink_line_of(text_of(*target), symlink_info@.symlink_path),
{
    let mut line: Vec<String> = Vec::new();
    match target {
        Some(path) => {
            line.push(String::from_str(SYMLINK_POINTS_TO));
            line.push(path.clone());
        },
        None => {
            line.push(String::from_str(SYMLINK_PREFIX));
            line.push(symlink_info.symlink_path.clone());
            line.push(String::from_str(SYMLINK_NOT_ACCESSIBLE));
        },
    }
    line
}

/// Renders [`symlink_line`].
pub fn render_symlinks(shared_data: &SharedData) -> (line: Vec<String>)
    ensures
        line.deep_view() == symlink_line(shared_data@),
{
    render_symlink_line(&shared_data.symlink_target, &shared_data.symlink_info)
}

/// What the timer line shows of a running exam. The two instants are left for the
/// surrounding program to render in local time.
#[derive(Debug)]
pub struct TimerStatus {
    pub start: Timestamp,
    pub finish: Timestamp,
    /// The duration in minutes, with its unit.
    pub duration: String,
    /// Minutes and seconds until the end, each on two places, with the unit.
    pub time_left: String,
}

/// The mathematical model of a [`TimerStatus`].
pub struct TimerStatusView {
    pub start: Timestamp,
    pub finish: Timestamp,
    pub duration: Seq<char>,
    pub time_left: Seq<char>,
}

impl View for TimerStatus {
    type V = TimerStatusView;

    open spec fn view(&self) -> TimerStatusView {
        TimerStatusView {
            start: self.start,
            finish: self.finish,
            duration: self.duration@,
            time_left: self.time_left@,
        }
    }
}

/// Whole seconds from `now` to the end of the exam, rounded toward zero; negative once
/// the end has passed.
pub open spec fn remaining_seconds(times: ExamTimes, now: Timestamp) -> int {
    truncated_quotient(
        times.duration_minutes * 60 * 1_000_000_000 - (now.total_nanos()
            - times.start.total_nanos()),
        1_000_000_000,
    )
}

/// The timer line of a running exam at `now`.
pub open spec fn timer_status(times: ExamTimes, now: Timestamp) -> TimerStatusView {
    let left = remaining_seconds(times, now);
    TimerStatusView {
        start: times.start,
        finish: Timestamp { secs: times.finish() as i64, nanos: times.start.nanos },
        duration: decimal(times.duration_minutes as int) + MINUTES_UNIT@,
        time_left: decimal_width2(truncated_quotient(left, 60)) + seq![':'] + decimal_width2(
            truncated_remainder(left, 60),
        ) + MINUTES_UNIT@,
    }
}

/// The timer line at `now`; `None` while the exam has not started.
pub fn render_timer(times: &Option<ExamTimes>, now: Timestamp) -> (status: Option<TimerStatus>)
    requires
        *times is Some ==> times->0.wf(),
    ensures
        match *times {
            Some(times) => status is Some && status->0@ == timer_status(times, now),
            None => status is None,
        },
{
    match *times {
        Some(times) => {
            let length: i128 = (times.duration_minutes as i128) * 60 * 1_000_000_000;
            let d_secs: i128 = now.secs as i128 - times.start.secs as i128;
            let passed: i128 = d_secs * 1_000_000_000 + (now.nanos as i128
                - times.start.nanos as i128);
            let left: i128 = divide_truncating(length - passed, 1_000_000_000).0;
            let (minutes, seconds) = divide_truncating(left, 60);
            let mut duration = decimal_string(times.duration_minutes as i128);
            duration.append(MINUTES_UNIT);
            let mut time_left = String::new();
            append_decimal_width2(&mut time_left, minutes);
            crate::text::push_char(&mut time_left, ':');
            append_decimal_width2(&mut time_left, seconds);
            time_left.append(MINUTES_UNIT);
            proof {
                assert(time_left@ =~= timer_status(times, now).time_left);
            }
            Some(
                TimerStatus {
                    start: times.start,
                    finish: Timestamp { secs: times.finish_secs(), nanos: times.start.nanos },
                    duration,
                    time_left,
                },
            )
        },
        None => None,
    }
}

/// The timer line as of the current time; `None` while the exam has not started.
///
/// Reads the system clock, and panics where that clock stands before the Unix epoch or
/// beyond the range of chrono.
pub fn render_timer_now(times: &Option<ExamTimes>) -> (status: Option<TimerStatus>)
    requires
        *times is Some ==> times->0.wf(),
    ensures
        match *times {
            Some(running) => status is Some && exists|now: Timestamp|
                #[trigger] now.wf() && status->0@ == timer_status(running, now),
            None => status is None,
        },
{
    let now = utc_now();
    render_timer(times, now)
}

/// The timer line of a state at `now`; `None` while the exam has not started.
pub fn render_status(shared_data: &SharedData, now: Timestamp) -> (status: Option<TimerStatus>)
    requires
        shared_data.wf(),
    ensures
        match shared_data.times {
            Some(times) => status is Some && status->0@ == timer_status(times, now),
            None => status is None,
        },
{
    render_timer(&shared_data.times, now)
}

impl App {
    /// Applies one key press as of the current time. Where the timer that the key leads
    /// to would not be representable, nothing changes and `None` comes back.
    ///
    /// Reads the system clock, and panics where that clock stands before the Unix epoch
    /// or beyond the range of chrono.
    pub fn handle_key_event_now(&mut self, shared_data: &mut SharedData, key: Key) -> (actions: Option<
        Vec<PanelAction>,
    >)
        requires
            old(shared_data).wf(),
        ensures
            final(shared_data).wf(),
            exists|now: Timestamp|
                #[trigger] now.wf() && match actions {
                    Some(list) => {
                        &&& key_admissible(old(shared_data)@, key, now)
                        &&& final(shared_data)@ == state_after_key(old(shared_data)@, key, now)
                        &&& list.deep_view() == actions_after_key(old(shared_data)@, key, now)
                        &&& final(self).exit == (old(self).exit || key == Key::Char(KEY_QUIT))
                    },
                    None => {
                        &&& !key_admissible(old(shared_data)@, key, now)
                        &&& final(shared_data)@ == old(shared_data)@
                        &&& final(self).exit == old(self).exit
                    },
                },
    {
        let now = utc_now();
        if App::key_is_admissible(shared_data, key, now) {
            Some(self.handle_key_event(shared_data, key, now))
        } else {
            None
        }
    }
}

/// The timer line as of the current time.
///
/// Reads the system clock, and panics where that clock stands before the Unix epoch or
/// beyond the range of chrono.
pub fn render_status_now(shared_data: &SharedData) -> (status: Option<TimerStatus>)
    requires
        shared_data.wf(),
    ensures
        match shared_data.times {
            Some(times) => status is Some && exists|now: Timestamp|
                #[trigger] now.wf() && status->0@ == timer_status(times, now),
            None => status is None,
        },
{
    let now = utc_now();
    render_status(shared_data, now)
}

/// The client table as of the current time.
///
/// Reads the system clock, and panics where that clock stands before the Unix epoch or
/// beyond the range of chrono.
pub fn render_clients_now(shared_data: &SharedData) -> (table: Vec<Vec<String>>)
    ensures
        exists|now: Timestamp|
            #[trigger] now.wf() && table.deep_view() == client_table(shared_data@, now),
{
    let now = utc_now();
    render_clients(shared_data, now)
}

/// No key touches the roster, the journal, the configuration or the symlink status, and
/// a key that is admissible leaves a well-formed state well formed.
pub proof fn lemma_key_changes_the_timer_only(pre: SharedDataView, key: Key, now: Timestamp)
    requires
        pre.wf(),
        key_admissible(pre, key, now),
    ensures
        state_after_key(pre, key, now).clients == pre.clients,
        state_after_key(pre, key, now).nonclients == pre.nonclients,
        state_after_key(pre, key, now).config == pre.config,
        state_after_key(pre, key, now).symlink_target == pre.symlink_target,
        state_after_key(pre, key, now).wf(),
{
}

/// The quit key clears the timer, running or not, asks for the stored timer to be
/// deleted and for nothing else, and is always admissible.
pub proof fn lemma_quit_clears_the_timer(pre: SharedDataView, now: Timestamp)
    ensures
        key_admissible(pre, Key::Char(KEY_QUIT), now),
        state_after_key(pre, Key::Char(KEY_QUIT), now).times is None,
        state_after_key(pre, Key::Char(KEY_QUIT), now).finish() is None,
        actions_after_key(pre, Key::Char(KEY_QUIT), now) == seq![
            PanelActionView::DeletePersistedTime,
        ],
{
}

/// Enter on a running timer changes nothing and asks for nothing, whenever it is
/// pressed; the start that the first Enter set stays.
pub proof fn lemma_enter_starts_once(pre: SharedDataView, first: Timestamp, again: Timestamp)
    ensures
        pre.times is Some ==> state_after_key(pre, Key::Enter, again) == pre && actions_after_key(
            pre,
            Key::Enter,
            again,
        ) == Seq::<PanelActionView>::empty(),
        state_after_key(state_after_key(pre, Key::Enter, first), Key::Enter, again)
            == state_after_key(pre, Key::Enter, first),
        pre.times is None ==> state_after_key(pre, Key::Enter, first).times->0.start == first,
{
}

/// Plus and then minus, pressed at any two times, give back the state one began with.
pub proof fn lemma_plus_then_minus(pre: SharedDataView, first: Timestamp, second: Timestamp)
    requires
        pre.wf(),
        key_admissible(pre, Key::Char(KEY_MORE_TIME), first),
    ensures
        key_admissible(
            state_after_key(pre, Key::Char(KEY_MORE_TIME), first),
            Key::Char(KEY_LESS_TIME),
            second,
        ),
        state_after_key(
            state_after_key(pre, Key::Char(KEY_MORE_TIME), first),
            Key::Char(KEY_LESS_TIME),
            second,
        ) == pre,
{
}

} // verus!
