//! The configuration: ports, intervals and the rooms with their workstations.

use vstd::prelude::*;
use crate::address::Ipv4;
use crate::client::{Client, ClientView};

verus! {

/// Where the task description's symlink lives and what it may point at.
#[derive(Debug, Clone)]
pub struct SymlinkInfo {
    pub symlink_path: String,
    pub dummy_target: String,
    pub real_target: String,
}

/// The mathematical model of a [`SymlinkInfo`].
pub struct SymlinkInfoView {
    pub symlink_path: Seq<char>,
    pub dummy_target: Seq<char>,
    pub real_target: Seq<char>,
}

impl View for SymlinkInfo {
    type V = SymlinkInfoView;

    open spec fn view(&self) -> SymlinkInfoView {
        SymlinkInfoView {
            symlink_path: self.symlink_path@,
            dummy_target: self.dummy_target@,
            real_target: self.real_target@,
        }
    }
}

impl SymlinkInfo {
    /// A copy with the same three paths.
    pub fn duplicate(&self) -> (copy: SymlinkInfo)
        ensures
            copy@ == self@,
    {
        SymlinkInfo {
            symlink_path: self.symlink_path.clone(),
            dummy_target: self.dummy_target.clone(),
            real_target: self.real_target.clone(),
        }
    }
}

/// One exam room.
#[derive(Debug)]
pub struct Room {
    pub name: String,
    /// Suffix that turns a short host name into a resolvable one.
    pub domain: String,
    pub symlink_info: SymlinkInfo,
    /// Short host names of every machine in the room, the proctor's included.
    pub client_hostnames: Vec<String>,
    /// The proctor's machine, which is not managed.
    pub control_client: String,
}

/// The mathematical model of a [`Room`].
pub struct RoomView {
    pub name: Seq<char>,
    pub domain: Seq<char>,
    pub symlink_info: SymlinkInfoView,
    pub client_hostnames: Seq<Seq<char>>,
    pub control_client: Seq<char>,
}

impl View for Room {
    type V = RoomView;

    open spec fn view(&self) -> RoomView {
        RoomView {
            name: self.name@,
            domain: self.domain@,
            symlink_info: self.symlink_info@,
            client_hostnames: self.client_hostnames.deep_view(),
            control_client: self.control_client@,
        }
    }
}

impl DeepView for Room {
    type V = RoomView;

    open spec fn deep_view(&self) -> RoomView {
        self@
    }
}

/// Everything the operator configures.
#[derive(Debug)]
pub struct Config {
    pub timer_port: u16,
    pub timer_duration_minutes: i64,
    pub timer_webpage_refresh_seconds: u32,
    pub timer_webpage_refresh_unstarted_seconds: u32,
    pub timer_allow_nonclient_access: bool,
    pub kanata_client_scan_interval_seconds: u64,
    pub kanata_tcp_timeout_ms: u64,
    pub kanata_port: u16,
    pub tui_show_nonclient_timer_accesses: bool,
    pub rooms: Vec<Room>,
}

/// The mathematical model of a [`Config`].
pub struct ConfigView {
    pub timer_port: u16,
    pub timer_duration_minutes: i64,
    pub timer_webpage_refresh_seconds: u32,
    pub timer_webpage_refresh_unstarted_seconds: u32,
    pub timer_allow_nonclient_access: bool,
    pub kanata_client_scan_interval_seconds: u64,
    pub kanata_tcp_timeout_ms: u64,
    pub kanata_port: u16,
    pub tui_show_nonclient_timer_accesses: bool,
    pub rooms: Seq<RoomView>,
}

impl View for Config {
    type V = ConfigView;

    open spec fn view(&self) -> ConfigView {
        ConfigView {
            timer_port: self.timer_port,
            timer_duration_minutes: self.timer_duration_minutes,
            timer_webpage_refresh_seconds: self.timer_webpage_refresh_seconds,
            timer_webpage_refresh_unstarted_seconds: self.timer_webpage_refresh_unstarted_seconds,
            timer_allow_nonclient_access: self.timer_allow_nonclient_access,
            kanata_client_scan_interval_seconds: self.kanata_client_scan_interval_seconds,
            kanata_tcp_timeout_ms: self.kanata_tcp_timeout_ms,
            kanata_port: self.kanata_port,
            tui_show_nonclient_timer_accesses: self.tui_show_nonclient_timer_accesses,
            rooms: self.rooms.deep_view(),
        }
    }
}

/// The rooms called `name`, in configuration order.
pub open spec fn rooms_named(rooms: Seq<RoomView>, name: Seq<char>) -> Seq<RoomView> {
    rooms.filter(|room: RoomView| room.name == name)
}

/// The room called `name`, where exactly one room has that name.
pub open spec fn unique_room(rooms: Seq<RoomView>, name: Seq<char>) -> Option<RoomView> {
    let found = rooms_named(rooms, name);
    if found.len() == 1 {
        Some(found[0])
    } else {
        None
    }
}

/// The machines of a room that are managed: every host but the proctor's, in order.
pub open spec fn managed_hostnames(room: RoomView) -> Seq<Seq<char>> {
    room.client_hostnames.filter(|host: Seq<char>| host != room.control_client)
}

/// A room is well formed when the proctor's machine is one of its hosts.
pub open spec fn room_is_valid(room: RoomView) -> bool {
    room.client_hostnames.contains(room.control_client)
}

/// A configuration is accepted when every room is well formed.
pub open spec fn config_is_valid(config: ConfigView) -> bool {
    forall|i: int| 0 <= i < config.rooms.len() ==> room_is_valid(#[trigger] config.rooms[i])
}

/// The names of all rooms, in configuration order.
pub fn get_rooms(config: &Config) -> (names: Vec<&str>)
    ensures
        names@.len() == config@.rooms.len(),
        forall|i: int| 0 <= i < names@.len() ==> (#[trigger] names@[i])@ == config@.rooms[i].name,
{
    let mut names: Vec<&str> = Vec::new();
    let mut i: usize = 0;
    while i < config.rooms.len()
        invariant
            i <= config.rooms.len(),
            names@.len() == i,
            forall|j: int| 0 <= j < i ==> (#[trigger] names@[j])@ == config.rooms@[j].name@,
        decreases config.rooms.len() - i,
    {
        names.push(config.rooms[i].name.as_str());
        i = i + 1;
    }
    names
}

/// Whether some room is called `room_name`.
pub fn room_exists(room_name: &str, config: &Config) -> (found: bool)
    ensures
        found == (exists|i: int|
            0 <= i < config@.rooms.len() && (#[trigger] config@.rooms[i]).name == room_name@),
{
    let wanted = room_name.to_owned();
    let mut i: usize = 0;
    while i < config.rooms.len()
        invariant
            i <= config.rooms.len(),
            wanted@ == room_name@,
            forall|j: int| 0 <= j < i ==> (#[trigger] config@.rooms[j]).name != room_name@,
        decreases config.rooms.len() - i,
    {
        if config.rooms[i].name == wanted {
            assert(config@.rooms[i as int].name == room_name@);
            return true;
        }
        i = i + 1;
    }
    false
}

/// The position of the room called `room_name`, where exactly one room has that name.
pub fn find_unique_room(room_name: &str, config: &Config) -> (found: Option<usize>)
    ensures
        match found {
            Some(i) => i < config.rooms@.len() && unique_room(config@.rooms, room_name@) == Some(
                config@.rooms[i as int],
            ),
            None => unique_room(config@.rooms, room_name@) is None,
        },
{
    let wanted = room_name.to_owned();
    let mut first: Option<usize> = None;
    let mut count: usize = 0;
    let mut i: usize = 0;
    let ghost rooms = config@.rooms;
    let ghost pred = |room: RoomView| room.name == room_name@;
    proof {
        reveal(Seq::filter);
    }
    while i < config.rooms.len()
        invariant
            i <= config.rooms.len(),
            rooms == config@.rooms,
            rooms.len() == config.rooms@.len(),
            wanted@ == room_name@,
            pred == (|room: RoomView| room.name == room_name@),
            count == rooms.subrange(0, i as int).filter(pred).len(),
            count <= i,
            count >= 1 ==> first is Some && first->0 < i && rooms.subrange(0, i as int).filter(
                pred,
            )[0] == rooms[first->0 as int],
        decreases config.rooms.len() - i,
    {
        proof {
            reveal(Seq::filter);
            assert(rooms.subrange(0, i + 1).drop_last() =~= rooms.subrange(0, i as int));
        }
        if config.rooms[i].name == wanted {
            if count == 0 {
                first = Some(i);
            }
            count = count + 1;
        }
        i = i + 1;
    }
    proof {
        assert(rooms.subrange(0, i as int) =~= rooms);
    }
    if count == 1 {
        first
    } else {
        None
    }
}

/// The symlink settings of the room called `room_name`; `None` unless exactly one room
/// has that name.
pub fn get_symlink_info_of_room(room_name: &str, config: &Config) -> (info: Option<SymlinkInfo>)
    ensures
        match unique_room(config@.rooms, room_name@) {
            Some(room) => info is Some && info->0@ == room.symlink_info,
            None => info is None,
        },
{
    match find_unique_room(room_name, config) {
        Some(i) => Some(config.rooms[i].symlink_info.duplicate()),
        None => None,
    }
}

/// The name under which a managed machine is looked up: its short name and the
/// room's domain.
pub open spec fn lookup_name(room: RoomView, host: Seq<char>) -> Seq<char> {
    host + room.domain
}

/// The roster of a room once its managed machines have been looked up: one client for
/// each machine, in order, unless a lookup is missing or found no IPv4 address.
pub open spec fn roster_of(room: RoomView, resolved: Seq<Option<Ipv4>>) -> Option<Seq<ClientView>> {
    let hosts = managed_hostnames(room);
    if hosts.len() == resolved.len() && (forall|i: int|
        0 <= i < resolved.len() ==> (#[trigger] resolved[i]) is Some) {
        Some(
            Seq::new(
                hosts.len(),
                |i: int|
                    ClientView {
                        name: hosts[i],
                        ip_address: resolved[i]->0,
                        current_layer: None,
                        last_timer_access: None,
                    },
            ),
        )
    } else {
        None
    }
}

/// The short names of the managed machines of `room`.
pub fn managed_hosts(room: &Room) -> (hosts: Vec<String>)
    ensures
        hosts.deep_view() == managed_hostnames(room@),
{
    let mut hosts: Vec<String> = Vec::new();
    let mut i: usize = 0;
    let ghost all = room@.client_hostnames;
    let ghost pred = |host: Seq<char>| host != room@.control_client;
    proof {
        reveal(Seq::filter);
    }
    while i < room.client_hostnames.len()
        invariant
            i <= room.client_hostnames.len(),
            all == room@.client_hostnames,
            all.len() == room.client_hostnames@.len(),
            pred == (|host: Seq<char>| host != room@.control_client),
            hosts.deep_view() == all.subrange(0, i as int).filter(pred),
        decreases room.client_hostnames.len() - i,
    {
        proof {
            reveal(Seq::filter);
            assert(all.subrange(0, i + 1).drop_last() =~= all.subrange(0, i as int));
        }
        if room.client_hostnames[i] != room.control_client {
            hosts.push(room.client_hostnames[i].clone());
        }
        i = i + 1;
    }
    proof {
        assert(all.subrange(0, i as int) =~= all);
    }
    hosts
}

/// The names to look up for the room called `room_name`, one for each managed machine,
/// in order; `None` unless exactly one room has that name.
pub fn hostnames_to_resolve(room_name: &str, config: &Config) -> (names: Option<Vec<String>>)
    ensures
        match unique_room(config@.rooms, room_name@) {
            Some(room) => names is Some && names->0.deep_view() == managed_hostnames(room).map_values(
                |host: Seq<char>| lookup_name(room, host),
            ),
            None => names is None,
        },
{
    match find_unique_room(room_name, config) {
        Some(r) => {
            let room = &config.rooms[r];
            let hosts = managed_hosts(room);
            let mut names: Vec<String> = Vec::new();
            let mut i: usize = 0;
            while i < hosts.len()
                invariant
                    i <= hosts.len(),
                    names@.len() == i,
                    forall|j: int|
                        0 <= j < i ==> (#[trigger] names@[j])@ == lookup_name(room@, hosts@[j]@),
                decreases hosts.len() - i,
            {
                let name = hosts[i].clone().concat(room.domain.as_str());
                names.push(name);
                i = i + 1;
            }
            Some(names)
        },
        None => None,
    }
}

/// The roster of the room called `room_name`, given the address found for each name of
/// [`hostnames_to_resolve`], in the same order. `None` unless exactly one room has that
/// name, every managed machine has an entry in `resolved`, and every entry holds an
/// address.
pub fn get_ip_addresses_of_room(
    room_name: &str,
    config: &Config,
    resolved: &Vec<Option<Ipv4>>,
) -> (clients: Option<Vec<Client>>)
    ensures
        match unique_room(config@.rooms, room_name@) {
            Some(room) => match roster_of(room, resolved@) {
                Some(roster) => clients is Some && clients->0.deep_view() == roster,
                None => clients is None,
            },
            None => clients is None,
        },
{
    match find_unique_room(room_name, config) {
        Some(r) => {
            let room = &config.rooms[r];
            let hosts = managed_hosts(room);
            if hosts.len() != resolved.len() {
                return None;
            }
            let mut clients: Vec<Client> = Vec::new();
            let mut i: usize = 0;
            while i < hosts.len()
                invariant
                    i <= hosts.len(),
                    hosts@.len() == resolved@.len(),
                    clients@.len() == i,
                    forall|j: int| 0 <= j < i ==> (#[trigger] resolved@[j]) is Some,
                    forall|j: int|
                        0 <= j < i ==> (#[trigger] clients@[j])@ == (ClientView {
                            name: hosts@[j]@,
                            ip_address: resolved@[j]->0,
                            current_layer: None,
                            last_timer_access: None,
                        }),
                decreases hosts.len() - i,
            {
                match resolved[i] {
                    Some(ip) => {
                        clients.push(Client::new(hosts[i].clone(), ip));
                    },
                    None => {
                        return None;
                    },
                }
                i = i + 1;
            }
            Some(clients)
        },
        None => None,
    }
}

/// The first IPv4 address among the results of a lookup, where an entry of `None`
/// stands for an address of another family.
pub fn resolve_ipv4_addr(addresses: &Vec<Option<Ipv4>>) -> (ip: Option<Ipv4>)
    ensures
        match ip {
            Some(found) => exists|i: int|
                0 <= i < addresses@.len() && addresses@[i] == Some(found) && forall|j: int|
                    0 <= j < i ==> (#[trigger] addresses@[j]) is None,
            None => forall|i: int| 0 <= i < addresses@.len() ==> (#[trigger] addresses@[i]) is None,
        },
{
    let mut i: usize = 0;
    while i < addresses.len()
        invariant
            i <= addresses.len(),
            forall|j: int| 0 <= j < i ==> (#[trigger] addresses@[j]) is None,
        decreases addresses.len() - i,
    {
        match addresses[i] {
            Some(found) => {
                return Some(found);
            },
            None => {},
        }
        i = i + 1;
    }
    None
}

/// Accepts a configuration in which the proctor's machine of every room is listed among
/// that room's hosts, and rejects any other.
pub fn parse_config(config: Config) -> (accepted: Option<Config>)
    ensures
        accepted == (if config_is_valid(config@) {
            Some(config)
        } else {
            None
        }),
{
    let mut i: usize = 0;
    while i < config.rooms.len()
        invariant
            i <= config.rooms.len(),
            forall|j: int| 0 <= j < i ==> room_is_valid(#[trigger] config@.rooms[j]),
        decreases config.rooms.len() - i,
    {
        let room = &config.rooms[i];
        let mut listed = false;
        let mut k: usize = 0;
        while k < room.client_hostnames.len()
            invariant
                k <= room.client_hostnames.len(),
                !listed ==> forall|j: int|
                    0 <= j < k ==> (#[trigger] room.client_hostnames@[j])@ != room.control_client@,
                listed ==> room_is_valid(room@),
            decreases room.client_hostnames.len() - k,
        {
            if room.client_hostnames[k] == room.control_client {
                listed = true;
                proof {
                    assert(room@.client_hostnames[k as int] == room.control_client@);
                }
            }
            k = k + 1;
        }
        if !listed {
            proof {
                assert(config@.rooms[i as int] == room@);
            }
            return None;
        }
        i = i + 1;
    }
    Some(config)
}

/// The room that stands for none and is left out of listings.
pub const DUMMY_ROOM: &'static str = "dummy";

/// Stands between two rooms of a listing.
pub const ROOM_SEPARATOR: &'static str = ", ";

/// What a listing of rooms starts with.
pub const ROOMS_PREFIX: &'static str = "Available rooms are: [";

/// What a listing of rooms ends with.
pub const ROOMS_SUFFIX: &'static str = "]";

/// How the program is called.
pub const USAGE: &'static str = "Usage: pp_klausur_manager <room>";

/// The port that is appended to a host name to look it up.
pub const LOOKUP_PORT_SUFFIX: &'static str = ":80";

/// The texts of `items` with `separator` between each two.
pub open spec fn joined(items: Seq<Seq<char>>, separator: Seq<char>) -> Seq<char>
    decreases items.len(),
{
    if items.len() == 0 {
        Seq::empty()
    } else if items.len() == 1 {
        items[0]
    } else {
        joined(items.drop_last(), separator) + separator + items.last()
    }
}

/// The names of the rooms that a listing shows: all but the dummy, in order.
pub open spec fn listed_rooms(rooms: Seq<RoomView>) -> Seq<Seq<char>> {
    rooms.map_values(|room: RoomView| room.name).filter(|name: Seq<char>| name != DUMMY_ROOM@)
}

/// The line that lists the rooms one can choose from.
pub open spec fn rooms_line(config: ConfigView) -> Seq<char> {
    ROOMS_PREFIX@ + joined(listed_rooms(config.rooms), ROOM_SEPARATOR@) + ROOMS_SUFFIX@
}

/// Renders [`rooms_line`].
pub fn print_available_rooms(config: &Config) -> (line: String)
    ensures
        line@ == rooms_line(config@),
{
    let dummy = String::from_str(DUMMY_ROOM);
    let mut line = String::from_str(ROOMS_PREFIX);
    let mut shown: usize = 0;
    let mut i: usize = 0;
    let ghost names = config@.rooms.map_values(|room: RoomView| room.name);
    let ghost pred = |name: Seq<char>| name != DUMMY_ROOM@;
    proof {
        reveal(Seq::filter);
    }
    while i < config.rooms.len()
        invariant
            i <= config.rooms.len(),
            dummy@ == DUMMY_ROOM@,
            names == config@.rooms.map_values(|room: RoomView| room.name),
            names.len() == config.rooms@.len(),
            pred == (|name: Seq<char>| name != DUMMY_ROOM@),
            shown == names.subrange(0, i as int).filter(pred).len(),
            shown <= i,
            line@ == ROOMS_PREFIX@ + joined(names.subrange(0, i as int).filter(pred), ROOM_SEPARATOR@),
        decreases config.rooms.len() - i,
    {
        let ghost before = names.subrange(0, i as int).filter(pred);
        proof {
            reveal(Seq::filter);
            assert(names.subrange(0, i + 1).drop_last() =~= names.subrange(0, i as int));
        }
        if config.rooms[i].name != dummy {
            let ghost after = before.push(names[i as int]);
            proof {
                assert(after.drop_last() =~= before);
            }
            if shown > 0 {
                line.append(ROOM_SEPARATOR);
            }
            line.append(config.rooms[i].name.as_str());
            shown = shown + 1;
        }
        i = i + 1;
    }
    proof {
        assert(names.subrange(0, i as int) =~= names);
    }
    line.append(ROOMS_SUFFIX);
    line
}

/// The usage line and, behind a line break, the listing of rooms.
pub fn print_usage(config: &Config) -> (text: String)
    ensures
        text@ == USAGE@ + seq!['\n'] + rooms_line(config@),
{
    let mut text = String::from_str(USAGE);
    crate::text::push_char(&mut text, '\n');
    let line = print_available_rooms(config);
    text.append(line.as_str());
    text
}

/// The text under which the addresses of `hostname` are looked up.
pub fn socket_lookup_name(hostname: &str) -> (name: String)
    ensures
        name@ == hostname@ + LOOKUP_PORT_SUFFIX@,
{
    let mut name = String::from_str(hostname);
    name.append(LOOKUP_PORT_SUFFIX);
    name
}

/// What the program does with its arguments.
#[derive(Clone, Copy, Debug, PartialEq, Eq, Structural)]
pub enum Launch {
    /// Print the usage and end with success.
    ShowUsage,
    /// Print the rooms and end with failure: the room asked for does not exist.
    UnknownRoom,
    /// Manage the room that the one argument names.
    Run,
}

/// The short flag that asks for the usage.
pub const HELP_SHORT: &'static str = "-h";

/// The long flag that asks for the usage.
pub const HELP_LONG: &'static str = "--help";

/// What to do with the arguments, the program's own name first. Anything but exactly
/// one argument, and either help flag, asks for the usage; the name of a room that
/// exists starts the program; any other name is refused.
pub open spec fn launch_for(args: Seq<Seq<char>>, config: ConfigView) -> Launch {
    if args.len() != 2 || args[1] == HELP_SHORT@ || args[1] == HELP_LONG@ {
        Launch::ShowUsage
    } else if exists|i: int| 0 <= i < config.rooms.len() && (#[trigger] config.rooms[i]).name == args[1] {
        Launch::Run
    } else {
        Launch::UnknownRoom
    }
}

/// Decides what to do with the arguments.
pub fn launch(args: &Vec<String>, config: &Config) -> (decision: Launch)
    ensures
        decision == launch_for(args.deep_view(), config@),
{
    if args.len() != 2 {
        return Launch::ShowUsage;
    }
    if args[1] == String::from_str(HELP_SHORT) || args[1] == String::from_str(HELP_LONG) {
        Launch::ShowUsage
    } else if room_exists(args[1].as_str(), config) {
        Launch::Run
    } else {
        Launch::UnknownRoom
    }
}

} // verus!
