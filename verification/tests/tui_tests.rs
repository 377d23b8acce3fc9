use pp_klausur_manager::address::Ipv4;
use pp_klausur_manager::client::Client;
use pp_klausur_manager::clock::{divide_truncating, seconds_between, Timestamp};
use pp_klausur_manager::input_parser::{Config, SymlinkInfo};
use pp_klausur_manager::shared_data::{ExamTimes, SharedData};
use pp_klausur_manager::symlinks::update_symlink_status;
use pp_klausur_manager::text::{
    append_decimal, append_decimal_digits, append_decimal_width2, decimal_string, try_pad_string,
};
use pp_klausur_manager::timing_webserver::handle_request;
use pp_klausur_manager::tui::{
    render_client_row, render_clients, render_clients_now, render_nonclient_row, render_span,
    render_status, render_status_now, render_symlinks, App, Key,
};
use pp_klausur_manager::nonclient_timeraccess::NonclientTimerAccess;

fn table_config(show_nonclients: bool) -> Config {
    Config {
        timer_port: 8080,
        timer_duration_minutes: 90,
        timer_webpage_refresh_seconds: 30,
        timer_webpage_refresh_unstarted_seconds: 5,
        timer_allow_nonclient_access: false,
        kanata_client_scan_interval_seconds: 10,
        kanata_tcp_timeout_ms: 500,
        kanata_port: 4000,
        tui_show_nonclient_timer_accesses: show_nonclients,
        rooms: vec![],
    }
}

fn table_links() -> SymlinkInfo {
    SymlinkInfo {
        symlink_path: "/srv/task".to_string(),
        dummy_target: "/srv/dummy.pdf".to_string(),
        real_target: "/srv/real.pdf".to_string(),
    }
}

fn moment(secs: i64, nanos: u32) -> Timestamp {
    Timestamp { secs, nanos }
}

#[test]
fn decimal_numerals() {
    assert_eq!(decimal_string(0), "0");
    assert_eq!(decimal_string(7), "7");
    assert_eq!(decimal_string(10), "10");
    assert_eq!(decimal_string(-1), "-1");
    assert_eq!(decimal_string(1_700_005_400), "1700005400");
    assert_eq!(decimal_string(i64::MIN as i128), i64::MIN.to_string());
    assert_eq!(decimal_string(i128::MAX), i128::MAX.to_string());
    assert_eq!(decimal_string(i128::MIN), i128::MIN.to_string());
    let mut text = "n=".to_string();
    append_decimal(&mut text, -305);
    append_decimal_digits(&mut text, u128::MAX);
    assert_eq!(text, format!("n=-305{}", u128::MAX));
}

#[test]
fn two_place_numerals() {
    let width2 = |v: i128| {
        let mut s = String::new();
        append_decimal_width2(&mut s, v);
        s
    };
    assert_eq!(width2(0), "00");
    assert_eq!(width2(5), "05");
    assert_eq!(width2(9), "09");
    assert_eq!(width2(10), "10");
    assert_eq!(width2(59), "59");
    assert_eq!(width2(123), "123");
    assert_eq!(width2(-5), "-5");
    assert_eq!(width2(-15), "-15");
    for v in [-120i64, -9, -1, 0, 1, 9, 10, 99, 100] {
        assert_eq!(width2(v as i128), format!("{:02}", v));
    }
}

#[test]
fn padding_fills_up_to_the_width() {
    assert_eq!(try_pad_string("ab".to_string(), ' ', 5), "ab   ");
    assert_eq!(try_pad_string("abcde".to_string(), ' ', 5), "abcde");
    assert_eq!(try_pad_string("abcdef".to_string(), ' ', 5), "abcdef");
    assert_eq!(try_pad_string(String::new(), '*', 3), "***");
    assert_eq!(try_pad_string("x".to_string(), '-', 0), "x");
    assert_eq!(try_pad_string("\u{e9}".to_string(), '.', 4), "\u{e9}..");
    assert_eq!(try_pad_string("a".to_string(), '\u{e9}', 3), "a\u{e9}\u{e9}");
}

#[test]
fn truncating_division() {
    assert_eq!(divide_truncating(125, 60), (2, 5));
    assert_eq!(divide_truncating(-125, 60), (-2, -5));
    assert_eq!(divide_truncating(59, 60), (0, 59));
    assert_eq!(divide_truncating(-59, 60), (0, -59));
    assert_eq!(divide_truncating(0, 60), (0, 0));
    assert_eq!(divide_truncating(120, 60), (2, 0));
    assert_eq!(divide_truncating(-120, 60), (-2, 0));
    for a in [-1_000_000_007i128, -61, -60, -1, 1, 60, 61, 999_999_999_999] {
        assert_eq!(divide_truncating(a, 1_000_000_000), (a / 1_000_000_000, a % 1_000_000_000));
    }
}

#[test]
fn whole_seconds_between_two_instants() {
    assert_eq!(seconds_between(moment(100, 0), moment(160, 0)), 60);
    assert_eq!(seconds_between(moment(100, 900_000_000), moment(101, 100_000_000)), 0);
    assert_eq!(seconds_between(moment(100, 900_000_000), moment(101, 900_000_000)), 1);
    assert_eq!(seconds_between(moment(101, 100_000_000), moment(100, 900_000_000)), 0);
    assert_eq!(seconds_between(moment(160, 0), moment(100, 1)), -59);
    assert_eq!(seconds_between(moment(160, 0), moment(100, 0)), -60);
    assert_eq!(
        seconds_between(moment(i64::MIN, 0), moment(i64::MAX, 999_999_999)),
        i64::MAX as i128 - i64::MIN as i128
    );
}

#[test]
fn key_press_as_of_now_starts_the_timer_at_the_system_time() {
    let mut app = App::new();
    let mut shared = SharedData::new(table_config(true), vec![], table_links(), None);
    let actions = app.handle_key_event_now(&mut shared, Key::Enter).expect("admissible");
    assert_eq!(actions.len(), 2);
    let times = shared.times.expect("started");
    assert!(times.start.nanos < 1_000_000_000);
    assert!(times.start.secs > 1_600_000_000);
    assert_eq!(times.duration_minutes, 90);
    let status = render_status_now(&shared).expect("running");
    assert_eq!(status.start, times.start);
    assert_eq!(status.duration, "90min");
    assert!(status.time_left == "90:00min" || status.time_left.starts_with("89:"));
    let mut far = SharedData::new(table_config(true), vec![], table_links(), None);
    far.config.timer_duration_minutes = i64::MAX;
    assert!(app.handle_key_event_now(&mut far, Key::Enter).is_none());
    assert_eq!(far.times, None);
    assert!(render_status_now(&far).is_none());
}

#[test]
fn client_table_as_of_now_measures_from_the_system_time() {
    let mut shared = SharedData::new(
        table_config(true),
        vec![Client::new("A".to_string(), Ipv4::new(10, 0, 0, 1))],
        table_links(),
        None,
    );
    handle_request(&mut shared, "/", Some(Ipv4::new(10, 0, 0, 1)), moment(0, 0));
    let table = render_clients_now(&shared);
    assert_eq!(table.len(), 2);
    let minutes: i64 = table[1][3]
        .split(':')
        .next()
        .expect("minutes before the colon")
        .parse()
        .expect("a number");
    assert!(minutes > 1_600_000_000 / 60);
}

#[test]
fn instants_need_nanoseconds_below_one_second() {
    assert_eq!(Timestamp::new(5, 999_999_999), Some(moment(5, 999_999_999)));
    assert_eq!(Timestamp::new(5, 1_000_000_000), None);
    assert_eq!(Timestamp::new(-5, 0), Some(moment(-5, 0)));
}

#[test]
fn dotted_addresses() {
    assert_eq!(Ipv4::new(10, 0, 0, 1).to_text(), "10.0.0.1");
    assert_eq!(Ipv4::new(255, 255, 255, 255).to_text(), "255.255.255.255");
    assert_eq!(Ipv4::new(0, 0, 0, 0).to_text(), "0.0.0.0");
    assert_eq!(Ipv4::new(192, 168, 17, 203).to_text(), "192.168.17.203");
}

#[test]
fn time_spans_as_text() {
    assert_eq!(render_span(0), "0:00min");
    assert_eq!(render_span(5), "0:05min");
    assert_eq!(render_span(60), "1:00min");
    assert_eq!(render_span(125), "2:05min");
    assert_eq!(render_span(3600 * 3 + 59), "180:59min");
    assert_eq!(render_span(-5), "0:-5min");
    assert_eq!(render_span(-125), "-2:-5min");
}

#[test]
fn row_of_a_workstation() {
    let mut client = Client::new("pc1".to_string(), Ipv4::new(10, 0, 0, 1));
    assert_eq!(
        render_client_row(&client, moment(1000, 0)),
        vec!["  ---      ", "pc1       ", "10.0.0.1          ", " -"]
    );
    client.current_layer = Some("enabled".to_string());
    client.last_timer_access = Some(moment(1000, 0));
    assert_eq!(
        render_client_row(&client, moment(1125, 500_000_000)),
        vec!["enabled    ", "pc1       ", "10.0.0.1          ", "2:05min"]
    );
    client.current_layer = Some("a-very-long-layer".to_string());
    client.name = "workstation-17".to_string();
    assert_eq!(
        render_client_row(&client, moment(1000, 0)),
        vec!["a-very-long-layer", "workstation-17", "10.0.0.1          ", "0:00min"]
    );
}

#[test]
fn row_of_a_journal_entry() {
    let entry = NonclientTimerAccess::new(Ipv4::new(172, 16, 254, 254), moment(50, 0));
    assert_eq!(
        render_nonclient_row(&entry, moment(50 + 61, 0)),
        vec!["                     ", "172.16.254.254    ", "1:01min"]
    );
}

#[test]
fn client_table_with_and_without_the_journal() {
    let build = |show: bool| {
        let mut shared = SharedData::new(
            table_config(show),
            vec![
                Client::new("A".to_string(), Ipv4::new(10, 0, 0, 1)),
                Client::new("B".to_string(), Ipv4::new(10, 0, 0, 2)),
            ],
            table_links(),
            None,
        );
        handle_request(&mut shared, "/", Some(Ipv4::new(10, 0, 0, 2)), moment(940, 0));
        handle_request(&mut shared, "/", Some(Ipv4::new(8, 8, 8, 8)), moment(990, 0));
        shared.clients[0].current_layer = Some("disabled".to_string());
        shared
    };
    let header = vec!["kbd layer  name      IP address       time since timer request".to_string()];
    let row_a = vec!["disabled   ", "A         ", "10.0.0.1          ", " -"];
    let row_b = vec!["  ---      ", "B         ", "10.0.0.2          ", "1:00min"];
    let stranger = vec!["                     ", "8.8.8.8           ", "0:10min"];
    let with = render_clients(&build(true), moment(1000, 0));
    assert_eq!(with.len(), 4);
    assert_eq!(with[0], header);
    assert_eq!(with[1], row_a);
    assert_eq!(with[2], row_b);
    assert_eq!(with[3], stranger);
    let without = render_clients(&build(false), moment(1000, 0));
    assert_eq!(without.len(), 3);
    assert_eq!(without[0], header);
    assert_eq!(without[1], row_a);
    assert_eq!(without[2], row_b);
}

#[test]
fn timer_line_of_a_running_exam() {
    let times = ExamTimes::new(moment(1_700_000_000, 250_000_000), 90).expect("representable");
    let shared = SharedData::new(table_config(true), vec![], table_links(), Some(times));
    let status = render_status(&shared, moment(1_700_000_300, 250_000_000)).expect("running");
    assert_eq!(status.start, moment(1_700_000_000, 250_000_000));
    assert_eq!(status.finish, moment(1_700_005_400, 250_000_000));
    assert_eq!(status.duration, "90min");
    assert_eq!(status.time_left, "85:00min");
    let status = render_status(&shared, moment(1_700_000_300, 250_000_001)).expect("running");
    assert_eq!(status.time_left, "84:59min");
    let status = render_status(&shared, moment(1_700_005_395, 0)).expect("running");
    assert_eq!(status.time_left, "00:05min");
    let status = render_status(&shared, moment(1_700_005_400, 250_000_000)).expect("running");
    assert_eq!(status.time_left, "00:00min");
    let status = render_status(&shared, moment(1_700_005_465, 250_000_000)).expect("running");
    assert_eq!(status.time_left, "-1:-5min");
    let status = render_status(&shared, moment(1_700_005_400, 750_000_000)).expect("running");
    assert_eq!(status.time_left, "00:00min");
    let long = ExamTimes::new(moment(0, 0), 200).expect("representable");
    let shared = SharedData::new(table_config(true), vec![], table_links(), Some(long));
    let status = render_status(&shared, moment(0, 0)).expect("running");
    assert_eq!(status.duration, "200min");
    assert_eq!(status.time_left, "200:00min");
}

#[test]
fn timer_line_of_a_stopped_exam() {
    let shared = SharedData::new(table_config(true), vec![], table_links(), None);
    assert!(render_status(&shared, moment(1_700_000_000, 0)).is_none());
}

#[test]
fn symlink_line() {
    let mut shared = SharedData::new(table_config(true), vec![], table_links(), None);
    assert_eq!(render_symlinks(&shared), vec!["Symlink ", "/srv/task", " is not accessible"]);
    update_symlink_status(&mut shared, Some("/srv/dummy.pdf".to_string()));
    assert_eq!(render_symlinks(&shared), vec!["Currently pointing to ", "/srv/dummy.pdf"]);
}
