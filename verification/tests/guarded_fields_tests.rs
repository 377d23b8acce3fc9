use pp_klausur_manager::address::Ipv4;
use pp_klausur_manager::client::Client;
use pp_klausur_manager::clock::Timestamp;
use pp_klausur_manager::input_parser::{Config, SymlinkInfo};
use pp_klausur_manager::kanata_tcp::{orders_for, queries_for, store_query_outcome, LayerQuery};
use pp_klausur_manager::nonclient_timeraccess::NonclientTimerAccess;
use pp_klausur_manager::persistance::SaveState;
use pp_klausur_manager::shared_data::{client_addresses, ExamTimes, SharedData};
use pp_klausur_manager::symlinks::{lock_target, unlock_target};
use pp_klausur_manager::timing_webserver::{
    handle_request, plan_request, plan_request_now, reply_to, touch_journal, AccessPlan,
};
use pp_klausur_manager::tui::{
    render_clients, render_status, render_symlink_line, render_table, render_table_now,
    render_timer, render_timer_now, App, Key, PanelAction,
};

fn piece_config(allow_nonclients: bool) -> Config {
    Config {
        timer_port: 8080,
        timer_duration_minutes: 90,
        timer_webpage_refresh_seconds: 30,
        timer_webpage_refresh_unstarted_seconds: 5,
        timer_allow_nonclient_access: allow_nonclients,
        kanata_client_scan_interval_seconds: 10,
        kanata_tcp_timeout_ms: 500,
        kanata_port: 4000,
        tui_show_nonclient_timer_accesses: true,
        rooms: vec![],
    }
}

fn piece_links() -> SymlinkInfo {
    SymlinkInfo {
        symlink_path: "/srv/task".to_string(),
        dummy_target: "/srv/dummy.pdf".to_string(),
        real_target: "/srv/real.pdf".to_string(),
    }
}

fn piece_roster() -> Vec<Client> {
    vec![
        Client::new("A".to_string(), Ipv4::new(10, 0, 0, 1)),
        Client::new("B".to_string(), Ipv4::new(10, 0, 0, 2)),
        Client::new("A2".to_string(), Ipv4::new(10, 0, 0, 1)),
    ]
}

fn tick(secs: i64) -> Timestamp {
    Timestamp { secs, nanos: 0 }
}

/// Carries a plan out the way a holder with one guard per field does.
fn carry_out(
    plan: &AccessPlan,
    clients: &mut Vec<Client>,
    nonclients: &mut Vec<NonclientTimerAccess>,
) {
    assert_eq!(plan.touch.len(), clients.len());
    for (client, touch) in clients.iter_mut().zip(&plan.touch) {
        if *touch {
            client.last_timer_access = Some(plan.at);
        }
    }
    if let Some(ip) = plan.journal {
        touch_journal(nonclients, ip, plan.at);
    }
}

#[test]
fn roster_addresses_in_order() {
    assert_eq!(
        client_addresses(&piece_roster()),
        vec![Ipv4::new(10, 0, 0, 1), Ipv4::new(10, 0, 0, 2), Ipv4::new(10, 0, 0, 1)]
    );
    assert_eq!(client_addresses(&vec![]), Vec::<Ipv4>::new());
}

#[test]
fn plan_for_a_workstation_marks_every_one_with_that_address() {
    let addresses = client_addresses(&piece_roster());
    let plan = plan_request(&addresses, "/", Some(Ipv4::new(10, 0, 0, 1)), tick(50));
    assert!(plan.served);
    assert!(plan.known);
    assert_eq!(plan.touch, vec![true, false, true]);
    assert_eq!(plan.journal, None);
    assert_eq!(plan.at, tick(50));
}

#[test]
fn plan_for_a_stranger_journals_the_address() {
    let addresses = client_addresses(&piece_roster());
    let stranger = Ipv4::new(172, 16, 0, 9);
    let plan = plan_request(&addresses, "/", Some(stranger), tick(51));
    assert!(plan.served);
    assert!(!plan.known);
    assert_eq!(plan.touch, vec![false, false, false]);
    assert_eq!(plan.journal, Some(stranger));
    assert_eq!(plan.at, tick(51));
    let empty = plan_request(&vec![], "/", Some(stranger), tick(52));
    assert!(empty.touch.is_empty());
    assert_eq!(empty.journal, Some(stranger));
}

#[test]
fn plan_without_an_address_or_for_another_path_records_nothing() {
    let addresses = client_addresses(&piece_roster());
    let nobody = plan_request(&addresses, "/", None, tick(1));
    assert!(nobody.served);
    assert!(!nobody.known);
    assert_eq!(nobody.touch, vec![false, false, false]);
    assert_eq!(nobody.journal, None);
    let elsewhere = plan_request(&addresses, "/index.html", Some(Ipv4::new(10, 0, 0, 2)), tick(1));
    assert!(!elsewhere.served);
    assert!(elsewhere.known);
    assert_eq!(elsewhere.touch, vec![false, false, false]);
    assert_eq!(elsewhere.journal, None);
    let stray = plan_request(&addresses, "", Some(Ipv4::new(9, 9, 9, 9)), tick(1));
    assert!(!stray.served);
    assert!(!stray.known);
    assert_eq!(stray.journal, None);
}

#[test]
fn carrying_a_plan_out_field_by_field_equals_the_request_as_a_whole() {
    let callers = [
        Some(Ipv4::new(10, 0, 0, 1)),
        Some(Ipv4::new(10, 0, 0, 2)),
        Some(Ipv4::new(172, 16, 0, 9)),
        Some(Ipv4::new(172, 16, 0, 10)),
        None,
    ];
    for allow in [false, true] {
        for times in [None, ExamTimes::new(tick(1_700_000_000), 90)] {
            let mut whole = SharedData::new(piece_config(allow), piece_roster(), piece_links(), times);
            let config = piece_config(allow);
            let mut clients = piece_roster();
            let mut nonclients: Vec<NonclientTimerAccess> = Vec::new();
            let addresses = client_addresses(&clients);
            let mut step = 0;
            for round in 0..3 {
                for url in ["/", "/other"] {
                    for caller in callers {
                        step += 1;
                        let now = tick(1_700_000_000 + 10 * step + round);
                        let expected = handle_request(&mut whole, url, caller, now);
                        let plan = plan_request(&addresses, url, caller, now);
                        carry_out(&plan, &mut clients, &mut nonclients);
                        let reply = reply_to(&plan, &config, &times);
                        assert_eq!(reply.status, expected.status);
                        assert_eq!(reply.content_type, expected.content_type);
                        assert_eq!(reply.body, expected.body);
                        assert_eq!(nonclients, whole.nonclients);
                        for (mine, theirs) in clients.iter().zip(&whole.clients) {
                            assert_eq!(mine.last_timer_access, theirs.last_timer_access);
                            assert_eq!(mine.ip_address, theirs.ip_address);
                        }
                    }
                }
            }
            assert_eq!(nonclients.len(), 2);
            assert!(whole.is_well_formed());
        }
    }
}

#[test]
fn plan_as_of_now_carries_the_system_time() {
    let addresses = client_addresses(&piece_roster());
    let plan = plan_request_now(&addresses, "/", Some(Ipv4::new(10, 0, 0, 2)));
    assert!(plan.served);
    assert!(plan.known);
    assert_eq!(plan.touch, vec![false, true, false]);
    assert_eq!(plan.journal, None);
    assert!(plan.at.secs > 1_600_000_000);
    assert!(plan.at.nanos < 1_000_000_000);
}

#[test]
fn orders_and_queries_for_a_list_of_addresses() {
    let addresses = vec![Ipv4::new(10, 0, 0, 1), Ipv4::new(10, 0, 0, 2)];
    let orders = orders_for(&addresses, 4321, 750, "night");
    assert_eq!(orders.len(), 2);
    assert_eq!(orders[0].ip_address, Ipv4::new(10, 0, 0, 1));
    assert_eq!(orders[1].ip_address, Ipv4::new(10, 0, 0, 2));
    for order in &orders {
        assert_eq!(order.port, 4321);
        assert_eq!(order.timeout_ms, 750);
        assert_eq!(order.message, "{\"ChangeLayer\":{\"new\":\"night\"}}\n");
    }
    assert_eq!(
        queries_for(&addresses, 4321, 750),
        vec![
            LayerQuery { ip_address: Ipv4::new(10, 0, 0, 1), port: 4321, timeout_ms: 750 },
            LayerQuery { ip_address: Ipv4::new(10, 0, 0, 2), port: 4321, timeout_ms: 750 },
        ]
    );
    assert!(orders_for(&vec![], 1, 1, "x").is_empty());
    assert!(queries_for(&vec![], 1, 1).is_empty());
}

#[test]
fn symlink_targets_from_the_settings() {
    let unlock = unlock_target(&piece_links());
    assert_eq!(unlock.symlink_path, "/srv/task");
    assert_eq!(unlock.target, "/srv/real.pdf");
    let lock = lock_target(&piece_links());
    assert_eq!(lock.symlink_path, "/srv/task");
    assert_eq!(lock.target, "/srv/dummy.pdf");
}

#[test]
fn key_press_on_the_timer_alone() {
    let config = piece_config(false);
    let links = piece_links();
    let addresses = client_addresses(&piece_roster());
    let mut app = App::new();
    let mut times: Option<ExamTimes> = None;
    let start = tick(1_700_000_000);
    assert!(App::key_is_admissible_on(&times, 90, Key::Enter, start));
    let started = app.handle_key_on(&mut times, &config, &links, &addresses, Key::Enter, start);
    assert_eq!(times, Some(ExamTimes { start, duration_minutes: 90 }));
    assert_eq!(started.len(), 2);
    match &started[0] {
        PanelAction::SetSymlink(order) => assert_eq!(order.target, "/srv/real.pdf"),
        other => panic!("unexpected action {:?}", other),
    }
    match &started[1] {
        PanelAction::PersistTime(save) => {
            assert_eq!(*save, SaveState { start_time: start, duration_min: 90 })
        }
        other => panic!("unexpected action {:?}", other),
    }
    let later = tick(1_700_000_500);
    app.handle_key_on(&mut times, &config, &links, &addresses, Key::Char('-'), later);
    assert_eq!(times, Some(ExamTimes { start, duration_minutes: 89 }));
    let off = app.handle_key_on(&mut times, &config, &links, &addresses, Key::Char(' '), later);
    match &off[0] {
        PanelAction::ChangeLayers(orders) => {
            assert_eq!(orders.len(), 3);
            assert_eq!(orders[2].ip_address, Ipv4::new(10, 0, 0, 1));
            assert_eq!(orders[1].message, "{\"ChangeLayer\":{\"new\":\"disabled\"}}\n");
            assert_eq!(orders[1].port, 4000);
        }
        other => panic!("unexpected action {:?}", other),
    }
    assert!(!app.exit);
    let quit = app.handle_key_on(&mut times, &config, &links, &addresses, Key::Char('q'), later);
    assert_eq!(times, None);
    assert!(app.exit);
    assert_eq!(quit.len(), 1);
    assert!(matches!(quit[0], PanelAction::DeletePersistedTime));
}

#[test]
fn key_press_on_the_timer_as_of_now() {
    let config = piece_config(false);
    let links = piece_links();
    let addresses = client_addresses(&piece_roster());
    let mut app = App::new();
    let mut times: Option<ExamTimes> = None;
    let actions =
        app.handle_key_on_now(&mut times, &config, &links, &addresses, Key::Enter).expect("fits");
    assert_eq!(actions.len(), 2);
    let running = times.expect("started");
    assert!(running.start.secs > 1_600_000_000);
    assert_eq!(running.duration_minutes, 90);
    let mut edge = ExamTimes::new(tick(i64::MAX - 60), 1);
    assert!(edge.is_some());
    assert!(app.handle_key_on_now(&mut edge, &config, &links, &addresses, Key::Char('+')).is_none());
    assert_eq!(edge, ExamTimes::new(tick(i64::MAX - 60), 1));
    assert!(!App::key_is_admissible_on(&edge, 90, Key::Char('+'), tick(0)));
    assert!(App::key_is_admissible_on(&edge, 90, Key::Char('-'), tick(0)));
    assert!(!App::key_is_admissible_on(&None, i64::MAX, Key::Enter, tick(0)));
    let status = render_timer_now(&times).expect("running");
    assert_eq!(status.start, running.start);
    assert_eq!(status.duration, "90min");
    assert!(render_timer_now(&None).is_none());
}

#[test]
fn lines_from_the_fields_equal_lines_from_the_state() {
    let times = ExamTimes::new(tick(1_700_000_000), 90);
    let mut whole = SharedData::new(piece_config(false), piece_roster(), piece_links(), times);
    handle_request(&mut whole, "/", Some(Ipv4::new(10, 0, 0, 2)), tick(1_700_000_100));
    handle_request(&mut whole, "/", Some(Ipv4::new(8, 8, 8, 8)), tick(1_700_000_200));
    whole.clients[0].current_layer = Some("enabled".to_string());
    let now = tick(1_700_000_300);
    for show in [true, false] {
        whole.config.tui_show_nonclient_timer_accesses = show;
        let table = render_table(&whole.clients, &whole.nonclients, show, now);
        assert_eq!(table, render_clients(&whole, now));
        assert_eq!(table.len(), if show { 5 } else { 4 });
        assert_eq!(table[2], vec!["  ---      ", "B         ", "10.0.0.2          ", "3:20min"]);
    }
    let as_of_now = render_table_now(&whole.clients, &whole.nonclients, true);
    assert_eq!(as_of_now.len(), 5);
    assert_eq!(as_of_now[1][0], "enabled    ");
    let status = render_timer(&whole.times, now).expect("running");
    let expected = render_status(&whole, now).expect("running");
    assert_eq!(status.time_left, "85:00min");
    assert_eq!(status.time_left, expected.time_left);
    assert_eq!(status.duration, expected.duration);
    assert_eq!(status.finish, expected.finish);
    assert_eq!(
        render_symlink_line(&None, &piece_links()),
        vec!["Symlink ", "/srv/task", " is not accessible"]
    );
    assert_eq!(
        render_symlink_line(&Some("/srv/real.pdf".to_string()), &piece_links()),
        vec!["Currently pointing to ", "/srv/real.pdf"]
    );
}

#[test]
fn stored_outcome_replaces_what_was_observed() {
    let mut observed: Option<String> = None;
    store_query_outcome(&mut observed, None);
    assert_eq!(observed, None);
    store_query_outcome(&mut observed, Some("enabled".to_string()));
    assert_eq!(observed, Some("enabled".to_string()));
    store_query_outcome(&mut observed, Some("disabled".to_string()));
    assert_eq!(observed, Some("disabled".to_string()));
    store_query_outcome(&mut observed, None);
    assert_eq!(observed, None);
}
