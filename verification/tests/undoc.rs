use govee_ble::undoc::{devices_of_sku, find_item, Action, Event, SubCommand, UndocError};
use govee_ble::UndocCommand;

fn command(cmd: SubCommand) -> UndocCommand {
    UndocCommand { cmd }
}

/// Feeds the events to the command and collects the actions.
fn run(cmd: SubCommand, events: Vec<Event>) -> Vec<Action> {
    let command = command(cmd);
    let mut actions = vec![command.first_action()];
    for event in events {
        let next = command.next_action(actions.last().unwrap(), &event);
        actions.push(next);
    }
    actions
}

fn names(names: &[&str]) -> Event {
    Event::Items {
        names: names.iter().map(|name| name.to_string()).collect(),
    }
}

#[test]
fn one_clicks_are_dumped() {
    assert_eq!(
        run(SubCommand::DumpOneClick, vec![Event::Done; 4]),
        vec![
            Action::MakeClient,
            Action::LoginCommunity,
            Action::FetchOneClicks,
            Action::PrintOneClicks,
            Action::Finish
        ]
    );
}

#[test]
fn one_click_items_are_shown() {
    assert_eq!(
        run(
            SubCommand::ShowOneClick,
            vec![Event::Done, names(&["a"]), Event::Done]
        ),
        vec![
            Action::MakeClient,
            Action::ParseOneClicks,
            Action::PrintItems,
            Action::Finish
        ]
    );
}

#[test]
fn the_first_item_of_the_name_is_activated() {
    let cmd = SubCommand::OneClick {
        name: "b".to_string(),
    };
    assert_eq!(
        run(
            cmd.clone(),
            vec![
                Event::Done,
                names(&["a", "b", "b"]),
                Event::Done,
                Event::Done
            ]
        ),
        vec![
            Action::MakeClient,
            Action::ParseOneClicks,
            Action::StartIot { item: 1 },
            Action::ActivateOneClick { item: 1 },
            Action::Finish
        ]
    );
    let error = UndocError::NotFound {
        name: "b".to_string(),
    };
    assert_eq!(error.message(), "didn't find item b");
    assert_eq!(
        run(cmd, vec![Event::Done, names(&["a", "c"])]).pop(),
        Some(Action::Fail { error })
    );
}

#[test]
fn devices_are_dumped_by_sku() {
    let skus = vec![Some("H7180".to_string()), None, Some("H7160".to_string())];
    let events = vec![
        Event::Done,
        Event::Done,
        Event::Done,
        Event::Devices {
            skus: Some(skus.clone()),
        },
        Event::Done,
        Event::Done,
    ];
    let sku = Some("H7160".to_string());
    assert_eq!(
        run(SubCommand::DumpDevices { sku: sku.clone() }, events.clone()),
        vec![
            Action::MakeClient,
            Action::LoginAccountCached,
            Action::FetchDevices,
            Action::RedactDevices,
            Action::KeepDevices {
                keep: vec![false, false, true]
            },
            Action::PrintDevices,
            Action::Finish
        ]
    );
    let all = run(SubCommand::DumpDevices { sku: None }, events[..5].to_vec());
    assert_eq!(all[4..], [Action::PrintDevices, Action::Finish]);
    let none = vec![
        Event::Done,
        Event::Done,
        Event::Done,
        Event::Devices { skus: None },
    ];
    assert_eq!(
        run(SubCommand::DumpDevices { sku }, none).pop(),
        Some(Action::PrintDevices)
    );
}

#[test]
fn logins_are_probed() {
    let cmd = SubCommand::Live2faLogin;
    assert_eq!(
        run(cmd.clone(), vec![Event::Done; 3]),
        vec![
            Action::MakeClient,
            Action::LoginAccount,
            Action::PrintLine {
                line: r#"{"schema":1,"outcome":"login_ok"}"#.to_string()
            },
            Action::Finish
        ]
    );
    let refused = |two_factor| vec![Event::Done, Event::LoginRefused { two_factor }, Event::Done];
    assert_eq!(
        run(cmd.clone(), refused(true))[2..],
        [Action::PrintTwoFactor, Action::Finish]
    );
    assert_eq!(
        run(cmd, refused(false))[2..],
        [
            Action::PrintLineAndFail {
                line: r#"{"schema":1,"outcome":"unexpected_error"}"#.to_string()
            },
            Action::Fail {
                error: UndocError::Probe
            }
        ]
    );
    assert_eq!(
        UndocError::Probe.message(),
        "live 2FA probe failed; upstream details were intentionally redacted"
    );
}

#[test]
fn failures_end_the_run() {
    let fail = Action::Fail {
        error: UndocError::Action,
    };
    for cmd in [
        SubCommand::DumpOneClick,
        SubCommand::DumpDevices { sku: None },
        SubCommand::Live2faLogin,
    ] {
        assert_eq!(run(cmd, vec![Event::Failed]).pop(), Some(fail.clone()));
    }
    let out_of_order = Action::Fail {
        error: UndocError::OutOfOrder,
    };
    assert_eq!(
        run(SubCommand::DumpOneClick, vec![names(&[])]).pop(),
        Some(out_of_order)
    );
}

#[test]
fn items_and_devices_are_found() {
    let items: Vec<String> = vec!["x".to_string(), "y".to_string(), "x".to_string()];
    assert_eq!(find_item(&items, "x"), Some(0));
    assert_eq!(find_item(&items, "y"), Some(1));
    assert_eq!(find_item(&items, "z"), None);
    assert_eq!(
        devices_of_sku(&vec![None, Some("a".to_string())], "a"),
        vec![false, true]
    );
}
