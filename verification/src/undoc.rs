//! The command that works on the undocumented account API, as the decisions it
//! takes: what to do first, and what to do next once that is done.
use crate::text;
use vstd::prelude::*;
use vstd::string::StringExecFns;

verus! {

/// What the command is asked to do.
#[derive(Clone, Debug, PartialEq, Eq)]
pub enum SubCommand {
    /// Print the saved one-click shortcuts as they are.
    DumpOneClick,
    /// Print the one-click items.
    ShowOneClick,
    /// Activate the one-click item of this name.
    OneClick { name: String },
    /// Print the devices of the account, or only those of a SKU.
    DumpDevices { sku: Option<String> },
    /// Try to log in, and print nothing but the outcome.
    Live2faLogin,
}

/// The command.
#[derive(Clone, Debug, PartialEq, Eq)]
pub struct UndocCommand {
    pub cmd: SubCommand,
}

/// Why the command failed.
#[derive(Clone, Debug, PartialEq, Eq)]
pub enum UndocError {
    /// An action failed; its own error says why.
    Action,
    /// No one-click item has this name.
    NotFound { name: String },
    /// A login failed for another reason than a second factor.
    Probe,
    /// What is reported as done is not what was to be done.
    OutOfOrder,
}

/// What is to be done.
#[derive(Clone, Debug, PartialEq, Eq)]
pub enum Action {
    MakeClient,
    LoginCommunity,
    FetchOneClicks,
    PrintOneClicks,
    ParseOneClicks,
    PrintItems,
    LoginAccountCached,
    FetchDevices,
    RedactDevices,
    /// Drop the devices for which there is `false`.
    KeepDevices { keep: Vec<bool> },
    PrintDevices,
    /// Start the IoT client, in order to activate the item at this place.
    StartIot { item: usize },
    ActivateOneClick { item: usize },
    LoginAccount,
    PrintLine { line: String },
    /// Print the outcome of a login that wants a second factor.
    PrintTwoFactor,
    /// Print a line, then fail.
    PrintLineAndFail { line: String },
    Finish,
    Fail { error: UndocError },
}

/// What came of an action.
#[derive(Clone, Debug, PartialEq, Eq)]
pub enum Event {
    Done,
    Failed,
    /// The names of the one-click items.
    Items { names: Vec<String> },
    /// The SKU of each device, where it has one; nothing where there is no list
    /// of devices.
    Devices { skus: Option<Vec<Option<String>>> },
    /// The login was refused, perhaps for want of a second factor.
    LoginRefused { two_factor: bool },
}

/// Whether a device is one of a SKU.
pub open spec fn has_sku(device: Option<String>, sku: Seq<char>) -> bool {
    device matches Some(own) && own@ == sku
}

/// Whether `place` is that of the first item of a name, or the number of items
/// where none has it.
pub open spec fn is_first_named(names: Seq<String>, name: Seq<char>, place: int) -> bool {
    &&& 0 <= place <= names.len()
    &&& forall|i: int| 0 <= i < place ==> (#[trigger] names[i])@ != name
    &&& place < names.len() ==> names[place]@ == name
}

/// Which devices are of a SKU.
pub fn devices_of_sku(skus: &Vec<Option<String>>, sku: &str) -> (keep: Vec<bool>)
    ensures
        keep@.len() == skus@.len(),
        forall|i: int| 0 <= i < keep@.len() ==> #[trigger] keep@[i] == has_sku(skus@[i], sku@),
        forall|i: int|
            0 <= i < keep@.len() ==> (#[trigger] keep@[i] <==> skus@[i] is Some && skus@[i]->0@
                == sku@),
{
    let mut keep: Vec<bool> = Vec::new();
    let mut i: usize = 0;
    while i < skus.len()
        invariant
            i <= skus@.len(),
            keep@.len() == i,
            forall|j: int| 0 <= j < i ==> #[trigger] keep@[j] == has_sku(skus@[j], sku@),
        decreases skus@.len() - i,
    {
        let matches_sku = match &skus[i] {
            Some(own) => text::same_text(own.as_str(), sku),
            None => false,
        };
        keep.push(matches_sku);
        i = i + 1;
    }
    keep
}

/// The place of the first item of a name.
pub fn find_item(names: &Vec<String>, name: &str) -> (place: Option<usize>)
    ensures
        match place {
            Some(place) => place < names@.len() && is_first_named(names@, name@, place as int),
            None => is_first_named(names@, name@, names@.len() as int),
        },
        match place {
            Some(place) => {
                &&& place < names@.len()
                &&& names@[place as int]@ == name@
                &&& forall|i: int| 0 <= i < place ==> (#[trigger] names@[i])@ != name@
            },
            None => forall|i: int| 0 <= i < names@.len() ==> (#[trigger] names@[i])@ != name@,
        },
{
    let mut i: usize = 0;
    while i < names.len()
        invariant
            i <= names@.len(),
            forall|j: int| 0 <= j < i ==> (#[trigger] names@[j])@ != name@,
        decreases names@.len() - i,
    {
        if text::same_text(names[i].as_str(), name) {
            return Some(i);
        }
        i = i + 1;
    }
    None
}

impl UndocError {
    /// The error in words; an action that failed has its own.
    pub open spec fn text(self) -> Seq<char> {
        match self {
            UndocError::Action => "the action failed"@,
            UndocError::NotFound { name } => "didn't find item "@ + name@,
            UndocError::Probe => {
                "live 2FA probe failed; upstream details were intentionally redacted"@
            },
            UndocError::OutOfOrder => "the action was not the one to be done"@,
        }
    }

    /// The error in words; an action that failed has its own.
    pub fn message(&self) -> (message: String)
        ensures
            message@ == self.text(),
    {
        match self {
            UndocError::Action => "the action failed".to_owned(),
            UndocError::NotFound { name } => {
                let mut message = "didn't find item ".to_owned();
                message.append(name.as_str());
                message
            },
            UndocError::Probe => {
                "live 2FA probe failed; upstream details were intentionally redacted".to_owned()
            },
            UndocError::OutOfOrder => "the action was not the one to be done".to_owned(),
        }
    }
}

/// The line that reports a login that went well.
pub open spec fn login_ok_line() -> Seq<char> {
    "{\"schema\":1,\"outcome\":\"login_ok\"}"@
}

/// The line that reports a login that failed for no known reason.
pub open spec fn unexpected_error_line() -> Seq<char> {
    "{\"schema\":1,\"outcome\":\"unexpected_error\"}"@
}

impl UndocCommand {
    /// Whether `next` is what to do once `done` came to `event`.
    pub open spec fn follows(self, done: Action, event: Event, next: Action) -> bool {
        match (done, event) {
            (_, Event::Failed) => next == (Action::Fail { error: UndocError::Action }),
            (Action::MakeClient, Event::Done) => next == match self.cmd {
                SubCommand::DumpOneClick => Action::LoginCommunity,
                SubCommand::ShowOneClick => Action::ParseOneClicks,
                SubCommand::OneClick { .. } => Action::ParseOneClicks,
                SubCommand::DumpDevices { .. } => Action::LoginAccountCached,
                SubCommand::Live2faLogin => Action::LoginAccount,
            },
            (Action::LoginCommunity, Event::Done) => next == Action::FetchOneClicks,
            (Action::FetchOneClicks, Event::Done) => next == Action::PrintOneClicks,
            (Action::ParseOneClicks, Event::Items { names }) => match self.cmd {
                SubCommand::OneClick { name } => match next {
                    Action::StartIot { item } => item < names@.len() && is_first_named(
                        names@,
                        name@,
                        item as int,
                    ),
                    Action::Fail { error: UndocError::NotFound { name: missing } } => missing@
                        == name@ && is_first_named(names@, name@, names@.len() as int),
                    _ => false,
                },
                _ => next == Action::PrintItems,
            },
            (Action::LoginAccountCached, Event::Done) => next == Action::FetchDevices,
            (Action::FetchDevices, Event::Done) => next == Action::RedactDevices,
            (Action::RedactDevices, Event::Devices { skus }) => match (self.cmd, skus) {
                (SubCommand::DumpDevices { sku: Some(sku) }, Some(skus)) => {
                    &&& next matches Action::KeepDevices { keep } && keep@.len() == skus@.len()
                        && forall|i: int|
                        0 <= i < keep@.len() ==> #[trigger] keep@[i] == has_sku(skus@[i], sku@)
                },
                _ => next == Action::PrintDevices,
            },
            (Action::KeepDevices { .. }, Event::Done) => next == Action::PrintDevices,
            (Action::StartIot { item }, Event::Done) => next == (Action::ActivateOneClick { item }),
            (Action::LoginAccount, Event::Done) => next matches Action::PrintLine { line } && line@
                == login_ok_line(),
            (Action::LoginAccount, Event::LoginRefused { two_factor }) => if two_factor {
                next == Action::PrintTwoFactor
            } else {
                next matches Action::PrintLineAndFail { line } && line@ == unexpected_error_line()
            },
            (Action::PrintLineAndFail { .. }, Event::Done) => next == (Action::Fail {
                error: UndocError::Probe,
            }),
            (Action::PrintOneClicks, Event::Done) => next == Action::Finish,
            (Action::PrintItems, Event::Done) => next == Action::Finish,
            (Action::PrintDevices, Event::Done) => next == Action::Finish,
            (Action::ActivateOneClick { .. }, Event::Done) => next == Action::Finish,
            (Action::PrintLine { .. }, Event::Done) => next == Action::Finish,
            (Action::PrintTwoFactor, Event::Done) => next == Action::Finish,
            _ => next == (Action::Fail { error: UndocError::OutOfOrder }),
        }
    }

    /// What to do first.
    pub fn first_action(&self) -> (action: Action)
        ensures
            action == Action::MakeClient,
    {
        Action::MakeClient
    }

    /// What to do once `done` came to `event`.
    pub fn next_action(&self, done: &Action, event: &Event) -> (next: Action)
        ensures
            self.follows(*done, *event, next),
    {
        match (done, event) {
            (_, Event::Failed) => Action::Fail { error: UndocError::Action },
            (Action::MakeClient, Event::Done) => match &self.cmd {
                SubCommand::DumpOneClick => Action::LoginCommunity,
                SubCommand::ShowOneClick => Action::ParseOneClicks,
                SubCommand::OneClick { .. } => Action::ParseOneClicks,
                SubCommand::DumpDevices { .. } => Action::LoginAccountCached,
                SubCommand::Live2faLogin => Action::LoginAccount,
            },
            (Action::LoginCommunity, Event::Done) => Action::FetchOneClicks,
            (Action::FetchOneClicks, Event::Done) => Action::PrintOneClicks,
            (Action::ParseOneClicks, Event::Items { names }) => match &self.cmd {
                SubCommand::OneClick { name } => match find_item(names, name.as_str()) {
                    Some(item) => Action::StartIot { item },
                    None => Action::Fail { error: UndocError::NotFound { name: name.clone() } },
                },
                _ => Action::PrintItems,
            },
            (Action::LoginAccountCached, Event::Done) => Action::FetchDevices,
            (Action::FetchDevices, Event::Done) => Action::RedactDevices,
            (Action::RedactDevices, Event::Devices { skus }) => match (&self.cmd, skus) {
                (SubCommand::DumpDevices { sku: Some(sku) }, Some(skus)) => Action::KeepDevices {
                    keep: devices_of_sku(skus, sku.as_str()),
                },
                _ => Action::PrintDevices,
            },
            (Action::KeepDevices { .. }, Event::Done) => Action::PrintDevices,
            (Action::StartIot { item }, Event::Done) => Action::ActivateOneClick { item: *item },
            (Action::LoginAccount, Event::Done) => Action::PrintLine {
                line: "{\"schema\":1,\"outcome\":\"login_ok\"}".to_owned(),
            },
            (Action::LoginAccount, Event::LoginRefused { two_factor }) => if *two_factor {
                Action::PrintTwoFactor
            } else {
                Action::PrintLineAndFail {
                    line: "{\"schema\":1,\"outcome\":\"unexpected_error\"}".to_owned(),
                }
            },
            (Action::PrintLineAndFail { .. }, Event::Done) => Action::Fail {
                error: UndocError::Probe,
            },
            (Action::PrintOneClicks, Event::Done) => Action::Finish,
            (Action::PrintItems, Event::Done) => Action::Finish,
            (Action::PrintDevices, Event::Done) => Action::Finish,
            (Action::ActivateOneClick { .. }, Event::Done) => Action::Finish,
            (Action::PrintLine { .. }, Event::Done) => Action::Finish,
            (Action::PrintTwoFactor, Event::Done) => Action::Finish,
            _ => Action::Fail { error: UndocError::OutOfOrder },
        }
    }
}

/// How many more actions can come after one, at most.
pub open spec fn actions_left(action: Action) -> nat {
    match action {
        Action::MakeClient => 6,
        Action::LoginCommunity => 3,
        Action::LoginAccountCached => 5,
        Action::FetchOneClicks => 2,
        Action::ParseOneClicks => 3,
        Action::FetchDevices => 4,
        Action::RedactDevices => 3,
        Action::KeepDevices { .. } => 2,
        Action::StartIot { .. } => 2,
        Action::LoginAccount => 2,
        Action::Finish => 0,
        Action::Fail { .. } => 0,
        _ => 1,
    }
}

/// Every run ends: until the command has finished or failed, each action leaves
/// fewer to come.
pub proof fn law_runs_end(command: UndocCommand, done: Action, event: Event, next: Action)
    requires
        command.follows(done, event, next),
        !(done is Finish),
        !(done is Fail),
    ensures
        actions_left(next) < actions_left(done),
{
}

/// Only the subcommand that names an item activates one, and the item is the
/// first of that name.
pub proof fn law_only_the_named_item_is_activated(
    command: UndocCommand,
    event: Event,
    next: Action,
)
    requires
        command.follows(Action::ParseOneClicks, event, next),
        next is StartIot,
    ensures
        command.cmd matches SubCommand::OneClick { name } && (event matches Event::Items { names }
            && is_first_named(names@, name@, next->StartIot_item as int)
            && next->StartIot_item < names@.len()),
{
}

/// Whether `actions` can be what the command does while `events` come of them, one
/// after the other.
pub open spec fn is_run(command: UndocCommand, actions: Seq<Action>, events: Seq<Event>) -> bool {
    &&& actions.len() == events.len() + 1
    &&& actions[0] == Action::MakeClient
    &&& forall|i: int|
        0 <= i < events.len() ==> command.follows(actions[i], #[trigger] events[i], actions[i + 1])
}

/// An item is activated only right after the IoT client was started for that same
/// item.
pub proof fn law_the_started_item_is_activated(
    command: UndocCommand,
    done: Action,
    event: Event,
    next: Action,
    item: usize,
)
    requires
        command.follows(done, event, next),
        next == (Action::ActivateOneClick { item }),
    ensures
        done == (Action::StartIot { item }),
        event == Event::Done,
{
}

/// The IoT client is started only for the first item of the name that was asked
/// for.
pub proof fn law_the_named_item_is_started(
    command: UndocCommand,
    done: Action,
    event: Event,
    next: Action,
    item: usize,
)
    requires
        command.follows(done, event, next),
        next == (Action::StartIot { item }),
    ensures
        done == Action::ParseOneClicks,
        command.cmd matches SubCommand::OneClick { name } && (event matches Event::Items { names }
            && {
            &&& item < names@.len()
            &&& names@[item as int]@ == name@
            &&& forall|i: int| 0 <= i < item ==> (#[trigger] names@[i])@ != name@
        }),
{
}

/// Whatever run activates an item, the item is the first one of the name that was
/// asked for, among the items that were fetched.
pub proof fn law_runs_activate_the_named_item(
    command: UndocCommand,
    actions: Seq<Action>,
    events: Seq<Event>,
    k: int,
    item: usize,
)
    requires
        is_run(command, actions, events),
        0 <= k < actions.len(),
        actions[k] == (Action::ActivateOneClick { item }),
    ensures
        k >= 2,
        command.cmd matches SubCommand::OneClick { name } && (
        events[k - 2] matches Event::Items { names } && {
            &&& item < names@.len()
            &&& names@[item as int]@ == name@
            &&& forall|i: int| 0 <= i < item ==> (#[trigger] names@[i])@ != name@
        }),
{
    assert(k >= 1);
    let last = events[k - 1];
    assert(command.follows(actions[k - 1], last, actions[k - 1 + 1]));
    law_the_started_item_is_activated(command, actions[k - 1], last, actions[k], item);
    assert(k >= 2);
    let before = events[k - 2];
    assert(command.follows(actions[k - 2], before, actions[k - 2 + 1]));
    law_the_named_item_is_started(command, actions[k - 2], before, actions[k - 1], item);
}

/// Dumping the one-clicks logs in to the community, fetches them and prints them.
pub proof fn law_dump_one_click_runs(
    command: UndocCommand,
    actions: Seq<Action>,
    events: Seq<Event>,
)
    requires
        command.cmd is DumpOneClick,
        is_run(command, actions, events),
        events == seq![Event::Done, Event::Done, Event::Done, Event::Done],
    ensures
        actions == seq![
            Action::MakeClient,
            Action::LoginCommunity,
            Action::FetchOneClicks,
            Action::PrintOneClicks,
            Action::Finish,
        ],
{
    assert(command.follows(actions[0], events[0], actions[1]));
    assert(command.follows(actions[1], events[1], actions[2]));
    assert(command.follows(actions[2], events[2], actions[3]));
    assert(command.follows(actions[3], events[3], actions[4]));
}

/// Showing the one-clicks fetches the items and prints them.
pub proof fn law_show_one_click_runs(
    command: UndocCommand,
    actions: Seq<Action>,
    events: Seq<Event>,
    names: Vec<String>,
)
    requires
        command.cmd is ShowOneClick,
        is_run(command, actions, events),
        events == seq![Event::Done, Event::Items { names }, Event::Done],
    ensures
        actions == seq![
            Action::MakeClient,
            Action::ParseOneClicks,
            Action::PrintItems,
            Action::Finish,
        ],
{
    assert(command.follows(actions[0], events[0], actions[1]));
    assert(command.follows(actions[1], events[1], actions[2]));
    assert(command.follows(actions[2], events[2], actions[3]));
}

/// A one-click of a name that an item has starts the IoT client and activates the
/// first such item.
pub proof fn law_one_click_runs(
    name: String,
    actions: Seq<Action>,
    events: Seq<Event>,
    names: Vec<String>,
    item: usize,
)
    requires
        is_run(UndocCommand { cmd: SubCommand::OneClick { name } }, actions, events),
        events == seq![Event::Done, Event::Items { names }, Event::Done, Event::Done],
        item < names@.len(),
        names@[item as int]@ == name@,
        forall|i: int| 0 <= i < item ==> (#[trigger] names@[i])@ != name@,
    ensures
        actions == seq![
            Action::MakeClient,
            Action::ParseOneClicks,
            Action::StartIot { item },
            Action::ActivateOneClick { item },
            Action::Finish,
        ],
{
    let command = UndocCommand { cmd: SubCommand::OneClick { name } };
    assert(command.follows(actions[0], events[0], actions[1]));
    assert(command.follows(actions[1], events[1], actions[2]));
    assert(command.follows(actions[2], events[2], actions[3]));
    assert(command.follows(actions[3], events[3], actions[4]));
    if let Action::StartIot { item: started } = actions[2] {
        if started < item {
            assert(names@[started as int]@ == name@);
        } else if item < started {
            assert(names@[item as int]@ != name@);
        }
    }
}

/// A one-click of a name that no item has fails with that name, and starts
/// nothing.
pub proof fn law_one_click_fails_without_the_item(
    name: String,
    actions: Seq<Action>,
    events: Seq<Event>,
    names: Vec<String>,
)
    requires
        is_run(UndocCommand { cmd: SubCommand::OneClick { name } }, actions, events),
        events == seq![Event::Done, Event::Items { names }],
        forall|i: int| 0 <= i < names@.len() ==> (#[trigger] names@[i])@ != name@,
    ensures
        actions[1] == Action::ParseOneClicks,
        actions[2] matches Action::Fail { error: UndocError::NotFound { name: missing } }
            && missing@ == name@,
{
    let command = UndocCommand { cmd: SubCommand::OneClick { name } };
    assert(command.follows(actions[0], events[0], actions[1]));
    assert(command.follows(actions[1], events[1], actions[2]));
}

/// Dumping the devices logs in, fetches and redacts them, and prints them. Where a
/// SKU was asked for and there is a list of devices, those of another SKU, or of
/// none, are dropped first; nothing else is dropped.
pub proof fn law_dump_devices_runs(
    sku: Option<String>,
    skus: Option<Vec<Option<String>>>,
    actions: Seq<Action>,
    events: Seq<Event>,
)
    requires
        is_run(UndocCommand { cmd: SubCommand::DumpDevices { sku } }, actions, events),
        events.len() == 5 || events.len() == 6,
        events.len() == 6 <==> sku is Some && skus is Some,
        events[3] == (Event::Devices { skus }),
        forall|i: int| 0 <= i < events.len() && i != 3 ==> #[trigger] events[i] == Event::Done,
    ensures
        actions[0] == Action::MakeClient,
        actions[1] == Action::LoginAccountCached,
        actions[2] == Action::FetchDevices,
        actions[3] == Action::RedactDevices,
        events.len() == 6 ==> (actions[4] matches Action::KeepDevices { keep } && {
            &&& keep@.len() == skus->0@.len()
            &&& forall|i: int|
                0 <= i < keep@.len() ==> (#[trigger] keep@[i] <==> skus->0@[i] is Some
                    && skus->0@[i]->0@ == sku->0@)
        }),
        actions[events.len() - 1] == Action::PrintDevices,
        actions[events.len() as int] == Action::Finish,
{
    let command = UndocCommand { cmd: SubCommand::DumpDevices { sku } };
    assert(command.follows(actions[0], events[0], actions[1]));
    assert(command.follows(actions[1], events[1], actions[2]));
    assert(command.follows(actions[2], events[2], actions[3]));
    assert(command.follows(actions[3], events[3], actions[4]));
    assert(command.follows(actions[4], events[4], actions[5]));
    if events.len() == 6 {
        assert(command.follows(actions[5], events[5], actions[6]));
    }
}

/// A login probe prints one line about the outcome. It fails only where the login
/// was refused for another reason than a second factor.
pub proof fn law_login_probe_runs(
    command: UndocCommand,
    outcome: Event,
    actions: Seq<Action>,
    events: Seq<Event>,
)
    requires
        command.cmd is Live2faLogin,
        is_run(command, actions, events),
        events == seq![Event::Done, outcome, Event::Done],
        outcome is Done || outcome is LoginRefused,
    ensures
        actions[0] == Action::MakeClient,
        actions[1] == Action::LoginAccount,
        outcome is Done ==> {
            &&& actions[2] matches Action::PrintLine { line } && line@
                == "{\"schema\":1,\"outcome\":\"login_ok\"}"@
            &&& actions[3] == Action::Finish
        },
        outcome == (Event::LoginRefused { two_factor: true }) ==> {
            &&& actions[2] == Action::PrintTwoFactor
            &&& actions[3] == Action::Finish
        },
        outcome == (Event::LoginRefused { two_factor: false }) ==> {
            &&& actions[2] matches Action::PrintLineAndFail { line } && line@
                == "{\"schema\":1,\"outcome\":\"unexpected_error\"}"@
            &&& actions[3] == (Action::Fail { error: UndocError::Probe })
        },
{
    assert(command.follows(actions[0], events[0], actions[1]));
    assert(command.follows(actions[1], events[1], actions[2]));
    assert(command.follows(actions[2], events[2], actions[3]));
}

/// An action that failed fails the command, whatever the action was.
pub proof fn law_failures_end_runs(command: UndocCommand, done: Action, next: Action)
    requires
        command.follows(done, Event::Failed, next),
    ensures
        next == (Action::Fail { error: UndocError::Action }),
{
}

/// An event that cannot come of an action fails the command: items come of
/// parsing, devices of redacting, a refusal of a login, and these two give more
/// than that they are done.
pub proof fn law_events_that_do_not_fit_end_runs(
    command: UndocCommand,
    done: Action,
    event: Event,
    next: Action,
)
    requires
        command.follows(done, event, next),
        ({
            ||| event is Items && !(done is ParseOneClicks)
            ||| event is Devices && !(done is RedactDevices)
            ||| event is LoginRefused && !(done is LoginAccount)
            ||| event is Done && (done is ParseOneClicks || done is RedactDevices || done is Finish
                || done is Fail)
        }),
    ensures
        next == (Action::Fail { error: UndocError::OutOfOrder }),
{
}

/// Only three actions are followed by something that depends on the command: the
/// first, and those that give items or devices.
pub proof fn law_steps_are_shared(
    one: UndocCommand,
    other: UndocCommand,
    done: Action,
    event: Event,
    a: Action,
    b: Action,
)
    requires
        one.follows(done, event, a),
        other.follows(done, event, b),
        !(done is MakeClient) && !(done is ParseOneClicks) && !(done is RedactDevices),
    ensures
        a == b || (a matches Action::PrintLine { line: x } && (b matches Action::PrintLine {
            line: y,
        } && x@ == y@)) || (a matches Action::PrintLineAndFail { line: x } && (
        b matches Action::PrintLineAndFail { line: y } && x@ == y@)),
{
}

/// Items and devices that were not asked for by name or SKU are printed.
pub proof fn law_what_is_not_selected_is_printed(
    command: UndocCommand,
    names: Vec<String>,
    skus: Option<Vec<Option<String>>>,
    items_next: Action,
    devices_next: Action,
)
    requires
        command.follows(Action::ParseOneClicks, Event::Items { names }, items_next),
        command.follows(Action::RedactDevices, Event::Devices { skus }, devices_next),
    ensures
        !(command.cmd is OneClick) ==> items_next == Action::PrintItems,
        !(command.cmd is DumpDevices) ==> devices_next == Action::PrintDevices,
{
}

/// The errors in words.
pub proof fn law_undoc_error_texts(error: UndocError)
    ensures
        error matches UndocError::NotFound { name } ==> error.text() == "didn't find item "@
            + name@,
        error is Probe ==> error.text()
            == "live 2FA probe failed; upstream details were intentionally redacted"@,
        error is Action ==> error.text() == "the action failed"@,
        error is OutOfOrder ==> error.text() == "the action was not the one to be done"@,
{
}

} // verus!
