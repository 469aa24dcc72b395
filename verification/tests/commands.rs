use wf_twitch_notifier::commands::average::Average;
use wf_twitch_notifier::commands::config::{CommandConfig, CommandConfigOptions};
use wf_twitch_notifier::commands::{
    create_command_map, route, settle, ArgumentLength, Command, CommandError, Descriptor, Dispatch,
    Followup,
};

fn pair() -> Descriptor {
    Descriptor { prefix: "!pair", length: ArgumentLength::Fixed(2) }
}

#[test]
fn fixed_arity_takes_exactly_that_many() {
    assert_eq!(
        ArgumentLength::Fixed(2).check(1),
        Some("This command needs exactly 2 arguments, but you gave 1.".to_owned())
    );
    assert_eq!(ArgumentLength::Fixed(2).check(2), None);
    assert_eq!(
        ArgumentLength::Fixed(2).check(3),
        Some("This command needs exactly 2 arguments, but you gave 3.".to_owned())
    );
}

#[test]
fn minimum_arity_takes_that_many_or_more() {
    assert_eq!(
        ArgumentLength::Minimum(2).check(1),
        Some("This command needs at least 2 arguments, but you gave 1.".to_owned())
    );
    assert_eq!(ArgumentLength::Minimum(2).check(2), None);
    assert_eq!(ArgumentLength::Minimum(2).check(12), None);
    assert_eq!(ArgumentLength::Minimum(0).check(0), None);
}

#[test]
fn range_arity_is_inclusive() {
    assert_eq!(
        ArgumentLength::Range(1, 3).check(0),
        Some("This command needs between 1 and 3 arguments, but you gave 0.".to_owned())
    );
    assert_eq!(ArgumentLength::Range(1, 3).check(1), None);
    assert_eq!(ArgumentLength::Range(1, 3).check(3), None);
    assert_eq!(
        ArgumentLength::Range(1, 3).check(4),
        Some("This command needs between 1 and 3 arguments, but you gave 4.".to_owned())
    );
    assert_eq!(
        ArgumentLength::Range(3, 1).check(2),
        Some("This command needs between 3 and 1 arguments, but you gave 2.".to_owned())
    );
}

#[test]
fn variadic_arity_takes_anything() {
    assert_eq!(ArgumentLength::Variadic.check(0), None);
    assert_eq!(ArgumentLength::Variadic.check(usize::MAX), None);
}

#[test]
fn check_length_counts_the_arguments() {
    assert_eq!(pair().check_length(&["a", "b"]), None);
    assert_eq!(
        pair().check_length(&["a"]),
        Some("This command needs exactly 2 arguments, but you gave 1.".to_owned())
    );
    assert_eq!(Average.check_length(&[]), None);
    assert_eq!(Average.check_length(&["a", "b", "c"]), None);
}

#[test]
fn average_is_called_by_its_prefix() {
    assert_eq!(Average.command_prefix(), "!avg");
    assert_eq!(Average.length(), ArgumentLength::Variadic);
    assert_eq!(
        Descriptor::of(&Average),
        Descriptor { prefix: "!avg", length: ArgumentLength::Variadic }
    );
}

#[test]
fn a_fixed_command_is_not_run_with_one_or_three_arguments() {
    let map = create_command_map(vec![pair()]);
    match route("!pair a", &map) {
        Dispatch::Reject(message) => {
            assert_eq!(message, "This command needs exactly 2 arguments, but you gave 1.")
        }
        _ => panic!("one argument must be rejected"),
    }
    match route("!pair a b c", &map) {
        Dispatch::Reject(message) => {
            assert_eq!(message, "This command needs exactly 2 arguments, but you gave 3.")
        }
        _ => panic!("three arguments must be rejected"),
    }
}

#[test]
fn a_fixed_command_is_run_with_two_arguments() {
    let map = create_command_map(vec![pair()]);
    match route("!pair a b", &map) {
        Dispatch::Invoke { command, args } => {
            assert_eq!(*command, pair());
            assert_eq!(args, vec!["a", "b"]);
        }
        _ => panic!("two arguments must be accepted"),
    }
}

#[test]
fn route_ignores_what_calls_no_command() {
    let map = create_command_map(vec![pair()]);
    assert!(matches!(route("hello there", &map), Dispatch::Ignore));
    assert!(matches!(route("", &map), Dispatch::Ignore));
    assert!(matches!(route("   ", &map), Dispatch::Ignore));
    assert!(matches!(route("a !pair b", &map), Dispatch::Ignore));
    assert!(matches!(route("!pairs a b", &map), Dispatch::Ignore));
    assert!(matches!(route("!PAIR a b", &map), Dispatch::Ignore));
    let empty: Vec<Descriptor> = Vec::new();
    assert!(matches!(route("!pair a b", &create_command_map(empty)), Dispatch::Ignore));
}

#[test]
fn route_splits_at_any_white_space() {
    let map = create_command_map(vec![pair()]);
    match route("  !pair \t a   b ", &map) {
        Dispatch::Invoke { args, .. } => assert_eq!(args, vec!["a", "b"]),
        _ => panic!("two arguments must be accepted"),
    }
    match route("!pair  b", &map) {
        Dispatch::Reject(message) => {
            assert_eq!(message, "This command needs exactly 2 arguments, but you gave 1.")
        }
        _ => panic!("one argument must be rejected"),
    }
}

#[test]
fn route_hands_the_arguments_to_a_variadic_command() {
    let map = create_command_map(vec![Average]);
    match route("!avg primed flow || r3", &map) {
        Dispatch::Invoke { args, .. } => assert_eq!(args, vec!["primed", "flow", "||", "r3"]),
        _ => panic!("any number of arguments must be accepted"),
    }
    match route("!avg", &map) {
        Dispatch::Invoke { args, .. } => assert!(args.is_empty()),
        _ => panic!("no argument must be accepted"),
    }
}

#[test]
fn the_later_of_two_commands_with_one_prefix_is_found() {
    let first = Descriptor { prefix: "!x", length: ArgumentLength::Fixed(1) };
    let second = Descriptor { prefix: "!x", length: ArgumentLength::Fixed(2) };
    let other = Descriptor { prefix: "!y", length: ArgumentLength::Variadic };
    let map = create_command_map(vec![first, second, other]);
    assert_eq!(map.get("!x"), Some(&second));
    assert_eq!(map.get("!y"), Some(&other));
    assert_eq!(map.get("!z"), None);
}

#[test]
fn settle_goes_on_after_success() {
    assert_eq!(settle(Ok(())), Followup::Continue);
}

#[test]
fn settle_tells_the_user_of_a_client_error() {
    assert_eq!(
        settle(Err(CommandError::Client("x9 is wrong".to_owned()))),
        Followup::Say("x9 is wrong".to_owned())
    );
}

#[test]
fn settle_stops_on_a_server_error() {
    assert_eq!(
        settle(Err(CommandError::Server("request failed".to_owned()))),
        Followup::Stop("request failed".to_owned())
    );
}

#[test]
fn an_error_carries_its_message() {
    assert_eq!(CommandError::Client("a".to_owned()).message(), "a");
    assert_eq!(CommandError::Server("b".to_owned()).message(), "b");
}

#[test]
fn command_options_from_a_format() {
    let options = CommandConfigOptions::from("{average}");
    assert_eq!(options, CommandConfigOptions { enabled: true, format: "{average}".to_owned() });
}

#[test]
fn command_config_defaults() {
    let config = CommandConfig::default();
    assert!(config.average_command.enabled);
    assert_eq!(
        config.average_command.format,
        "@{author} \"{item_name}\" average: {average}p - moving average: {moving_average}p | {amount_sold} sold in the last 48h"
    );
}
