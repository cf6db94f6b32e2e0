use vpn_picker::config::{Config, VpnFile};
use vpn_picker::flow::{start, step, Action, Event, Phase};
use vpn_picker::privilege::{is_superuser_id, is_superuser_output};

fn sample_config() -> Config {
    Config {
        vpn_files: vec![
            VpnFile::new("Home".to_string(), "/etc/vpn/home.ovpn".to_string()),
            VpnFile::new("Work".to_string(), "/etc/vpn/work.ovpn".to_string()),
        ],
    }
}

fn choosing() -> Phase {
    let (p, a) = step(Phase::LoadingConfig, Event::ConfigLoaded(sample_config()));
    assert!(matches!(a, Action::ShowMenu(_)));
    p
}

#[test]
fn superuser_output_values() {
    assert!(is_superuser_output(b"0\n".to_vec()));
    assert!(is_superuser_output(b"  0 \r\n".to_vec()));
    assert!(!is_superuser_output(b"1000\n".to_vec()));
    assert!(!is_superuser_output(b"00\n".to_vec()));
    assert!(!is_superuser_output(b"".to_vec()));
    assert!(!is_superuser_output(vec![0x30, 0xff]));
    assert!(is_superuser_id("0"));
    assert!(!is_superuser_id("0 "));
    assert!(!is_superuser_id(""));
}

#[test]
fn run_starts_with_privilege_query() {
    let (p, a) = start();
    assert!(matches!(p, Phase::CheckingPrivilege));
    assert!(matches!(a, Action::QueryPrivilege));
}

#[test]
fn unprivileged_run_stops_before_config() {
    let (p, a) = step(Phase::CheckingPrivilege, Event::Privilege(false));
    assert!(matches!(a, Action::RequirePrivilege));
    assert!(matches!(p, Phase::Done));
    let (p, a) = step(p, Event::ConfigPresent(false));
    assert!(matches!(a, Action::Halt));
    assert!(matches!(p, Phase::Done));
}

#[test]
fn missing_config_is_created_then_loaded() {
    let (p, a) = step(Phase::CheckingPrivilege, Event::Privilege(true));
    assert!(matches!(a, Action::CheckConfig));
    let (p, a) = step(p, Event::ConfigPresent(false));
    match a {
        Action::CreateConfig(c) => {
            assert_eq!(c.vpn_files.len(), 2);
            assert_eq!(c.vpn_files[0].name, "Example VPN 1");
            assert_eq!(c.vpn_files[1].path, "/path/to/example_vpn2.ovpn");
        }
        _ => panic!("expected the default configuration to be created"),
    }
    let (p, a) = step(p, Event::ConfigCreated);
    assert!(matches!(a, Action::LoadConfig));
    assert!(matches!(p, Phase::LoadingConfig));
}

#[test]
fn present_config_is_loaded() {
    let (p, a) = step(Phase::CheckingConfig, Event::ConfigPresent(true));
    assert!(matches!(a, Action::LoadConfig));
    assert!(matches!(p, Phase::LoadingConfig));
}

#[test]
fn loaded_config_shows_menu() {
    let (_, a) = step(Phase::LoadingConfig, Event::ConfigLoaded(sample_config()));
    match a {
        Action::ShowMenu(lines) => assert_eq!(
            lines,
            vec![
                "1: Home (/etc/vpn/home.ovpn)".to_string(),
                "2: Work (/etc/vpn/work.ovpn)".to_string(),
            ]
        ),
        _ => panic!("expected the menu"),
    }
}

#[test]
fn malformed_config_aborts_before_menu() {
    let (p, a) = step(Phase::LoadingConfig, Event::Failed);
    assert!(matches!(a, Action::Abort));
    assert!(matches!(p, Phase::Done));
    let (_, a) = step(p, Event::ChoiceEntered("1\n".to_string()));
    assert!(matches!(a, Action::Halt));
}

#[test]
fn valid_choice_launches_entry() {
    let (p, a) = step(choosing(), Event::ChoiceEntered("2\n".to_string()));
    assert!(matches!(p, Phase::Launching));
    match a {
        Action::Launch { echo, path } => {
            assert_eq!(echo, "You selected: Work (/etc/vpn/work.ovpn)");
            assert_eq!(path, "/etc/vpn/work.ovpn");
        }
        _ => panic!("expected a launch"),
    }
}

#[test]
fn invalid_choices_are_rejected_alike() {
    for input in ["0\n", "abc\n", "3\n", "\n", "-1\n"] {
        let (p, a) = step(choosing(), Event::ChoiceEntered(input.to_string()));
        assert!(matches!(a, Action::RejectChoice));
        assert!(matches!(p, Phase::Done));
    }
}

#[test]
fn launch_outcomes() {
    let (p, a) = step(Phase::Launching, Event::LaunchExited(true));
    assert!(matches!(a, Action::Complete));
    assert!(matches!(p, Phase::Done));
    let (_, a) = step(Phase::Launching, Event::LaunchExited(false));
    assert!(matches!(a, Action::ReportFailure));
    let (_, a) = step(Phase::Launching, Event::Failed);
    assert!(matches!(a, Action::Abort));
}

#[test]
fn unexpected_event_aborts() {
    let (p, a) = step(Phase::CheckingConfig, Event::ConfigCreated);
    assert!(matches!(a, Action::Abort));
    assert!(matches!(p, Phase::Done));
}
