use monitro::controller::sdc_config;
use monitro::controller::sleep_displays_plan;
use monitro::controller::transition_ops;
use monitro::controller::Controller;
use monitro::controller::OsOp;
use monitro::controller::Transition;
use monitro::controller::HWND_BROADCAST;
use monitro::controller::MONITOR_POWER_OFF;
use monitro::controller::SC_MONITORPOWER;
use monitro::controller::WM_SYSCOMMAND;
use monitro::icons::icons_applied;
use monitro::icons::has_icon_bit;
use monitro::qdc::TopologyClass;
use monitro::sdc::SdcAction;
use monitro::sdc::SdcConfig;
use monitro::sdc::SdcDatabaseTopologies;
use monitro::sdc::SDC_APPLY;
use monitro::sdc::SDC_TOPOLOGY_EXTEND;
use monitro::sdc::SDC_TOPOLOGY_EXTERNAL;

/// A fake OS: records every apply flag word it is handed and keeps the
/// desktop folder-view flag word like the shell would.
struct FakeOs {
    folder_flags: u32,
    applied: Vec<u32>,
}

impl FakeOs {
    fn run(&mut self, op: &OsOp) {
        match op {
            OsOp::SetIconsHidden { hidden } => {
                self.folder_flags = icons_applied(self.folder_flags, *hidden);
            }
            OsOp::ApplyConfig { request } => {
                self.applied.push(request.flags().unwrap());
            }
        }
    }
}

#[test]
fn transition_requests_select_one_stored_topology() {
    let enter = sdc_config(true);
    assert!(matches!(
        enter.config,
        SdcConfig::Database {
            topologies: SdcDatabaseTopologies {
                internal: false,
                clone: false,
                extend: false,
                external: true,
            },
            path_persist_if_required: false,
        }
    ));
    assert!(matches!(enter.action, SdcAction::Apply { no_optimization: false }));
    assert!(!enter.allow_changes);
    assert_eq!(enter.flags(), Ok(SDC_APPLY | SDC_TOPOLOGY_EXTERNAL));

    let exit = sdc_config(false);
    assert_eq!(exit.flags(), Ok(SDC_APPLY | SDC_TOPOLOGY_EXTEND));
}

#[test]
fn enter_hides_icons_before_applying_and_exit_reverses_the_order() {
    let (first, second) = transition_ops(Transition::Enter);
    assert!(matches!(first, OsOp::SetIconsHidden { hidden: true }));
    match second {
        OsOp::ApplyConfig { request } => {
            assert_eq!(request.flags(), Ok(SDC_APPLY | SDC_TOPOLOGY_EXTERNAL))
        }
        _ => panic!("enter must apply the focus configuration second"),
    }

    let (first, second) = transition_ops(Transition::Exit);
    match first {
        OsOp::ApplyConfig { request } => {
            assert_eq!(request.flags(), Ok(SDC_APPLY | SDC_TOPOLOGY_EXTEND))
        }
        _ => panic!("exit must apply the normal configuration first"),
    }
    assert!(matches!(second, OsOp::SetIconsHidden { hidden: false }));
}

#[test]
fn startup_state_follows_the_database_topology() {
    assert!(Controller::startup(Some(TopologyClass::Internal)).is_focused());
    assert!(!Controller::startup(Some(TopologyClass::Extend)).is_focused());
    assert!(!Controller::startup(Some(TopologyClass::External)).is_focused());
    assert!(!Controller::startup(Some(TopologyClass::Clone)).is_focused());
    assert!(!Controller::startup(None).is_focused());
}

#[test]
fn two_toggles_from_normal_yield_one_enter_then_the_paired_exit() {
    // Two racing toggles are serialized by the atomic exchange; whichever
    // wins observes Normal. After the winner alone the state is Focused;
    // the loser observes the update and becomes the paired exit. The OS
    // sees exactly one enter sequence.
    let mut controller = Controller::startup(None);

    let first = controller.toggle();
    assert!(matches!(first, Transition::Enter));
    assert!(controller.is_focused());

    let second = controller.toggle();
    assert!(matches!(second, Transition::Exit));
    assert!(!controller.is_focused());

    let enters = [first, second]
        .iter()
        .filter(|t| matches!(t, Transition::Enter))
        .count();
    assert_eq!(enters, 1);
}

#[test]
fn startup_focused_then_toggle_returns_to_normal() {
    // Initial topology is internal-only: startup seeds Focused and the
    // desktop already stands with icons hidden.
    let mut os = FakeOs { folder_flags: 0x0000_1040, applied: Vec::new() };
    let mut controller = Controller::startup(Some(TopologyClass::Internal));
    assert!(controller.is_focused());
    assert!(has_icon_bit(os.folder_flags));

    // One toggle leaves focus mode: exactly one apply call encoding the
    // extended-topology selector, and the icons are unhidden afterwards.
    let transition = controller.toggle();
    assert!(matches!(transition, Transition::Exit));
    let (first, second) = transition_ops(transition);
    os.run(&first);
    os.run(&second);

    assert!(!controller.is_focused());
    assert_eq!(os.applied, vec![SDC_APPLY | SDC_TOPOLOGY_EXTEND]);
    assert!(!has_icon_bit(os.folder_flags));
    assert_eq!(os.folder_flags, 0x0000_0040);
}

#[test]
fn sleep_displays_with_no_delay_broadcasts_at_once() {
    let controller = Controller::startup(None);
    let plan = controller.sleep_displays(0);
    assert_eq!(plan.delay_secs, 0);
    assert_eq!(plan.message.hwnd, HWND_BROADCAST);
    assert_eq!(plan.message.message, WM_SYSCOMMAND);
    assert_eq!(plan.message.wparam, SC_MONITORPOWER);
    assert_eq!(plan.message.lparam, MONITOR_POWER_OFF);

    // The plan is the same whatever the focus state.
    let focused = Controller::startup(Some(TopologyClass::Internal));
    assert_eq!(focused.sleep_displays(0), plan);
    assert_eq!(sleep_displays_plan(0), plan);

    let tray = sleep_displays_plan(3);
    assert_eq!(tray.delay_secs, 3);
    assert_eq!(tray.message, plan.message);
}
