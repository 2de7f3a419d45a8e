use shaper::commands::{full_plan, setup_iptables, setup_tc, Step};
use shaper::config::ShaperConfig;
use shaper::session::{Action, Session};

fn commands(steps: &[Step]) -> Vec<String> {
    steps.iter().map(|s| s.command.clone()).collect()
}

fn failures(steps: &[Step]) -> Vec<String> {
    steps.iter().map(|s| s.failure.clone()).collect()
}

/// Drives a session with a stub runner that records each command and fails
/// the command at `fail_at` (counting from zero), if any.
fn drive(cfg: &ShaperConfig, fail_at: Option<usize>) -> (Vec<String>, Action) {
    let mut session = Session::for_config(cfg);
    let mut issued: Vec<String> = Vec::new();
    loop {
        match session.next_action() {
            Action::Run(cmd) => {
                let ok = fail_at != Some(issued.len());
                issued.push(cmd);
                session.report(ok);
            }
            other => return (issued, other),
        }
    }
}

fn config_with(ips: &[&str]) -> ShaperConfig {
    let mut cfg = ShaperConfig::default();
    cfg.vip_ips = ips.iter().map(|s| s.to_string()).collect();
    cfg
}

#[test]
fn default_config_values() {
    let cfg = ShaperConfig::default();
    assert_eq!(cfg.interface, "wlan0");
    assert_eq!(cfg.root_handle, "1:0");
    assert_eq!(cfg.vip_root_handle, "1:1");
    assert_eq!(cfg.class_id, "1:10");
    assert_eq!(cfg.vip_class_id, "1:5");
    assert_eq!(cfg.default_rate, "120kbps");
    assert_eq!(cfg.vip_rate, "256kbps");
    assert_eq!(cfg.vip_ips, vec!["192.168.1.111".to_string()]);
}

#[test]
fn tc_commands_for_default_config() {
    let steps = setup_tc(&ShaperConfig::default());
    assert_eq!(
        commands(&steps),
        vec![
            "tc qdisc add dev wlan0 root handle 1:0 htb default 10",
            "tc class add dev wlan0 parent 1:0 classid 1:10 htb rate 120kbps ceil 120kbps prio 0",
            "tc class add dev wlan0 parent 1:1 classid 1:5 htb rate 256kbps ceil 256kbps prio 1",
            "tc filter add dev wlan0 parent 1:1 prio 1 handle 5 fw flowid 1:5",
        ]
    );
    assert_eq!(
        failures(&steps),
        vec![
            "Error while adding QDISC",
            "Error while adding CLASS",
            "Error while adding CLASS VIP",
            "Error while adding FILTER VIP",
        ]
    );
}

#[test]
fn tc_commands_substitute_every_value() {
    let cfg = ShaperConfig {
        interface: "eth1".to_string(),
        root_handle: "2:0".to_string(),
        vip_root_handle: "2:2".to_string(),
        class_id: "2:20".to_string(),
        vip_class_id: "2:7".to_string(),
        default_rate: "1mbit".to_string(),
        vip_rate: "5mbit".to_string(),
        vip_ips: Vec::new(),
    };
    assert_eq!(
        commands(&setup_tc(&cfg)),
        vec![
            "tc qdisc add dev eth1 root handle 2:0 htb default 10",
            "tc class add dev eth1 parent 2:0 classid 2:20 htb rate 1mbit ceil 1mbit prio 0",
            "tc class add dev eth1 parent 2:2 classid 2:7 htb rate 5mbit ceil 5mbit prio 1",
            "tc filter add dev eth1 parent 2:2 prio 1 handle 5 fw flowid 2:7",
        ]
    );
}

#[test]
fn iptables_commands_for_default_config() {
    let steps = setup_iptables(&ShaperConfig::default());
    assert_eq!(
        commands(&steps),
        vec![
            "iptables -t mangle -N shaper-out",
            "iptables -t mangle -N shaper-in",
            "iptables -t mangle -I POSTROUTING -o wlan0 -j shaper-in",
            "iptables -t mangle -I PREROUTING -i wlan0 -j shaper-out",
            "iptables -t mangle -A shaper-out -s 192.168.1.0/24 -j MARK --set-mark 1",
            "iptables -t mangle -A shaper-in -d 192.168.1.0/24 -j MARK --set-mark 1",
            "iptables -t mangle -A shaper-out -s 192.168.1.111 -j MARK --set-mark 5",
            "iptables -t mangle -A shaper-in -d 192.168.1.111 -j MARK --set-mark 5",
        ]
    );
    assert_eq!(
        failures(&steps),
        vec![
            "Error while adding shaper-out",
            "Error while adding shaper-in",
            "Error while adding POSTROUTING",
            "Error while adding PREROUTING",
            "Error while marking out 1",
            "Error while marking 1",
            "Error while marking out 5 for ip = 192.168.1.111",
            "Error while marking in 5 for ip = 192.168.1.111",
        ]
    );
}

#[test]
fn iptables_without_vips_has_only_fixed_steps() {
    let steps = setup_iptables(&config_with(&[]));
    assert_eq!(steps.len(), 6);
    assert!(steps.iter().all(|s| !s.command.contains("--set-mark 5")));
    assert_eq!(
        steps[5].command,
        "iptables -t mangle -A shaper-in -d 192.168.1.0/24 -j MARK --set-mark 1"
    );
}

#[test]
fn iptables_two_steps_per_vip_in_list_order() {
    let steps = setup_iptables(&config_with(&["10.0.0.1", "10.0.0.2", "10.0.0.3"]));
    assert_eq!(steps.len(), 6 + 2 * 3);
    let tail: Vec<String> = commands(&steps[6..]);
    assert_eq!(
        tail,
        vec![
            "iptables -t mangle -A shaper-out -s 10.0.0.1 -j MARK --set-mark 5",
            "iptables -t mangle -A shaper-in -d 10.0.0.1 -j MARK --set-mark 5",
            "iptables -t mangle -A shaper-out -s 10.0.0.2 -j MARK --set-mark 5",
            "iptables -t mangle -A shaper-in -d 10.0.0.2 -j MARK --set-mark 5",
            "iptables -t mangle -A shaper-out -s 10.0.0.3 -j MARK --set-mark 5",
            "iptables -t mangle -A shaper-in -d 10.0.0.3 -j MARK --set-mark 5",
        ]
    );
}

#[test]
fn full_plan_is_tc_then_iptables() {
    let cfg = ShaperConfig::default();
    let mut expected = commands(&setup_tc(&cfg));
    expected.extend(commands(&setup_iptables(&cfg)));
    let plan = full_plan(&cfg);
    assert_eq!(plan.len(), 12);
    assert_eq!(commands(&plan), expected);
}

#[test]
fn end_to_end_all_commands_succeed() {
    let cfg = ShaperConfig::default();
    let (issued, last) = drive(&cfg, None);
    assert_eq!(issued.len(), 12);
    assert_eq!(issued, commands(&full_plan(&cfg)));
    assert!(matches!(last, Action::Finish));
}

#[test]
fn vip_class_failure_aborts_before_filter() {
    let cfg = ShaperConfig::default();
    let (issued, last) = drive(&cfg, Some(2));
    assert_eq!(issued.len(), 3);
    assert_eq!(
        issued[2],
        "tc class add dev wlan0 parent 1:1 classid 1:5 htb rate 256kbps ceil 256kbps prio 1"
    );
    assert!(issued.iter().all(|c| !c.starts_with("tc filter") && !c.starts_with("iptables")));
    match last {
        Action::Abort(msg) => assert_eq!(msg, "Error while adding CLASS VIP"),
        _ => panic!("expected an abort"),
    }
}

#[test]
fn first_command_failure_issues_nothing_else() {
    let (issued, last) = drive(&ShaperConfig::default(), Some(0));
    assert_eq!(issued, vec!["tc qdisc add dev wlan0 root handle 1:0 htb default 10"]);
    match last {
        Action::Abort(msg) => assert_eq!(msg, "Error while adding QDISC"),
        _ => panic!("expected an abort"),
    }
}

#[test]
fn vip_marking_failure_names_the_address() {
    let cfg = config_with(&["10.1.1.1", "10.2.2.2"]);
    // 4 tc steps, 6 fixed marking steps, then 10.1.1.1 out/in, then 10.2.2.2 out.
    let (issued, last) = drive(&cfg, Some(12));
    assert_eq!(issued.len(), 13);
    assert_eq!(issued[12], "iptables -t mangle -A shaper-out -s 10.2.2.2 -j MARK --set-mark 5");
    match last {
        Action::Abort(msg) => assert_eq!(msg, "Error while marking out 5 for ip = 10.2.2.2"),
        _ => panic!("expected an abort"),
    }
}

#[test]
fn reports_after_abort_change_nothing() {
    let mut session = Session::new(setup_tc(&ShaperConfig::default()));
    session.report(true);
    session.report(false);
    session.report(true);
    session.report(true);
    match session.next_action() {
        Action::Abort(msg) => assert_eq!(msg, "Error while adding CLASS"),
        _ => panic!("expected an abort"),
    }
}

#[test]
fn empty_plan_finishes_at_once() {
    let mut session = Session::new(Vec::new());
    assert!(matches!(session.next_action(), Action::Finish));
    session.report(false);
    assert!(matches!(session.next_action(), Action::Finish));
}

#[test]
fn empty_vip_list_session_runs_ten_commands() {
    let (issued, last) = drive(&config_with(&[]), None);
    assert_eq!(issued.len(), 4 + 6);
    assert!(matches!(last, Action::Finish));
}
