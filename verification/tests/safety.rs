use glass::safety::{
    ac_signatures, detections_from_hits, AntiCheatDetector, AntiCheatSystem, DetectionMethod, DetectionPolicy,
    SystemProbe, scan_log_entry, startup_gate, blocked_startup_message,
};
use glass::error::GlassError;
use std::collections::HashSet;

/// Mock probe for testing — configurable service/driver/process existence.
struct MockProbe {
    services: HashSet<String>,
    drivers: HashSet<String>,
    processes: HashSet<String>,
}

impl MockProbe {
    fn empty() -> Self {
        Self {
            services: HashSet::new(),
            drivers: HashSet::new(),
            processes: HashSet::new(),
        }
    }

    fn with_service(mut self, name: &str) -> Self {
        self.services.insert(name.to_string());
        self
    }

    fn with_driver(mut self, name: &str) -> Self {
        self.drivers.insert(name.to_string());
        self
    }

    fn with_process(mut self, name: &str) -> Self {
        self.processes.insert(name.to_string());
        self
    }
}

impl SystemProbe for MockProbe {
    fn service_exists(&self, name: &str) -> bool {
        self.services.contains(name)
    }

    fn driver_exists(&self, name: &str) -> bool {
        self.drivers.contains(name)
    }

    fn process_running(&self, name: &str) -> bool {
        self.processes.contains(name)
    }
}

#[test]
fn no_ac_detected_on_clean_system() {
    let detector = AntiCheatDetector::with_probe(MockProbe::empty());
    let result = detector.scan();
    assert!(result.detections.is_empty());
    assert!(!result.should_block());
    assert!(!result.has_warnings());
}

#[test]
fn vanguard_service_triggers_block() {
    let probe = MockProbe::empty().with_service("vgk");
    let detector = AntiCheatDetector::with_probe(probe);
    let result = detector.scan();
    assert!(result.should_block());
    assert_eq!(result.detections.len(), 1);
    assert_eq!(result.detections[0].system, AntiCheatSystem::Vanguard);
    assert_eq!(result.detections[0].policy, DetectionPolicy::Block);
}

#[test]
fn vanguard_driver_triggers_block() {
    let probe = MockProbe::empty().with_driver("vgk.sys");
    let detector = AntiCheatDetector::with_probe(probe);
    let result = detector.scan();
    assert!(result.should_block());
    assert_eq!(result.detections[0].system, AntiCheatSystem::Vanguard);
}

#[test]
fn vanguard_process_triggers_block() {
    let probe = MockProbe::empty().with_process("vgc.exe");
    let detector = AntiCheatDetector::with_probe(probe);
    let result = detector.scan();
    assert!(result.should_block());
}

#[test]
fn eac_triggers_warn_not_block() {
    let probe = MockProbe::empty().with_process("EasyAntiCheat.exe");
    let detector = AntiCheatDetector::with_probe(probe);
    let result = detector.scan();
    assert!(!result.should_block());
    assert!(result.has_warnings());
    assert_eq!(result.detections[0].system, AntiCheatSystem::EasyAntiCheat);
    assert_eq!(result.detections[0].policy, DetectionPolicy::Warn);
}

#[test]
fn battleye_triggers_warn() {
    let probe = MockProbe::empty().with_service("BEService");
    let detector = AntiCheatDetector::with_probe(probe);
    let result = detector.scan();
    assert!(!result.should_block());
    assert!(result.has_warnings());
    assert_eq!(result.detections[0].system, AntiCheatSystem::BattlEye);
}

#[test]
fn vac_is_info_only() {
    let probe = MockProbe::empty().with_process("steam.exe");
    let detector = AntiCheatDetector::with_probe(probe);
    let result = detector.scan();
    assert!(!result.should_block());
    assert!(!result.has_warnings());
    assert_eq!(result.detections.len(), 1);
    assert_eq!(result.detections[0].policy, DetectionPolicy::Info);
}

#[test]
fn multiple_detections() {
    let probe = MockProbe::empty()
        .with_service("vgk") // Vanguard → block
        .with_process("EasyAntiCheat.exe"); // EAC → warn
    let detector = AntiCheatDetector::with_probe(probe);
    let result = detector.scan();
    assert!(result.should_block());
    assert!(result.has_warnings());
    assert_eq!(result.detections.len(), 2);
}

#[test]
fn blocked_names_lists_only_blockers() {
    let probe = MockProbe::empty()
        .with_service("vgk")
        .with_process("EasyAntiCheat.exe");
    let detector = AntiCheatDetector::with_probe(probe);
    let result = detector.scan();
    let names = result.blocked_names();
    assert_eq!(names.len(), 1);
    assert!(names[0].contains("Vanguard"));
}

#[test]
fn policy_routing_correct() {
    // Verify all signatures have the expected policy
    for sig in ac_signatures() {
        match sig.system {
            AntiCheatSystem::Vanguard | AntiCheatSystem::Ricochet => {
                assert_eq!(sig.policy, DetectionPolicy::Block);
            }
            AntiCheatSystem::EasyAntiCheat | AntiCheatSystem::BattlEye => {
                assert_eq!(sig.policy, DetectionPolicy::Warn);
            }
            AntiCheatSystem::VAC => {
                assert_eq!(sig.policy, DetectionPolicy::Info);
            }
        }
    }
}

// ── Further cases ───────────────────────────────────────────────────────────

#[test]
fn first_matching_query_decides_method() {
    // A system found both as a service and as a process is reported once,
    // by the service query, which is asked first.
    let probe = MockProbe::empty()
        .with_service("BEService")
        .with_process("BEService.exe");
    let result = AntiCheatDetector::with_probe(probe).scan();
    assert_eq!(result.detections.len(), 1);
    assert_eq!(result.detections[0].method, "service");

    let probe = MockProbe::empty().with_driver("ricochet.sys");
    let result = AntiCheatDetector::with_probe(probe).scan();
    assert_eq!(result.detections[0].system, AntiCheatSystem::Ricochet);
    assert_eq!(result.detections[0].method, "driver");

    let probe = MockProbe::empty().with_process("EasyAntiCheat_EOS.exe");
    let result = AntiCheatDetector::with_probe(probe).scan();
    assert_eq!(result.detections[0].method, "process");
}

#[test]
fn detections_follow_probing_order() {
    let probe = MockProbe::empty()
        .with_process("steam.exe")
        .with_service("EasyAntiCheat")
        .with_service("ricochet")
        .with_driver("vgk.sys");
    let result = AntiCheatDetector::with_probe(probe).scan();
    let systems: Vec<AntiCheatSystem> = result.detections.iter().map(|d| d.system).collect();
    assert_eq!(
        systems,
        vec![
            AntiCheatSystem::Vanguard,
            AntiCheatSystem::Ricochet,
            AntiCheatSystem::EasyAntiCheat,
            AntiCheatSystem::VAC
        ]
    );
    assert_eq!(result.blocked_names(), vec!["Riot Vanguard".to_string(), "RICOCHET".to_string()]);
    assert_eq!(result.warning_names(), vec!["EasyAntiCheat".to_string()]);
}

#[test]
fn detections_from_hits_keeps_hit_signatures_only() {
    let sigs = ac_signatures();
    let hits = vec![None, Some(DetectionMethod::Driver), None, Some(DetectionMethod::Process), None];
    let result = detections_from_hits(&sigs, &hits);
    assert_eq!(result.detections.len(), 2);
    assert_eq!(result.detections[0].system, AntiCheatSystem::Ricochet);
    assert_eq!(result.detections[0].method, "driver");
    assert_eq!(result.detections[1].system, AntiCheatSystem::BattlEye);
    assert_eq!(result.detections[1].policy, DetectionPolicy::Warn);
    assert_eq!(result.detections[1].method, "process");
    assert!(result.should_block());
    assert!(result.has_warnings());
}

#[test]
fn system_names_are_display_names() {
    assert_eq!(AntiCheatSystem::Vanguard.to_string(), "Riot Vanguard");
    assert_eq!(AntiCheatSystem::VAC.to_string(), "Valve Anti-Cheat");
    assert_eq!(AntiCheatSystem::BattlEye.name(), "BattlEye");
}

#[test]
fn log_entry_for_clean_scan() {
    let result = AntiCheatDetector::with_probe(MockProbe::empty()).scan();
    assert_eq!(
        scan_log_entry(&result, 1700000000),
        "[1700000000] GLASS Self-Check scan\n\
         [1700000000] Result: CLEAR — no anti-cheat systems detected\n\n"
    );
}

#[test]
fn log_entry_for_blocking_scan() {
    let probe = MockProbe::empty()
        .with_service("vgk")
        .with_process("EasyAntiCheat.exe")
        .with_process("steam.exe");
    let result = AntiCheatDetector::with_probe(probe).scan();
    assert_eq!(
        scan_log_entry(&result, 42),
        "[42] GLASS Self-Check scan\n\
         [42] Detected: Riot Vanguard (method: service, policy: Block)\n\
         [42] Detected: EasyAntiCheat (method: process, policy: Warn)\n\
         [42] Detected: Valve Anti-Cheat (method: process, policy: Info)\n\
         [42] Action: BLOCK — refusing to start (kernel AC: Riot Vanguard)\n\n"
    );
}

#[test]
fn log_entry_for_warning_scan_joins_names() {
    let probe = MockProbe::empty()
        .with_process("EasyAntiCheat.exe")
        .with_service("BEService");
    let result = AntiCheatDetector::with_probe(probe).scan();
    assert_eq!(
        scan_log_entry(&result, 0),
        "[0] GLASS Self-Check scan\n\
         [0] Detected: EasyAntiCheat (method: process, policy: Warn)\n\
         [0] Detected: BattlEye (method: service, policy: Warn)\n\
         [0] Action: WARN — starting with warnings (EasyAntiCheat, BattlEye)\n\n"
    );
}

#[test]
fn log_entry_for_info_only_scan_has_no_action() {
    let result = AntiCheatDetector::with_probe(MockProbe::empty().with_process("steam.exe")).scan();
    assert_eq!(
        scan_log_entry(&result, 7),
        "[7] GLASS Self-Check scan\n\
         [7] Detected: Valve Anti-Cheat (method: process, policy: Info)\n\n"
    );
}

#[test]
fn startup_gate_refuses_kernel_level_systems() {
    let probe = MockProbe::empty().with_driver("ricochet.sys").with_service("vgc");
    let result = AntiCheatDetector::with_probe(probe).scan();
    match startup_gate(&result) {
        Err(GlassError::SafetyBlock(names)) => assert_eq!(names, "Riot Vanguard, RICOCHET"),
        other => panic!("expected a safety block, got {other:?}"),
    }
    assert_eq!(
        blocked_startup_message(&result),
        "Kernel-level anti-cheat detected: Riot Vanguard, RICOCHET.\n\n\
         GLASS cannot run while kernel AC is active.\n\
         Please close the anti-cheat software and try again."
    );
}

#[test]
fn startup_gate_lets_user_mode_systems_start() {
    let probe = MockProbe::empty().with_service("BEService").with_process("steam.exe");
    let result = AntiCheatDetector::with_probe(probe).scan();
    assert!(startup_gate(&result).is_ok());
    assert!(startup_gate(&AntiCheatDetector::with_probe(MockProbe::empty()).scan()).is_ok());
}

#[test]
fn services_take_precedence_over_drivers_and_processes() {
    let probe = MockProbe::empty()
        .with_service("vgk")
        .with_driver("vgk.sys")
        .with_process("vgc.exe")
        .with_process("vgtray.exe");
    let r = AntiCheatDetector::with_probe(probe).scan();
    assert_eq!(r.detections.len(), 1);
    assert_eq!(r.detections[0].system, AntiCheatSystem::Vanguard);
    assert_eq!(r.detections[0].policy, DetectionPolicy::Block);
    assert_eq!(r.detections[0].method, "service");
    assert_eq!(r.blocked_names(), vec!["Riot Vanguard".to_string()]);

    let r = AntiCheatDetector::with_probe(MockProbe::empty().with_driver("BEDaisy.sys").with_process("BEService.exe")).scan();
    assert_eq!(r.detections.len(), 1);
    assert_eq!(r.detections[0].method, "driver");
}
