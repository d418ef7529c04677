//! Passive anti-cheat detection: the decision logic of the startup self-check.
//!
//! The detector asks a [`SystemProbe`] whether the services, driver files and
//! processes of each known anti-cheat system are present, in a fixed order,
//! and reports one [`Detection`] per system that answered to any of them.
//!
//! # Detection Policy
//! - **Block**: Kernel-level AC (Vanguard, Ricochet) → refuse to start
//! - **Warn**: User-mode AC (EAC, BattlEye) → start with warning
//! - **Info**: Informational (VAC) → log only
use vstd::prelude::*;
use crate::error::GlassError;
use crate::text::{decimal, joined, push_decimal, push_joined};

verus! {

// ─── Types ──────────────────────────────────────────────────────────────────

/// Known anti-cheat systems.
#[derive(Debug, Clone, Copy, PartialEq, Eq, Structural)]
pub enum AntiCheatSystem {
    /// Riot Vanguard — kernel-level anti-cheat used by Valorant and other Riot titles.
    Vanguard,
    /// RICOCHET — kernel-level anti-cheat used by Activision's Call of Duty titles.
    Ricochet,
    /// Easy Anti-Cheat — user-mode anti-cheat used by Epic Games and many other titles.
    EasyAntiCheat,
    /// BattlEye — user-mode anti-cheat used by a wide range of multiplayer games.
    BattlEye,
    /// Valve Anti-Cheat — heuristic detection based on a running Steam process.
    VAC,
}

impl AntiCheatSystem {
    /// The display name of the system.
    pub open spec fn spec_name(self) -> Seq<char> {
        match self {
            AntiCheatSystem::Vanguard => "Riot Vanguard"@,
            AntiCheatSystem::Ricochet => "RICOCHET"@,
            AntiCheatSystem::EasyAntiCheat => "EasyAntiCheat"@,
            AntiCheatSystem::BattlEye => "BattlEye"@,
            AntiCheatSystem::VAC => "Valve Anti-Cheat"@,
        }
    }

    /// The display name of the system, e.g. `"Riot Vanguard"`.
    pub fn name(&self) -> (r: &'static str)
        ensures
            r@ == self.spec_name(),
    {
        match self {
            AntiCheatSystem::Vanguard => "Riot Vanguard",
            AntiCheatSystem::Ricochet => "RICOCHET",
            AntiCheatSystem::EasyAntiCheat => "EasyAntiCheat",
            AntiCheatSystem::BattlEye => "BattlEye",
            AntiCheatSystem::VAC => "Valve Anti-Cheat",
        }
    }

    /// The display name as an owned string.
    pub fn to_string(&self) -> (r: String)
        ensures
            r@ == self.spec_name(),
    {
        String::from_str(self.name())
    }
}

/// Policy decision for a detected anti-cheat.
#[derive(Debug, Clone, Copy, PartialEq, Eq, Structural)]
pub enum DetectionPolicy {
    /// Kernel-level AC — refuse to start.
    Block,
    /// User-mode AC — start with warning.
    Warn,
    /// Informational — log only, no action.
    Info,
}

/// The policy that applies to each known system: kernel-level systems
/// block, user-mode systems warn, Steam's VAC is informational.
pub open spec fn policy_of(system: AntiCheatSystem) -> DetectionPolicy {
    match system {
        AntiCheatSystem::Vanguard => DetectionPolicy::Block,
        AntiCheatSystem::Ricochet => DetectionPolicy::Block,
        AntiCheatSystem::EasyAntiCheat => DetectionPolicy::Warn,
        AntiCheatSystem::BattlEye => DetectionPolicy::Warn,
        AntiCheatSystem::VAC => DetectionPolicy::Info,
    }
}

/// The kind of probe query that found a system.
#[derive(Debug, Clone, Copy, PartialEq, Eq, Structural)]
pub enum DetectionMethod {
    /// A Windows service of the system exists.
    Service,
    /// A driver file of the system exists.
    Driver,
    /// A process of the system is running.
    Process,
}

impl DetectionMethod {
    /// The label recorded in a [`Detection`].
    pub open spec fn spec_label(self) -> Seq<char> {
        match self {
            DetectionMethod::Service => "service"@,
            DetectionMethod::Driver => "driver"@,
            DetectionMethod::Process => "process"@,
        }
    }

    /// The label recorded in a [`Detection`]: `"service"`, `"driver"` or `"process"`.
    pub fn label(&self) -> (r: &'static str)
        ensures
            r@ == self.spec_label(),
    {
        match self {
            DetectionMethod::Service => "service",
            DetectionMethod::Driver => "driver",
            DetectionMethod::Process => "process",
        }
    }
}

/// A single detection result.
#[derive(Debug, Clone)]
pub struct Detection {
    /// The anti-cheat system that was detected.
    pub system: AntiCheatSystem,
    /// Policy decision for this detection (Block, Warn, or Info).
    pub policy: DetectionPolicy,
    /// Detection method used: `"service"`, `"driver"`, or `"process"`.
    pub method: &'static str,
}

/// The mathematical content of a [`Detection`].
pub struct DetectionView {
    pub system: AntiCheatSystem,
    pub policy: DetectionPolicy,
    pub method: Seq<char>,
}

impl View for Detection {
    type V = DetectionView;

    open spec fn view(&self) -> DetectionView {
        DetectionView { system: self.system, policy: self.policy, method: self.method@ }
    }
}

/// Complete scan result.
#[derive(Debug, Clone)]
pub struct ScanResult {
    /// All anti-cheat systems detected during the scan.
    pub detections: Vec<Detection>,
}

impl View for ScanResult {
    type V = Seq<DetectionView>;

    open spec fn view(&self) -> Seq<DetectionView> {
        self.detections@.map_values(|d: Detection| d@)
    }
}

/// Whether some detection in `ds` carries policy `p`.
pub open spec fn has_policy(ds: Seq<DetectionView>, p: DetectionPolicy) -> bool {
    exists|i: int| 0 <= i < ds.len() && #[trigger] ds[i].policy == p
}

/// The names of the systems in `ds` whose policy is `p`, in order.
pub open spec fn names_with_policy(ds: Seq<DetectionView>, p: DetectionPolicy) -> Seq<Seq<char>>
    decreases ds.len(),
{
    if ds.len() == 0 {
        seq![]
    } else {
        let prev = names_with_policy(ds.drop_last(), p);
        if ds.last().policy == p {
            prev.push(ds.last().system.spec_name())
        } else {
            prev
        }
    }
}

impl ScanResult {
    fn any_with_policy(&self, p: DetectionPolicy) -> (r: bool)
        ensures
            r == has_policy(self@, p),
            r == (exists|i: int| 0 <= i < self@.len() && #[trigger] self@[i].policy == p),
            r == (names_with_policy(self@, p).len() > 0),
    {
        proof {
            policy_queries_agree(self@, p);
        }
        let n = self.detections.len();
        let mut i: usize = 0;
        while i < n
            invariant
                n == self.detections@.len(),
                0 <= i <= n,
                forall|j: int| 0 <= j < i ==> self@[j].policy != p,
            decreases n - i,
        {
            if self.detections[i].policy == p {
                assert(self@[i as int].policy == p);
                proof {
                    policy_queries_agree(self@, p);
                }
                return true;
            }
            i += 1;
        }
        false
    }

    fn names_with(&self, p: DetectionPolicy) -> (r: Vec<String>)
        ensures
            r@.map_values(|s: String| s@) == names_with_policy(self@, p),
    {
        let n = self.detections.len();
        let mut out: Vec<String> = Vec::new();
        let mut i: usize = 0;
        while i < n
            invariant
                n == self.detections@.len(),
                0 <= i <= n,
                out@.map_values(|s: String| s@) == names_with_policy(self@.take(i as int), p),
            decreases n - i,
        {
            assert(self@.take(i + 1).drop_last() =~= self@.take(i as int));
            let d = &self.detections[i];
            if d.policy == p {
                out.push(d.system.to_string());
            }
            assert(out@.map_values(|s: String| s@) =~= names_with_policy(self@.take(i + 1), p));
            i += 1;
        }
        assert(self@.take(n as int) =~= self@);
        out
    }

    /// Whether any detection requires blocking startup.
    pub fn should_block(&self) -> (r: bool)
        ensures
            r == has_policy(self@, DetectionPolicy::Block),
            r == (exists|i: int| 0 <= i < self@.len() && #[trigger] self@[i].policy == DetectionPolicy::Block),
            r == (names_with_policy(self@, DetectionPolicy::Block).len() > 0),
    {
        self.any_with_policy(DetectionPolicy::Block)
    }

    /// Names of the systems that require blocking, in detection order.
    pub fn blocked_names(&self) -> (r: Vec<String>)
        ensures
            r@.map_values(|s: String| s@) == names_with_policy(self@, DetectionPolicy::Block),
    {
        self.names_with(DetectionPolicy::Block)
    }

    /// Whether any detection is a warning.
    pub fn has_warnings(&self) -> (r: bool)
        ensures
            r == has_policy(self@, DetectionPolicy::Warn),
            r == (exists|i: int| 0 <= i < self@.len() && #[trigger] self@[i].policy == DetectionPolicy::Warn),
            r == (names_with_policy(self@, DetectionPolicy::Warn).len() > 0),
    {
        self.any_with_policy(DetectionPolicy::Warn)
    }

    /// Names of the systems that warrant a warning, in detection order.
    pub fn warning_names(&self) -> (r: Vec<String>)
        ensures
            r@.map_values(|s: String| s@) == names_with_policy(self@, DetectionPolicy::Warn),
    {
        self.names_with(DetectionPolicy::Warn)
    }
}


// ─── Detection signatures ───────────────────────────────────────────────────

/// Detection signature for a single anti-cheat system.
#[derive(Debug, Clone)]
pub struct AcSignature {
    /// The system this signature identifies.
    pub system: AntiCheatSystem,
    /// The policy that applies when the system is found.
    pub policy: DetectionPolicy,
    /// Windows service names to check (read-only).
    pub services: Vec<&'static str>,
    /// Driver files under `C:\Windows\System32\drivers\` to check.
    pub drivers: Vec<&'static str>,
    /// Process names to check.
    pub processes: Vec<&'static str>,
}

/// The mathematical content of an [`AcSignature`].
pub struct SignatureView {
    pub system: AntiCheatSystem,
    pub policy: DetectionPolicy,
    pub services: Seq<Seq<char>>,
    pub drivers: Seq<Seq<char>>,
    pub processes: Seq<Seq<char>>,
}

/// The views of a list of names.
pub open spec fn names_view(v: Seq<&'static str>) -> Seq<Seq<char>> {
    v.map_values(|s: &'static str| s@)
}

impl View for AcSignature {
    type V = SignatureView;

    open spec fn view(&self) -> SignatureView {
        SignatureView {
            system: self.system,
            policy: self.policy,
            services: names_view(self.services@),
            drivers: names_view(self.drivers@),
            processes: names_view(self.processes@),
        }
    }
}

/// The table of known signatures, in the order in which they are probed.
pub open spec fn signature_table() -> Seq<SignatureView> {
    seq![
        SignatureView {
            system: AntiCheatSystem::Vanguard,
            policy: DetectionPolicy::Block,
            services: seq!["vgk"@, "vgc"@],
            drivers: seq!["vgk.sys"@],
            processes: seq!["vgc.exe"@, "vgtray.exe"@],
        },
        SignatureView {
            system: AntiCheatSystem::Ricochet,
            policy: DetectionPolicy::Block,
            services: seq!["ricochet"@],
            drivers: seq!["ricochet.sys"@],
            processes: seq![],
        },
        SignatureView {
            system: AntiCheatSystem::EasyAntiCheat,
            policy: DetectionPolicy::Warn,
            services: seq!["EasyAntiCheat"@],
            drivers: seq![],
            processes: seq!["EasyAntiCheat.exe"@, "EasyAntiCheat_EOS.exe"@],
        },
        SignatureView {
            system: AntiCheatSystem::BattlEye,
            policy: DetectionPolicy::Warn,
            services: seq!["BEService"@],
            drivers: seq!["BEDaisy.sys"@],
            processes: seq!["BEService.exe"@],
        },
        SignatureView {
            system: AntiCheatSystem::VAC,
            policy: DetectionPolicy::Info,
            services: seq![],
            drivers: seq![],
            // heuristic: Steam running implies VAC may be active
            processes: seq!["steam.exe"@],
        },
    ]
}

fn names0() -> (r: Vec<&'static str>)
    ensures
        names_view(r@) == Seq::<Seq<char>>::empty(),
{
    let r: Vec<&'static str> = Vec::new();
    assert(names_view(r@) =~= Seq::<Seq<char>>::empty());
    r
}

fn names1(a: &'static str) -> (r: Vec<&'static str>)
    ensures
        names_view(r@) == seq![a@],
{
    let mut r: Vec<&'static str> = Vec::new();
    r.push(a);
    assert(names_view(r@) =~= seq![a@]);
    r
}

fn names2(a: &'static str, b: &'static str) -> (r: Vec<&'static str>)
    ensures
        names_view(r@) == seq![a@, b@],
{
    let mut r: Vec<&'static str> = Vec::new();
    r.push(a);
    r.push(b);
    assert(names_view(r@) =~= seq![a@, b@]);
    r
}

/// All known anti-cheat signatures, in probing order.
pub fn ac_signatures() -> (r: Vec<AcSignature>)
    ensures
        r@.map_values(|s: AcSignature| s@) == signature_table(),
{
    let mut r: Vec<AcSignature> = Vec::new();
    r.push(AcSignature {
        system: AntiCheatSystem::Vanguard,
        policy: DetectionPolicy::Block,
        services: names2("vgk", "vgc"),
        drivers: names1("vgk.sys"),
        processes: names2("vgc.exe", "vgtray.exe"),
    });
    r.push(AcSignature {
        system: AntiCheatSystem::Ricochet,
        policy: DetectionPolicy::Block,
        services: names1("ricochet"),
        drivers: names1("ricochet.sys"),
        processes: names0(),
    });
    r.push(AcSignature {
        system: AntiCheatSystem::EasyAntiCheat,
        policy: DetectionPolicy::Warn,
        services: names1("EasyAntiCheat"),
        drivers: names0(),
        processes: names2("EasyAntiCheat.exe", "EasyAntiCheat_EOS.exe"),
    });
    r.push(AcSignature {
        system: AntiCheatSystem::BattlEye,
        policy: DetectionPolicy::Warn,
        services: names1("BEService"),
        drivers: names1("BEDaisy.sys"),
        processes: names1("BEService.exe"),
    });
    r.push(AcSignature {
        system: AntiCheatSystem::VAC,
        policy: DetectionPolicy::Info,
        services: names0(),
        drivers: names0(),
        processes: names1("steam.exe"),
    });
    assert(r@.map_values(|s: AcSignature| s@) =~= signature_table());
    r
}

// ─── Probing ────────────────────────────────────────────────────────────────

/// Whether `f` can be the table of a probe's answers: any function of the
/// probe, the kind of query and the name can.
pub open spec fn answer_table<P>(f: spec_fn(P, DetectionMethod, Seq<char>) -> bool) -> bool {
    true
}

/// System queries used by the detector (passive, read-only).
///
/// Each answer is stated to be [`SystemProbe::answers`] of the kind of
/// query and the name asked for: a function of the probe, the kind and the
/// name. A probe that reads the machine stands for the machine's state while
/// a scan runs.
pub trait SystemProbe: Send + Sized {
    /// Whether the probe answers yes to the query of kind `kind` about
    /// `name`. Unless an implementation defines it, it is some function of
    /// the probe, the kind and the name that the library does not know.
    closed spec fn answers(&self, kind: DetectionMethod, name: Seq<char>) -> bool {
        (choose|f: spec_fn(Self, DetectionMethod, Seq<char>) -> bool| answer_table(f))(*self, kind, name)
    }

    /// Check if a Windows service exists (read-only query).
    fn service_exists(&self, name: &str) -> (r: bool)
        ensures
            r == self.answers(DetectionMethod::Service, name@),
    ;

    /// Check if a driver file exists.
    fn driver_exists(&self, name: &str) -> (r: bool)
        ensures
            r == self.answers(DetectionMethod::Driver, name@),
    ;

    /// Check if a process with the given name is running.
    fn process_running(&self, name: &str) -> (r: bool)
        ensures
            r == self.answers(DetectionMethod::Process, name@),
    ;
}

/// Whether `p` answers yes, with the query of kind `method`, for one of `names`.
pub open spec fn any_answers<P: SystemProbe>(p: P, method: DetectionMethod, names: Seq<Seq<char>>) -> bool {
    exists|i: int| 0 <= i < names.len() && #[trigger] p.answers(method, names[i])
}

/// The query that finds the system of `sig` on `p`: its services first,
/// then its driver files, then its processes; none when nothing answers.
pub open spec fn expected_hit<P: SystemProbe>(p: P, sig: SignatureView) -> Option<DetectionMethod> {
    if any_answers(p, DetectionMethod::Service, sig.services) {
        Some(DetectionMethod::Service)
    } else if any_answers(p, DetectionMethod::Driver, sig.drivers) {
        Some(DetectionMethod::Driver)
    } else if any_answers(p, DetectionMethod::Process, sig.processes) {
        Some(DetectionMethod::Process)
    } else {
        None
    }
}

/// The outcome of probing every signature of `sigs` on `p`, in order.
pub open spec fn expected_hits<P: SystemProbe>(p: P, sigs: Seq<SignatureView>) -> Seq<Option<DetectionMethod>> {
    Seq::new(sigs.len(), |i: int| expected_hit(p, sigs[i]))
}

/// Whether `method` can have found the system of `sig`: the signature lists
/// at least one name of that kind.
pub open spec fn method_possible(sig: SignatureView, method: DetectionMethod) -> bool {
    match method {
        DetectionMethod::Service => sig.services.len() > 0,
        DetectionMethod::Driver => sig.drivers.len() > 0,
        DetectionMethod::Process => sig.processes.len() > 0,
    }
}

/// Whether `hits` is a possible outcome of probing every signature of `sigs`.
pub open spec fn hits_fit(sigs: Seq<SignatureView>, hits: Seq<Option<DetectionMethod>>) -> bool {
    &&& hits.len() == sigs.len()
    &&& forall|i: int|
        0 <= i < hits.len() ==> (#[trigger] hits[i] matches Some(m) ==> method_possible(sigs[i], m))
}

/// The detections reported for probe outcomes `hits` (one per signature, in
/// order): one detection per signature that was hit, carrying the
/// signature's system and policy and the label of the query that hit.
pub open spec fn detections_for(sigs: Seq<SignatureView>, hits: Seq<Option<DetectionMethod>>) -> Seq<DetectionView>
    decreases hits.len(),
{
    if hits.len() == 0 {
        seq![]
    } else {
        let k = hits.len() - 1;
        let prev = detections_for(sigs, hits.drop_last());
        match hits.last() {
            Some(m) => prev.push(DetectionView { system: sigs[k].system, policy: sigs[k].policy, method: m.spec_label() }),
            None => prev,
        }
    }
}

/// Build the scan result for the probe outcomes `hits`, one per signature.
pub fn detections_from_hits(sigs: &Vec<AcSignature>, hits: &Vec<Option<DetectionMethod>>) -> (r: ScanResult)
    requires
        sigs@.len() == hits@.len(),
    ensures
        r@ == detections_for(sigs@.map_values(|s: AcSignature| s@), hits@),
{
    let ghost table = sigs@.map_values(|s: AcSignature| s@);
    let n = hits.len();
    let mut detections: Vec<Detection> = Vec::new();
    let mut i: usize = 0;
    while i < n
        invariant
            n == hits@.len(),
            n == sigs@.len(),
            table == sigs@.map_values(|s: AcSignature| s@),
            0 <= i <= n,
            detections@.map_values(|d: Detection| d@) == detections_for(table, hits@.take(i as int)),
        decreases n - i,
    {
        assert(hits@.take(i + 1).drop_last() =~= hits@.take(i as int));
        match hits[i] {
            Some(m) => {
                detections.push(Detection { system: sigs[i].system, policy: sigs[i].policy, method: m.label() });
            },
            None => {},
        }
        assert(detections@.map_values(|d: Detection| d@) =~= detections_for(table, hits@.take(i + 1)));
        i += 1;
    }
    assert(hits@.take(n as int) =~= hits@);
    ScanResult { detections }
}

/// A query kind can only find a system whose signature lists names of
/// that kind.
proof fn expected_hit_is_possible<P: SystemProbe>(p: P, sig: SignatureView)
    ensures
        expected_hit(p, sig) matches Some(m) ==> method_possible(sig, m),
{
}

/// Passive anti-cheat detector. Uses only read-only system queries.
pub struct AntiCheatDetector<P: SystemProbe> {
    probe: P,
}

impl<P: SystemProbe> AntiCheatDetector<P> {
    /// Create a detector with a given probe.
    pub fn with_probe(probe: P) -> (r: Self)
        ensures
            r.probe() == probe,
    {
        Self { probe }
    }

    /// The probe this detector queries.
    pub closed spec fn probe(&self) -> P {
        self.probe
    }

    /// Ask the probe, with the query of kind `method`, about each of `names`
    /// in order, stopping at the first that answers yes.
    fn first_hit(&self, names: &Vec<&'static str>, method: DetectionMethod) -> (r: Option<DetectionMethod>)
        ensures
            r == (if any_answers(self.probe(), method, names_view(names@)) {
                Some(method)
            } else {
                None::<DetectionMethod>
            }),
    {
        let ghost nv = names_view(names@);
        let n = names.len();
        let mut i: usize = 0;
        while i < n
            invariant
                n == names@.len(),
                nv == names_view(names@),
                nv.len() == n,
                0 <= i <= n,
                forall|j: int| 0 <= j < i ==> !#[trigger] self.probe().answers(method, nv[j]),
            decreases n - i,
        {
            let found = match method {
                DetectionMethod::Service => self.probe.service_exists(names[i]),
                DetectionMethod::Driver => self.probe.driver_exists(names[i]),
                DetectionMethod::Process => self.probe.process_running(names[i]),
            };
            assert(nv[i as int] == names@[i as int]@);
            if found {
                assert(self.probe().answers(method, nv[i as int]));
                return Some(method);
            }
            i += 1;
        }
        None
    }

    /// Probe one signature: services first, then drivers, then processes;
    /// the first name that answers decides.
    fn probe_signature(&self, sig: &AcSignature) -> (r: Option<DetectionMethod>)
        ensures
            r == expected_hit(self.probe(), sig@),
    {
        let hit = self.first_hit(&sig.services, DetectionMethod::Service);
        if hit.is_some() {
            return hit;
        }
        let hit = self.first_hit(&sig.drivers, DetectionMethod::Driver);
        if hit.is_some() {
            return hit;
        }
        self.first_hit(&sig.processes, DetectionMethod::Process)
    }

    /// Scan for all known anti-cheat systems.
    ///
    /// Returns a `ScanResult` with all detections: one per known system, in
    /// table order, for each system that the probe finds through its
    /// services, else its driver files, else its processes, labelled with the
    /// first of these kinds that answered. Does not take any action — the
    /// caller decides whether to block, warn, or continue.
    pub fn scan(&self) -> (r: ScanResult)
        ensures
            r@ == detections_for(signature_table(), expected_hits(self.probe(), signature_table())),
            exists|hits: Seq<Option<DetectionMethod>>|
                #[trigger] hits_fit(signature_table(), hits) && r@ == detections_for(signature_table(), hits),
    {
        let sigs = ac_signatures();
        let n = sigs.len();
        let mut hits: Vec<Option<DetectionMethod>> = Vec::new();
        let mut i: usize = 0;
        while i < n
            invariant
                n == sigs@.len(),
                sigs@.map_values(|s: AcSignature| s@) == signature_table(),
                0 <= i <= n,
                hits@.len() == i,
                forall|j: int| 0 <= j < i ==> #[trigger] hits@[j] == expected_hit(self.probe(), signature_table()[j]),
            decreases n - i,
        {
            let h = self.probe_signature(&sigs[i]);
            hits.push(h);
            i += 1;
        }
        let r = detections_from_hits(&sigs, &hits);
        proof {
            let t = signature_table();
            let e = expected_hits(self.probe(), t);
            assert(hits@ =~= e);
            assert forall|j: int| 0 <= j < e.len() implies (#[trigger] e[j] matches Some(m) ==> method_possible(t[j], m)) by {
                expected_hit_is_possible(self.probe(), t[j]);
            }
            assert(hits_fit(t, hits@));
        }
        r
    }
}


// ─── Self-check log ─────────────────────────────────────────────────────────

impl DetectionPolicy {
    /// How the self-check log names the policy.
    pub open spec fn spec_label(self) -> Seq<char> {
        match self {
            DetectionPolicy::Block => "Block"@,
            DetectionPolicy::Warn => "Warn"@,
            DetectionPolicy::Info => "Info"@,
        }
    }

    /// How the self-check log names the policy: `"Block"`, `"Warn"` or `"Info"`.
    pub fn label(&self) -> (r: &'static str)
        ensures
            r@ == self.spec_label(),
    {
        match self {
            DetectionPolicy::Block => "Block",
            DetectionPolicy::Warn => "Warn",
            DetectionPolicy::Info => "Info",
        }
    }
}

/// The prefix of every log line: the scan time, in seconds since the Unix
/// epoch, in brackets.
pub open spec fn log_stamp(ts: nat) -> Seq<char> {
    "["@ + decimal(ts) + "] "@
}

/// The log line of one detection.
pub open spec fn detection_line(ts: nat, d: DetectionView) -> Seq<char> {
    log_stamp(ts) + "Detected: "@ + d.system.spec_name() + " (method: "@ + d.method + ", policy: "@
        + d.policy.spec_label() + ")\n"@
}

/// The log lines of all detections, in order.
pub open spec fn detection_lines(ts: nat, ds: Seq<DetectionView>) -> Seq<char>
    decreases ds.len(),
{
    if ds.len() == 0 {
        seq![]
    } else {
        detection_lines(ts, ds.drop_last()) + detection_line(ts, ds.last())
    }
}

/// The line that records the startup decision: blocking names the
/// kernel-level systems, a warning names the user-mode ones, and an
/// informational detection alone adds no line.
pub open spec fn action_line(ts: nat, ds: Seq<DetectionView>) -> Seq<char> {
    if has_policy(ds, DetectionPolicy::Block) {
        log_stamp(ts) + "Action: BLOCK — refusing to start (kernel AC: "@
            + joined(names_with_policy(ds, DetectionPolicy::Block), ", "@) + ")\n"@
    } else if has_policy(ds, DetectionPolicy::Warn) {
        log_stamp(ts) + "Action: WARN — starting with warnings ("@
            + joined(names_with_policy(ds, DetectionPolicy::Warn), ", "@) + ")\n"@
    } else {
        seq![]
    }
}

/// The self-check log entry of a scan made at `ts`: a header line, then
/// either the all-clear line or one line per detection and the action
/// line, each line ending in a newline, and an empty line after the entry.
pub open spec fn scan_log_text(ts: nat, ds: Seq<DetectionView>) -> Seq<char> {
    log_stamp(ts) + "GLASS Self-Check scan\n"@ + (if ds.len() == 0 {
        log_stamp(ts) + "Result: CLEAR — no anti-cheat systems detected\n"@
    } else {
        detection_lines(ts, ds) + action_line(ts, ds)
    }) + "\n"@
}

/// The text that the self-check appends to its log for `result`, scanned
/// at `timestamp` seconds since the Unix epoch.
pub fn scan_log_entry(result: &ScanResult, timestamp: u64) -> (r: String)
    ensures
        r@ == scan_log_text(timestamp as nat, result@),
{
    let ghost ts = timestamp as nat;
    let mut stamp = String::from_str("[");
    push_decimal(&mut stamp, timestamp);
    stamp.append("] ");
    assert(stamp@ =~= log_stamp(ts));
    let mut out = String::new();
    out.append(stamp.as_str());
    out.append("GLASS Self-Check scan\n");
    let ghost head = out@;
    assert(head =~= log_stamp(ts) + "GLASS Self-Check scan\n"@);
    let n = result.detections.len();
    if n == 0 {
        out.append(stamp.as_str());
        out.append("Result: CLEAR — no anti-cheat systems detected\n");
    } else {
        let mut i: usize = 0;
        while i < n
            invariant
                n == result.detections@.len(),
                0 <= i <= n,
                stamp@ == log_stamp(ts),
                out@ == head + detection_lines(ts, result@.take(i as int)),
            decreases n - i,
        {
            let d = &result.detections[i];
            let ghost before = out@;
            out.append(stamp.as_str());
            out.append("Detected: ");
            out.append(d.system.name());
            out.append(" (method: ");
            out.append(d.method);
            out.append(", policy: ");
            out.append(d.policy.label());
            out.append(")\n");
            proof {
                let t = result@.take(i + 1);
                assert(t.drop_last() =~= result@.take(i as int));
                assert(t.last() == d@);
                assert(out@ =~= before + detection_line(ts, d@));
                assert(out@ =~= head + detection_lines(ts, t));
            }
            i += 1;
        }
        assert(result@.take(n as int) =~= result@);
        let ghost lines = out@;
        if result.should_block() {
            out.append(stamp.as_str());
            out.append("Action: BLOCK — refusing to start (kernel AC: ");
            push_joined(&mut out, &result.blocked_names(), ", ");
            out.append(")\n");
        } else if result.has_warnings() {
            out.append(stamp.as_str());
            out.append("Action: WARN — starting with warnings (");
            push_joined(&mut out, &result.warning_names(), ", ");
            out.append(")\n");
        }
        assert(out@ =~= lines + action_line(ts, result@));
    }
    out.append("\n");
    assert(out@ =~= scan_log_text(ts, result@));
    out
}

// ─── Startup gate ───────────────────────────────────────────────────────────

/// The names of the kernel-level systems of a scan, joined by `", "`.
pub open spec fn blocked_list(ds: Seq<DetectionView>) -> Seq<char> {
    joined(names_with_policy(ds, DetectionPolicy::Block), ", "@)
}

/// The startup gate of the self-check: the overlay starts unless a
/// kernel-level system was detected, and is then refused with a safety
/// block that names those systems, joined by `", "`.
pub fn startup_gate(result: &ScanResult) -> (r: Result<(), GlassError>)
    ensures
        r is Ok <==> !has_policy(result@, DetectionPolicy::Block),
        r matches Err(e) ==> e is SafetyBlock && e.spec_detail() == blocked_list(result@),
{
    if result.should_block() {
        let mut names = String::new();
        push_joined(&mut names, &result.blocked_names(), ", ");
        Err(GlassError::SafetyBlock(names))
    } else {
        Ok(())
    }
}

/// The dialog text of a refused start.
pub open spec fn blocked_message_text(ds: Seq<DetectionView>) -> Seq<char> {
    "Kernel-level anti-cheat detected: "@ + blocked_list(ds)
        + ".\n\nGLASS cannot run while kernel AC is active.\nPlease close the anti-cheat software and try again."@
}

/// The dialog text of a refused start, naming the kernel-level systems
/// that were detected.
pub fn blocked_startup_message(result: &ScanResult) -> (r: String)
    ensures
        r@ == blocked_message_text(result@),
{
    let mut out = String::from_str("Kernel-level anti-cheat detected: ");
    push_joined(&mut out, &result.blocked_names(), ", ");
    out.append(".\n\nGLASS cannot run while kernel AC is active.\nPlease close the anti-cheat software and try again.");
    assert(out@ =~= blocked_message_text(result@));
    out
}

/// The policy queries of a scan agree with its detections and with each
/// other: a scan blocks (warns, informs) exactly when one of its detections
/// has that policy, and exactly when it names a system with that policy; a
/// scan none of whose detections has the policy names none.
pub proof fn policy_queries_agree(ds: Seq<DetectionView>, p: DetectionPolicy)
    ensures
        has_policy(ds, p) <==> exists|i: int| 0 <= i < ds.len() && #[trigger] ds[i].policy == p,
        has_policy(ds, p) <==> names_with_policy(ds, p).len() > 0,
        (forall|i: int| 0 <= i < ds.len() ==> #[trigger] ds[i].policy != p) ==> !has_policy(ds, p)
            && names_with_policy(ds, p).len() == 0,
        names_with_policy(ds, p).len() <= ds.len(),
    decreases ds.len(),
{
    if ds.len() > 0 {
        let prev = ds.drop_last();
        policy_queries_agree(prev, p);
        if exists|i: int| 0 <= i < prev.len() && #[trigger] prev[i].policy == p {
            let i = choose|i: int| 0 <= i < prev.len() && #[trigger] prev[i].policy == p;
            assert(ds[i] == prev[i]);
        }
        if exists|i: int| 0 <= i < ds.len() && #[trigger] ds[i].policy == p {
            let i = choose|i: int| 0 <= i < ds.len() && #[trigger] ds[i].policy == p;
            if i < ds.len() - 1 {
                assert(prev[i] == ds[i]);
            }
        }
        assert(ds[ds.len() - 1] == ds.last());
    }
}

// ─── Laws ───────────────────────────────────────────────────────────────────

/// Whether `ds` holds a detection of `system` with `policy`, found by the
/// query labelled `method`.
pub open spec fn reports(ds: Seq<DetectionView>, system: AntiCheatSystem, policy: DetectionPolicy, method: Seq<char>) -> bool {
    exists|i: int| 0 <= i < ds.len() && #[trigger] ds[i] == (DetectionView { system, policy, method })
}

/// The detections of a scan with probe `p`.
pub open spec fn scan_outcome<P: SystemProbe>(p: P) -> Seq<DetectionView> {
    detections_for(signature_table(), expected_hits(p, signature_table()))
}

proof fn any_answers_none<P: SystemProbe>(p: P, kind: DetectionMethod)
    ensures
        !any_answers(p, kind, seq![]),
{
}

proof fn any_answers_one<P: SystemProbe>(p: P, kind: DetectionMethod, a: Seq<char>)
    ensures
        any_answers(p, kind, seq![a]) <==> p.answers(kind, a),
{
    if p.answers(kind, a) {
        assert(seq![a][0] == a);
    }
}

proof fn any_answers_two<P: SystemProbe>(p: P, kind: DetectionMethod, a: Seq<char>, b: Seq<char>)
    ensures
        any_answers(p, kind, seq![a, b]) <==> p.answers(kind, a) || p.answers(kind, b),
{
    let s = seq![a, b];
    assert(s[0] == a && s[1] == b);
}

/// A probe hit is reported with its signature's system and policy and the
/// label of the query that hit.
proof fn hit_is_detected(sigs: Seq<SignatureView>, hits: Seq<Option<DetectionMethod>>, k: int)
    requires
        hits.len() <= sigs.len(),
        0 <= k < hits.len(),
        hits[k] is Some,
    ensures
        reports(detections_for(sigs, hits), sigs[k].system, sigs[k].policy, hits[k]->0.spec_label()),
    decreases hits.len(),
{
    let d = detections_for(sigs, hits);
    let want = DetectionView { system: sigs[k].system, policy: sigs[k].policy, method: hits[k]->0.spec_label() };
    if k == hits.len() - 1 {
        assert(d[d.len() - 1] == want);
    } else {
        let prev = hits.drop_last();
        assert(prev[k] == hits[k]);
        hit_is_detected(sigs, prev, k);
        let pd = detections_for(sigs, prev);
        let i = choose|i: int| 0 <= i < pd.len() && #[trigger] pd[i] == want;
        assert(d[i] == pd[i]);
    }
}

/// Whether `ds` holds a detection of `system`.
pub open spec fn reports_system(ds: Seq<DetectionView>, system: AntiCheatSystem) -> bool {
    exists|i: int| 0 <= i < ds.len() && #[trigger] ds[i].system == system
}

/// Only the documented names count: a probe that answers no to every
/// documented service, driver file and process of a system, whatever it
/// answers about other names, does not make the scan report that system.
pub proof fn only_documented_names_count<P: SystemProbe>(p: P)
    ensures
        !p.answers(DetectionMethod::Service, "vgk"@) && !p.answers(DetectionMethod::Service, "vgc"@) && !p.answers(DetectionMethod::Driver, "vgk.sys"@) && !p.answers(DetectionMethod::Process, "vgc.exe"@) && !p.answers(DetectionMethod::Process, "vgtray.exe"@)
            ==> !reports_system(scan_outcome(p), AntiCheatSystem::Vanguard),
        !p.answers(DetectionMethod::Service, "ricochet"@) && !p.answers(DetectionMethod::Driver, "ricochet.sys"@)
            ==> !reports_system(scan_outcome(p), AntiCheatSystem::Ricochet),
        !p.answers(DetectionMethod::Service, "EasyAntiCheat"@) && !p.answers(DetectionMethod::Process, "EasyAntiCheat.exe"@) && !p.answers(DetectionMethod::Process, "EasyAntiCheat_EOS.exe"@)
            ==> !reports_system(scan_outcome(p), AntiCheatSystem::EasyAntiCheat),
        !p.answers(DetectionMethod::Service, "BEService"@) && !p.answers(DetectionMethod::Driver, "BEDaisy.sys"@) && !p.answers(DetectionMethod::Process, "BEService.exe"@)
            ==> !reports_system(scan_outcome(p), AntiCheatSystem::BattlEye),
        !p.answers(DetectionMethod::Process, "steam.exe"@)
            ==> !reports_system(scan_outcome(p), AntiCheatSystem::VAC),
{
    let t = signature_table();
    let h = expected_hits(p, t);
    any_answers_two(p, DetectionMethod::Service, "vgk"@, "vgc"@);
    any_answers_one(p, DetectionMethod::Driver, "vgk.sys"@);
    any_answers_two(p, DetectionMethod::Process, "vgc.exe"@, "vgtray.exe"@);
    any_answers_one(p, DetectionMethod::Service, "ricochet"@);
    any_answers_one(p, DetectionMethod::Driver, "ricochet.sys"@);
    any_answers_none(p, DetectionMethod::Process);
    any_answers_one(p, DetectionMethod::Service, "EasyAntiCheat"@);
    any_answers_none(p, DetectionMethod::Driver);
    any_answers_two(p, DetectionMethod::Process, "EasyAntiCheat.exe"@, "EasyAntiCheat_EOS.exe"@);
    any_answers_one(p, DetectionMethod::Service, "BEService"@);
    any_answers_one(p, DetectionMethod::Driver, "BEDaisy.sys"@);
    any_answers_one(p, DetectionMethod::Process, "BEService.exe"@);
    any_answers_none(p, DetectionMethod::Service);
    any_answers_none(p, DetectionMethod::Driver);
    any_answers_one(p, DetectionMethod::Process, "steam.exe"@);
    detections_come_from_hits(t, h);
    let d = scan_outcome(p);
    assert forall|i: int| 0 <= i < d.len() implies exists|k: int|
        0 <= k < 5 && h[k] is Some && #[trigger] d[i].system == t[k].system by {
        assert(from_hit(t, h, d[i]));
        let k = choose|k: int|
            #![trigger t[k]]
            0 <= k < h.len() && h[k] is Some && d[i].system == t[k].system && d[i].policy == t[k].policy;
        assert(h[k] is Some);
    }
    assert(h[0] == expected_hit(p, t[0]));
    assert(h[1] == expected_hit(p, t[1]));
    assert(h[2] == expected_hit(p, t[2]));
    assert(h[3] == expected_hit(p, t[3]));
    assert(h[4] == expected_hit(p, t[4]));
}

/// Every documented name of every known system is probed: a probe that
/// answers yes to one of a system's services makes the scan report that
/// system, with its policy, as found by its service; one that answers no
/// to all its services but yes to one of its driver files, as found by its
/// driver; one that answers no to both but yes to one of its processes, as
/// found by its process.
pub proof fn documented_names_are_probed<P: SystemProbe>(p: P)
    ensures
        (p.answers(DetectionMethod::Service, "vgk"@) || p.answers(DetectionMethod::Service, "vgc"@))
            ==> reports(scan_outcome(p), AntiCheatSystem::Vanguard, DetectionPolicy::Block, "service"@),
        !p.answers(DetectionMethod::Service, "vgk"@) && !p.answers(DetectionMethod::Service, "vgc"@) && (p.answers(DetectionMethod::Driver, "vgk.sys"@))
            ==> reports(scan_outcome(p), AntiCheatSystem::Vanguard, DetectionPolicy::Block, "driver"@),
        !p.answers(DetectionMethod::Service, "vgk"@) && !p.answers(DetectionMethod::Service, "vgc"@) && !p.answers(DetectionMethod::Driver, "vgk.sys"@) && (p.answers(DetectionMethod::Process, "vgc.exe"@) || p.answers(DetectionMethod::Process, "vgtray.exe"@))
            ==> reports(scan_outcome(p), AntiCheatSystem::Vanguard, DetectionPolicy::Block, "process"@),
        p.answers(DetectionMethod::Service, "ricochet"@)
            ==> reports(scan_outcome(p), AntiCheatSystem::Ricochet, DetectionPolicy::Block, "service"@),
        !p.answers(DetectionMethod::Service, "ricochet"@) && (p.answers(DetectionMethod::Driver, "ricochet.sys"@))
            ==> reports(scan_outcome(p), AntiCheatSystem::Ricochet, DetectionPolicy::Block, "driver"@),
        p.answers(DetectionMethod::Service, "EasyAntiCheat"@)
            ==> reports(scan_outcome(p), AntiCheatSystem::EasyAntiCheat, DetectionPolicy::Warn, "service"@),
        !p.answers(DetectionMethod::Service, "EasyAntiCheat"@) && (p.answers(DetectionMethod::Process, "EasyAntiCheat.exe"@) || p.answers(DetectionMethod::Process, "EasyAntiCheat_EOS.exe"@))
            ==> reports(scan_outcome(p), AntiCheatSystem::EasyAntiCheat, DetectionPolicy::Warn, "process"@),
        p.answers(DetectionMethod::Service, "BEService"@)
            ==> reports(scan_outcome(p), AntiCheatSystem::BattlEye, DetectionPolicy::Warn, "service"@),
        !p.answers(DetectionMethod::Service, "BEService"@) && (p.answers(DetectionMethod::Driver, "BEDaisy.sys"@))
            ==> reports(scan_outcome(p), AntiCheatSystem::BattlEye, DetectionPolicy::Warn, "driver"@),
        !p.answers(DetectionMethod::Service, "BEService"@) && !p.answers(DetectionMethod::Driver, "BEDaisy.sys"@) && (p.answers(DetectionMethod::Process, "BEService.exe"@))
            ==> reports(scan_outcome(p), AntiCheatSystem::BattlEye, DetectionPolicy::Warn, "process"@),
        p.answers(DetectionMethod::Process, "steam.exe"@)
            ==> reports(scan_outcome(p), AntiCheatSystem::VAC, DetectionPolicy::Info, "process"@),
{
    let t = signature_table();
    let h = expected_hits(p, t);
    any_answers_two(p, DetectionMethod::Service, "vgk"@, "vgc"@);
    any_answers_one(p, DetectionMethod::Driver, "vgk.sys"@);
    any_answers_two(p, DetectionMethod::Process, "vgc.exe"@, "vgtray.exe"@);
    any_answers_one(p, DetectionMethod::Service, "ricochet"@);
    any_answers_one(p, DetectionMethod::Driver, "ricochet.sys"@);
    any_answers_none(p, DetectionMethod::Process);
    any_answers_one(p, DetectionMethod::Service, "EasyAntiCheat"@);
    any_answers_none(p, DetectionMethod::Driver);
    any_answers_two(p, DetectionMethod::Process, "EasyAntiCheat.exe"@, "EasyAntiCheat_EOS.exe"@);
    any_answers_one(p, DetectionMethod::Service, "BEService"@);
    any_answers_one(p, DetectionMethod::Driver, "BEDaisy.sys"@);
    any_answers_one(p, DetectionMethod::Process, "BEService.exe"@);
    any_answers_none(p, DetectionMethod::Service);
    any_answers_none(p, DetectionMethod::Driver);
    any_answers_one(p, DetectionMethod::Process, "steam.exe"@);
    if h[0] is Some {
        hit_is_detected(t, h, 0);
    }
    if h[1] is Some {
        hit_is_detected(t, h, 1);
    }
    if h[2] is Some {
        hit_is_detected(t, h, 2);
    }
    if h[3] is Some {
        hit_is_detected(t, h, 3);
    }
    if h[4] is Some {
        hit_is_detected(t, h, 4);
    }
    assert(h[0] == expected_hit(p, t[0]));
    assert(h[1] == expected_hit(p, t[1]));
    assert(h[2] == expected_hit(p, t[2]));
    assert(h[3] == expected_hit(p, t[3]));
    assert(h[4] == expected_hit(p, t[4]));
}


/// Every signature's policy is the one its system calls for, and no system
/// has two signatures.
pub proof fn signature_table_is_consistent()
    ensures
        signature_table().len() == 5,
        forall|i: int|
            0 <= i < signature_table().len() ==> #[trigger] signature_table()[i].policy == policy_of(
                signature_table()[i].system,
            ),
        forall|i: int, j: int|
            0 <= i < j < signature_table().len() ==> #[trigger] signature_table()[i].system
                != #[trigger] signature_table()[j].system,
{
}

/// Whether detection `dv` carries the system and policy of a signature that was hit.
pub open spec fn from_hit(sigs: Seq<SignatureView>, hits: Seq<Option<DetectionMethod>>, dv: DetectionView) -> bool {
    exists|k: int|
        #![trigger sigs[k]]
        0 <= k < hits.len() && hits[k] is Some && dv.system == sigs[k].system && dv.policy == sigs[k].policy
}

/// Each reported detection comes from a signature that was hit.
proof fn detections_come_from_hits(sigs: Seq<SignatureView>, hits: Seq<Option<DetectionMethod>>)
    requires
        hits.len() <= sigs.len(),
    ensures
        detections_for(sigs, hits).len() <= hits.len(),
        forall|i: int|
            0 <= i < detections_for(sigs, hits).len() ==> from_hit(sigs, hits, #[trigger] detections_for(sigs, hits)[i]),
    decreases hits.len(),
{
    if hits.len() > 0 {
        let prev = hits.drop_last();
        detections_come_from_hits(sigs, prev);
        let d = detections_for(sigs, hits);
        let pd = detections_for(sigs, prev);
        assert forall|i: int| 0 <= i < d.len() implies from_hit(sigs, hits, #[trigger] d[i]) by {
            if i < pd.len() {
                assert(from_hit(sigs, prev, pd[i]));
                let k = choose|k: int|
                    #![trigger sigs[k]]
                    0 <= k < prev.len() && prev[k] is Some && pd[i].system == sigs[k].system && pd[i].policy == sigs[k].policy;
                assert(hits[k] == prev[k]);
            } else {
                let k = hits.len() - 1;
                assert(hits[k] is Some);
                assert(d[i].system == sigs[k].system);
            }
        }
    }
}

/// Whether some detection in `ds` carries the system and policy of `sig`.
pub open spec fn reported(ds: Seq<DetectionView>, sig: SignatureView) -> bool {
    exists|i: int| #![trigger ds[i]] 0 <= i < ds.len() && ds[i].system == sig.system && ds[i].policy == sig.policy
}

/// Each signature that was hit is reported.
proof fn hits_are_reported(sigs: Seq<SignatureView>, hits: Seq<Option<DetectionMethod>>)
    requires
        hits.len() <= sigs.len(),
    ensures
        forall|k: int| 0 <= k < hits.len() && #[trigger] hits[k] is Some ==> reported(detections_for(sigs, hits), sigs[k]),
    decreases hits.len(),
{
    if hits.len() > 0 {
        let prev = hits.drop_last();
        hits_are_reported(sigs, prev);
        let d = detections_for(sigs, hits);
        let pd = detections_for(sigs, prev);
        assert forall|k: int| 0 <= k < hits.len() && #[trigger] hits[k] is Some implies reported(d, sigs[k]) by {
            if k < prev.len() {
                assert(prev[k] == hits[k]);
                assert(reported(pd, sigs[k]));
                let i = choose|i: int| #![trigger pd[i]] 0 <= i < pd.len() && pd[i].system == sigs[k].system && pd[i].policy == sigs[k].policy;
                assert(d[i] == pd[i]);
            } else {
                assert(d[d.len() - 1].system == sigs[k].system);
            }
        }
    }
}

/// Detections built from probing distinct systems name distinct systems,
/// in probing order.
proof fn detections_are_distinct(sigs: Seq<SignatureView>, hits: Seq<Option<DetectionMethod>>)
    requires
        hits.len() <= sigs.len(),
        forall|i: int, j: int| 0 <= i < j < sigs.len() ==> #[trigger] sigs[i].system != #[trigger] sigs[j].system,
    ensures
        forall|i: int, j: int|
            0 <= i < j < detections_for(sigs, hits).len() ==> #[trigger] detections_for(sigs, hits)[i].system
                != #[trigger] detections_for(sigs, hits)[j].system,
    decreases hits.len(),
{
    if hits.len() > 0 {
        let prev = hits.drop_last();
        detections_are_distinct(sigs, prev);
        detections_come_from_hits(sigs, prev);
        let d = detections_for(sigs, hits);
        let pd = detections_for(sigs, prev);
        let k = hits.len() - 1;
        assert forall|i: int, j: int| 0 <= i < j < d.len() implies #[trigger] d[i].system != #[trigger] d[j].system by {
            if j >= pd.len() {
                assert(from_hit(sigs, prev, pd[i]));
                let kk = choose|kk: int|
                    #![trigger sigs[kk]]
                    0 <= kk < prev.len() && prev[kk] is Some && pd[i].system == sigs[kk].system && pd[i].policy == sigs[kk].policy;
                assert(sigs[kk].system != sigs[k].system);
            }
        }
    }
}

/// What every scan reports, whatever the probe answered: each detected
/// system appears once, in probing order, with the policy its kind calls
/// for (kernel-level blocks, user-mode warns, VAC informs); at most one
/// detection per known system; and the result blocks exactly when a
/// kernel-level system was hit, and every system that was hit is reported.
pub proof fn scan_result_laws(hits: Seq<Option<DetectionMethod>>)
    requires
        hits_fit(signature_table(), hits),
    ensures
        detections_for(signature_table(), hits).len() <= signature_table().len(),
        forall|i: int|
            0 <= i < detections_for(signature_table(), hits).len() ==> #[trigger] detections_for(
                signature_table(),
                hits,
            )[i].policy == policy_of(detections_for(signature_table(), hits)[i].system),
        forall|i: int, j: int|
            0 <= i < j < detections_for(signature_table(), hits).len() ==> #[trigger] detections_for(
                signature_table(),
                hits,
            )[i].system != #[trigger] detections_for(signature_table(), hits)[j].system,
        has_policy(detections_for(signature_table(), hits), DetectionPolicy::Block) <==> exists|k: int|
            #![trigger hits[k]]
            0 <= k < hits.len() && hits[k] is Some && policy_of(signature_table()[k].system)
                == DetectionPolicy::Block,
        forall|k: int|
            0 <= k < hits.len() && #[trigger] hits[k] is Some ==> reported(
                detections_for(signature_table(), hits),
                signature_table()[k],
            ),
{
    let t = signature_table();
    signature_table_is_consistent();
    detections_come_from_hits(t, hits);
    detections_are_distinct(t, hits);
    let d = detections_for(t, hits);
    assert forall|i: int| 0 <= i < d.len() implies #[trigger] d[i].policy == policy_of(d[i].system) by {
        assert(from_hit(t, hits, d[i]));
        let k = choose|k: int|
            #![trigger t[k]]
            0 <= k < hits.len() && hits[k] is Some && d[i].system == t[k].system && d[i].policy == t[k].policy;
        assert(t[k].policy == policy_of(t[k].system));
    }
    if has_policy(d, DetectionPolicy::Block) {
        let i = choose|i: int| 0 <= i < d.len() && #[trigger] d[i].policy == DetectionPolicy::Block;
        assert(from_hit(t, hits, d[i]));
        let k = choose|k: int|
            #![trigger t[k]]
            0 <= k < hits.len() && hits[k] is Some && d[i].system == t[k].system && d[i].policy == t[k].policy;
        assert(t[k].policy == policy_of(t[k].system));
        assert(hits[k] is Some);
    }
    hits_are_reported(t, hits);
    if exists|k: int| #![trigger hits[k]] 0 <= k < hits.len() && hits[k] is Some && policy_of(t[k].system) == DetectionPolicy::Block {
        let k = choose|k: int| #![trigger hits[k]] 0 <= k < hits.len() && hits[k] is Some && policy_of(t[k].system) == DetectionPolicy::Block;
        assert(reported(d, t[k]));
        let i = choose|i: int| #![trigger d[i]] 0 <= i < d.len() && d[i].system == t[k].system && d[i].policy == t[k].policy;
        assert(d[i].policy == DetectionPolicy::Block);
    }
}

} // verus!
