//! Module metadata and the module section of the configuration.
use vstd::prelude::*;
use crate::scene::{NodeId, Scene};

verus! {

/// Metadata returned by every module.
#[derive(Debug, Clone)]
pub struct ModuleInfo {
    /// Unique machine-readable identifier (e.g. `"clock"`).
    pub id: &'static str,
    /// Human-readable display name.
    pub name: &'static str,
    /// Short description of what the module shows.
    pub description: &'static str,
}

/// Configuration for all modules (serialized in the config file).
#[derive(Debug, Clone, PartialEq)]
pub struct ModulesConfig {
    /// Enable the clock module.
    pub clock_enabled: bool,
    /// Clock display format (strftime-compatible).
    pub clock_format: String,
    /// Enable the system stats module.
    pub system_stats_enabled: bool,
    /// System stats refresh interval in milliseconds.
    pub stats_interval_ms: u64,
    /// Enable the overlay-only FPS counter.
    pub fps_enabled: bool,
}

/// Modules are enabled by default.
pub fn default_true() -> (r: bool)
    ensures
        r,
{
    true
}

/// Default clock format: `"%H:%M:%S"`.
pub fn default_clock_format() -> (r: String)
    ensures
        r@ == "%H:%M:%S"@,
{
    String::from_str("%H:%M:%S")
}

/// Default stats refresh interval: 2000 ms.
pub fn default_stats_interval_ms() -> (r: u64)
    ensures
        r == 2000,
{
    2000
}

impl Default for ModulesConfig {
    fn default() -> (r: Self)
        ensures
            r.clock_enabled,
            r.clock_format@ == "%H:%M:%S"@,
            r.system_stats_enabled,
            r.stats_interval_ms == 2000,
            r.fps_enabled,
    {
        ModulesConfig {
            clock_enabled: default_true(),
            clock_format: default_clock_format(),
            system_stats_enabled: default_true(),
            stats_interval_ms: default_stats_interval_ms(),
            fps_enabled: default_true(),
        }
    }
}

/// Remove each of `ids` from the scene, in order, leaving `ids` empty.
pub fn remove_nodes<N>(scene: &mut Scene<N>, ids: &mut Vec<NodeId>)
    ensures
        final(scene)@ == old(scene)@.after_remove_all(old(ids)@),
        final(ids)@.len() == 0,
{
    let ghost all = ids@;
    let ghost start = scene@;
    let n = ids.len();
    let mut i: usize = 0;
    proof {
        assert(all.skip(0) =~= all);
    }
    while i < n
        invariant
            n == all.len(),
            all == ids@,
            0 <= i <= n,
            start.after_remove_all(all) == scene@.after_remove_all(all.skip(i as int)),
        decreases n - i,
    {
        let id = ids[i];
        proof {
            assert(all.skip(i as int)[0] == id);
            assert(all.skip(i as int).drop_first() =~= all.skip(i + 1));
        }
        scene.remove(id);
        i += 1;
    }
    proof {
        assert(all.skip(n as int) =~= Seq::<NodeId>::empty());
    }
    ids.clear();
}

} // verus!
