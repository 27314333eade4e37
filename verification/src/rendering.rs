//! The scene builder: once per frame, after the world state is finalized and
//! before rendering, it rebuilds the scene's object mapping from scratch,
//! then records the cursor, the drained log entries and the elapsed time.

use vstd::prelude::*;

use crate::scene::LogEntry;
use crate::scene::Location;
use crate::scene::SceneData;
use crate::scene::SceneEntry;
use crate::scene::bounded_log;
use crate::scene::contributed;

verus! {

pub struct RenderingSystem {}

impl RenderingSystem {
    pub fn new() -> RenderingSystem {
        RenderingSystem {  }
    }

    /// One scene-builder pass: clear the object mapping, contribute every
    /// entry in order, set the cursor, absorb the drained log entries and
    /// stamp the elapsed time. The resulting mapping holds exactly this
    /// pass's contributions — nothing leaks from earlier frames.
    pub fn run_with(
        &mut self,
        scene: &mut SceneData,
        entries: &Vec<SceneEntry>,
        cursor: Location,
        new_log: Vec<LogEntry>,
        time_ms: u64,
    )
        requires
            old(scene).wf(),
        ensures
            final(scene).wf(),
            final(scene).entries_view() == entries@,
            forall|loc: Location| final(scene).objects_at(loc) == contributed(entries@, loc),
            final(scene).cursor_spec() == cursor,
            final(scene).log_view() == bounded_log(old(scene).log_view() + new_log@),
            final(scene).time_spec() == time_ms,
    {
        scene.clear_objects();
        let n = entries.len();
        let mut i: usize = 0;
        proof {
            assert(scene.entries_view() =~= entries@.take(0));
        }
        while i < n
            invariant
                scene.wf(),
                n == entries@.len(),
                0 <= i <= n,
                scene.entries_view() == entries@.take(i as int),
                scene.cursor_spec() == old(scene).cursor_spec(),
                scene.log_view() == old(scene).log_view(),
                scene.time_spec() == old(scene).time_spec(),
            decreases n - i,
        {
            let e = entries[i];
            scene.add_object_to_location(e.location, e.object, e.z_index);
            proof {
                assert(scene.entries_view() =~= entries@.take(i + 1));
            }
            i += 1;
        }
        proof {
            assert(entries@.take(n as int) =~= entries@);
        }
        scene.update(cursor, new_log, time_ms);
    }
}

/// No leakage across frames: two scenes built from the same contributions
/// map every location to the same objects, whatever either held before.
pub proof fn lemma_no_stale_objects(s1: SceneData, s2: SceneData)
    requires
        s1.entries_view() == s2.entries_view(),
    ensures
        forall|loc: Location| s1.objects_at(loc) == s2.objects_at(loc),
{
}

} // verus!
