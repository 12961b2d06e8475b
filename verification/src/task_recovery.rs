//! Recovery of missions that a restart interrupted: any mission that was
//! still planning, executing or verifying is marked as failed.
use vstd::prelude::*;
use vstd::string::*;

use crate::routes::a2a::{Mission, TaskStatus};

verus! {

/// Whether a mission status is final.
pub open spec fn is_terminal(s: TaskStatus) -> bool {
    s is Completed || s is Failed || s is Cancelled
}

/// Name of a non-final status, as its `Debug` form writes it.
pub open spec fn status_name(s: TaskStatus) -> Seq<char> {
    match s {
        TaskStatus::Planning => "Planning"@,
        TaskStatus::Planned => "Planned"@,
        TaskStatus::Executing => "Executing"@,
        _ => "Verifying"@,
    }
}

/// Marks an interrupted mission as failed at `now` (RFC 3339), recording
/// its previous status; a finished mission is left alone. Tells whether
/// the mission was recovered.
pub fn recover_mission(mission: &mut Mission, now: String) -> (recovered: bool)
    ensures
        recovered == !is_terminal(old(mission).status),
        recovered ==> (final(mission).status matches TaskStatus::Failed { reason } && reason@
            == "interrupted by server restart (was "@ + status_name(old(mission).status) + ")"@)
            && final(mission).updated_at == now,
        !recovered ==> *final(mission) == *old(mission),
        final(mission).id == old(mission).id,
        final(mission).goal == old(mission).goal,
        final(mission).steps == old(mission).steps,
{
    let prev = match &mission.status {
        TaskStatus::Planning => "Planning",
        TaskStatus::Planned => "Planned",
        TaskStatus::Executing => "Executing",
        TaskStatus::Verifying => "Verifying",
        _ => {
            return false;
        },
    };
    let mut reason = "interrupted by server restart (was ".to_owned();
    reason.append(prev);
    reason.append(")");
    mission.status = TaskStatus::Failed { reason };
    mission.updated_at = now;
    true
}

} // verus!
