//! The resume command: how checkpoints of interrupted deployments are
//! listed and what is reported about them. Storage and prompts are the
//! caller's.

use vstd::prelude::*;
use crate::deployment::checkpoint::{completed_phases_text, phase_name, DeploymentPhase};
use crate::text::{push_str, to_owned_string};

verus! {

/// Lists completed phases.
pub fn format_completed_phases(phases: &[DeploymentPhase]) -> (r: String)
    ensures
        r@ == completed_phases_text(phases@),
{
    if phases.len() == 0 {
        return to_owned_string("none");
    }
    let mut names: Vec<String> = Vec::new();
    let mut i: usize = 0;
    while i < phases.len()
        invariant
            i <= phases@.len(),
            crate::text::seq_views(names@) == phases@.map_values(|p: DeploymentPhase| phase_name(p)).take(i as int),
        decreases phases.len() - i,
    {
        let ghost before = names@;
        names.push(phases[i].to_string());
        assert(crate::text::seq_views(names@) =~= crate::text::seq_views(before).push(phase_name(phases@[i as int])));
        assert(phases@.map_values(|p: DeploymentPhase| phase_name(p)).take(i + 1)
            =~= phases@.map_values(|p: DeploymentPhase| phase_name(p)).take(i as int).push(phase_name(phases@[i as int])));
        i = i + 1;
    }
    assert(phases@.map_values(|p: DeploymentPhase| phase_name(p)).take(phases@.len() as int)
        =~= phases@.map_values(|p: DeploymentPhase| phase_name(p)));
    crate::text::join_strings(&names, ", ")
}

/// The error of a deployment without a checkpoint.
pub fn no_checkpoint_error(deployment_id: &str) -> (r: String)
    ensures
        r@ == "No checkpoint found for deployment '"@ + deployment_id@ + "'"@,
{
    let mut m = to_owned_string("No checkpoint found for deployment '");
    push_str(&mut m, deployment_id);
    push_str(&mut m, "'");
    m
}

/// The error of a checkpoint that cannot be resumed.
pub fn not_resumable_error(deployment_id: &str, phase: DeploymentPhase) -> (r: String)
    ensures
        r@ == "Deployment '"@ + deployment_id@ + "' cannot be resumed (phase: "@ + phase_name(phase) + ")"@,
{
    let mut m = to_owned_string("Deployment '");
    push_str(&mut m, deployment_id);
    push_str(&mut m, "' cannot be resumed (phase: ");
    push_str(&mut m, phase.as_str());
    push_str(&mut m, ")");
    m
}

/// A line of the menu of resumable deployments: the deployment, its
/// phase, and its error or "in progress".
pub fn resume_menu_line(deployment_id: &str, phase: DeploymentPhase, error: &Option<String>) -> (r: String)
    ensures
        r@ == deployment_id@ + " - "@ + phase_name(phase) + " ("@ + (match *error {
            Some(e) => "error: "@ + e@,
            None => "in progress"@,
        }) + ")"@,
{
    let mut m = to_owned_string(deployment_id);
    push_str(&mut m, " - ");
    push_str(&mut m, phase.as_str());
    push_str(&mut m, " (");
    match error {
        Some(e) => {
            push_str(&mut m, "error: ");
            push_str(&mut m, e.as_str());
        },
        None => push_str(&mut m, "in progress"),
    }
    push_str(&mut m, ")");
    m
}

} // verus!
