//! Indexing of pool deployments from contract events.

use vstd::prelude::*;

verus! {

/// The action topic of the event a factory emits when it deploys a pool.
pub open spec fn deployment_action() -> Seq<char> {
    "deployed"@
}

/// Whether an event with action topic `action` announces a pool deployment.
pub fn is_deployment(action: &str) -> (r: bool)
    ensures
        r == (action@ == deployment_action()),
{
    let action: String = action.to_owned();
    let deployed: String = "deployed".to_owned();
    action == deployed
}

/// A deployment is announced by the action `deployed`, and only by it.
pub proof fn law_deployment_action_is_deployed()
    ensures
        deployment_action() == seq!['d', 'e', 'p', 'l', 'o', 'y', 'e', 'd'],
{
    reveal_strlit("deployed");
    assert(deployment_action() =~= seq!['d', 'e', 'p', 'l', 'o', 'y', 'e', 'd']);
}

} // verus!
