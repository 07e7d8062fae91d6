use vstd::prelude::*;

verus! {

/// The base address of the service: a bare GET to it is the health probe,
/// and the main surface is sent to it once the service is ready.
pub const BASE_ADDRESS: &'static str = "http://localhost:8000";

/// The address that asks the service to stop gracefully.
pub const SHUTDOWN_ADDRESS: &'static str = "http://localhost:8000/shutdown";

/// The graceful-stop address is the `/shutdown` path under the base address.
pub proof fn lemma_shutdown_under_base()
    ensures
        SHUTDOWN_ADDRESS@ == BASE_ADDRESS@ + "/shutdown"@,
{
    reveal_strlit("http://localhost:8000");
    reveal_strlit("http://localhost:8000/shutdown");
    reveal_strlit("/shutdown");
    assert(SHUTDOWN_ADDRESS@ =~= BASE_ADDRESS@ + "/shutdown"@);
}

} // verus!
