//! Scanning for the robot: search until it answers, log in, show the menu, and start over.
//! A scan never ends; the network and terminal work is the caller's.
use vstd::prelude::*;

verus! {

/// How long one search waits for the robot, in milliseconds.
pub const SEARCH_TIMEOUT_MS: u64 = 200;

/// Where a scan stands.
#[derive(Clone, Copy, Debug, PartialEq, Eq, Structural)]
pub enum ScanStage {
    Begin,
    Searching,
    Spawning,
    Menu,
}

/// The outcome of the last outside work.
#[derive(Clone, Copy, Debug, PartialEq, Eq, Structural)]
pub enum ScanEvent {
    Start,
    /// Whether the robot's SSH port answered in time.
    Found(bool),
    /// Whether the SSH client was spawned.
    Spawned(bool),
    MenuShown,
}

/// The work that a scan asks for next.
#[derive(Clone, Copy, Debug, PartialEq, Eq, Structural)]
pub enum ScanCommand {
    /// Try to reach the robot's SSH port within `timeout_ms`.
    Search { timeout_ms: u64 },
    /// Spawn the SSH client.
    Spawn,
    /// Show the menu of what can be done.
    ShowMenu,
}

/// What a scan at `stage` does on `event`: search until the robot answers, then spawn the
/// client; a spawned client gets the menu; after the menu, or a client that failed to spawn,
/// the scan searches again.
pub open spec fn scan_next(stage: ScanStage, event: ScanEvent) -> (ScanStage, ScanCommand) {
    let search = (ScanStage::Searching, ScanCommand::Search { timeout_ms: SEARCH_TIMEOUT_MS });
    match stage {
        ScanStage::Searching => if event == ScanEvent::Found(true) {
            (ScanStage::Spawning, ScanCommand::Spawn)
        } else {
            search
        },
        ScanStage::Spawning => if event == ScanEvent::Spawned(true) {
            (ScanStage::Menu, ScanCommand::ShowMenu)
        } else {
            search
        },
        _ => search,
    }
}

/// One step of a scan: its next stage and the work it asks for now.
pub fn scan(stage: ScanStage, event: ScanEvent) -> (r: (ScanStage, ScanCommand))
    ensures
        r == scan_next(stage, event),
{
    let search = (ScanStage::Searching, ScanCommand::Search { timeout_ms: SEARCH_TIMEOUT_MS });
    match stage {
        ScanStage::Searching => {
            if event == ScanEvent::Found(true) {
                (ScanStage::Spawning, ScanCommand::Spawn)
            } else {
                search
            }
        },
        ScanStage::Spawning => {
            if event == ScanEvent::Spawned(true) {
                (ScanStage::Menu, ScanCommand::ShowMenu)
            } else {
                search
            }
        },
        _ => search,
    }
}

/// Every search of a scan waits 200 ms, and a scan never stops: every step asks for more work.
pub proof fn lemma_scan_searches(stage: ScanStage, event: ScanEvent)
    ensures
        scan_next(stage, event).1 matches ScanCommand::Search { timeout_ms } ==> timeout_ms
            == SEARCH_TIMEOUT_MS && SEARCH_TIMEOUT_MS == 200,
        scan_next(stage, event).0 != ScanStage::Begin,
{
}

/// A scan searches until the robot answers, then spawns the client; a spawned client gets the
/// menu; after the menu, or a client that failed to spawn, it searches again (200 ms).
pub proof fn lemma_scan_cycle(event: ScanEvent)
    ensures
        scan_next(ScanStage::Begin, event) == (
            ScanStage::Searching,
            ScanCommand::Search { timeout_ms: 200 },
        ),
        scan_next(ScanStage::Searching, ScanEvent::Found(true)) == (
            ScanStage::Spawning,
            ScanCommand::Spawn,
        ),
        scan_next(ScanStage::Searching, ScanEvent::Found(false)) == (
            ScanStage::Searching,
            ScanCommand::Search { timeout_ms: 200 },
        ),
        scan_next(ScanStage::Spawning, ScanEvent::Spawned(true)) == (
            ScanStage::Menu,
            ScanCommand::ShowMenu,
        ),
        scan_next(ScanStage::Spawning, ScanEvent::Spawned(false)) == (
            ScanStage::Searching,
            ScanCommand::Search { timeout_ms: 200 },
        ),
        scan_next(ScanStage::Menu, ScanEvent::MenuShown) == (
            ScanStage::Searching,
            ScanCommand::Search { timeout_ms: 200 },
        ),
{
}

} // verus!
