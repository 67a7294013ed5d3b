//! Built-in profiles.
use vstd::prelude::*;

use crate::profile::Profile;
use crate::text::push_char;
use crate::util::frc::{rio, TeamNumber};

verus! {

/// The team number of Citrus Circuits.
pub const CITRUS_TEAM: u16 = 1678;

/// Team 1678, Citrus Circuits: profile `citrus`, logs in `/U/logs` on the roboRIO.
pub fn citrus_circuits() -> (p: Profile)
    ensures
        p.name@ == seq!['c', 'i', 't', 'r', 'u', 's'],
        p.team.spec_number() == CITRUS_TEAM,
        p.logs@ == seq!['/', 'U', '/', 'l', 'o', 'g', 's'],
        p.controller.hostid == 2,
        p.controller.username@ == seq!['a', 'd', 'm', 'i', 'n'],
        p.controller.password@ == Seq::<char>::empty(),
{
    let team = TeamNumber::new(CITRUS_TEAM).unwrap();
    let mut name = String::new();
    push_char(&mut name, 'c');
    push_char(&mut name, 'i');
    push_char(&mut name, 't');
    push_char(&mut name, 'r');
    push_char(&mut name, 'u');
    push_char(&mut name, 's');
    let mut logs = String::new();
    push_char(&mut logs, '/');
    push_char(&mut logs, 'U');
    push_char(&mut logs, '/');
    push_char(&mut logs, 'l');
    push_char(&mut logs, 'o');
    push_char(&mut logs, 'g');
    push_char(&mut logs, 's');
    Profile { name, team, logs, controller: rio() }
}

/// Citrus Circuits is team 1678.
pub proof fn lemma_citrus_team()
    ensures
        CITRUS_TEAM == 1678,
{
}

} // verus!
