//! Robot profiles: which team's robot to reach, where its logs lie, and how to log in.
pub mod profiles;

use vstd::prelude::*;

use crate::util::frc::{Controller, TeamNumber};

verus! {

/// The SSH port that the tool connects to.
pub const SSH_PORT: u16 = 22;

/// A named robot setup: the team, the directory on the robot that holds its logs, and the
/// controller to log into.
#[derive(Debug)]
pub struct Profile {
    pub name: String,
    pub team: TeamNumber,
    pub logs: String,
    pub controller: Controller,
}

/// Where and as whom an SSH session for a profile logs in.
#[derive(Debug)]
pub struct SshInputs {
    /// The IPv4 address, as four octets.
    pub ip: [u8; 4],
    pub port: u16,
    pub username: String,
    pub password: String,
}

impl Clone for Profile {
    fn clone(&self) -> (r: Self)
        ensures
            r.name@ == self.name@,
            r.team == self.team,
            r.logs@ == self.logs@,
            r.controller.hostid == self.controller.hostid,
            r.controller.username@ == self.controller.username@,
            r.controller.password@ == self.controller.password@,
    {
        Profile {
            name: self.name.clone(),
            team: self.team,
            logs: self.logs.clone(),
            controller: self.controller.clone(),
        }
    }
}

impl Profile {
    /// The profile's name.
    pub fn name(&self) -> (r: String)
        ensures
            r@ == self.name@,
    {
        self.name.clone()
    }

    /// The profile's team.
    pub fn team(&self) -> (r: TeamNumber)
        ensures
            r == self.team,
    {
        self.team
    }

    /// The directory on the robot that holds the logs.
    pub fn logs(&self) -> (r: String)
        ensures
            r@ == self.logs@,
    {
        self.logs.clone()
    }

    /// The controller to log into.
    pub fn controller(&self) -> (r: Controller)
        ensures
            r.hostid == self.controller.hostid,
            r.username@ == self.controller.username@,
            r.password@ == self.controller.password@,
    {
        self.controller.clone()
    }

    /// The login for this profile: port 22 at the controller's address on the team network,
    /// with the controller's credentials.
    pub fn ssh_inputs(&self) -> (r: SshInputs)
        ensures
            r.ip@ == seq![
                10u8,
                (self.team.spec_number() / 100) as u8,
                (self.team.spec_number() % 100) as u8,
                self.controller.hostid,
            ],
            r.port == SSH_PORT,
            r.username@ == self.controller.username@,
            r.password@ == self.controller.password@,
    {
        let controller = self.controller();
        SshInputs {
            ip: self.team().v4addr(controller.hostid),
            port: SSH_PORT,
            username: controller.username,
            password: controller.password,
        }
    }
}

/// The tool logs in over SSH's standard port, 22.
pub proof fn lemma_ssh_port()
    ensures
        SSH_PORT == 22,
{
}

} // verus!
