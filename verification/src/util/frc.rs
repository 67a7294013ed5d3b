//! FRC robot conventions: team numbers, their network addresses, and robot controllers.
use vstd::prelude::*;

verus! {

/// The largest team number whose `10.TE.AM.x` address fits in four octets.
pub const MAX_TEAM: u16 = 25599;

/// An FRC team number, such as 1678.
#[derive(Clone, Copy, Debug, PartialEq, Eq, Structural)]
pub struct TeamNumber {
    number: u16,
}

impl TeamNumber {
    /// The team's number.
    pub closed spec fn spec_number(self) -> nat {
        self.number as nat
    }

    /// The number always fits the `10.TE.AM.x` address scheme.
    #[verifier::type_invariant]
    spec fn fits_address(self) -> bool {
        self.number <= MAX_TEAM
    }

    /// The team with this number, or `None` for a number past `MAX_TEAM`.
    pub fn new(number: u16) -> (r: Option<TeamNumber>)
        ensures
            number <= MAX_TEAM <==> r is Some,
            r matches Some(t) ==> t.spec_number() == number,
    {
        if number <= MAX_TEAM {
            Some(TeamNumber { number })
        } else {
            None
        }
    }

    /// The team's number.
    pub fn number(&self) -> (n: u16)
        ensures
            n == self.spec_number(),
    {
        self.number
    }

    /// The IPv4 address, as four octets, of device `hostid` on the team's robot network:
    /// `10.TE.AM.hostid`, where `TE.AM` is the team number split after its hundreds.
    pub fn v4addr(&self, hostid: u8) -> (octets: [u8; 4])
        ensures
            octets@ == seq![
                10u8,
                (self.spec_number() / 100) as u8,
                (self.spec_number() % 100) as u8,
                hostid,
            ],
    {
        proof {
            use_type_invariant(self);
        }
        [10, (self.number / 100) as u8, (self.number % 100) as u8, hostid]
    }
}

/// A robot controller that the tool logs into: its host number on the team network and
/// the credentials of its SSH login.
#[derive(Debug)]
pub struct Controller {
    pub hostid: u8,
    pub username: String,
    pub password: String,
}

impl Clone for Controller {
    fn clone(&self) -> (r: Self)
        ensures
            r.hostid == self.hostid,
            r.username@ == self.username@,
            r.password@ == self.password@,
    {
        Controller {
            hostid: self.hostid,
            username: self.username.clone(),
            password: self.password.clone(),
        }
    }
}

/// The roboRIO: host 2 of the team network, logged into as `admin` with an empty password.
pub fn rio() -> (c: Controller)
    ensures
        c.hostid == 2,
        c.username@ == seq!['a', 'd', 'm', 'i', 'n'],
        c.password@ == Seq::<char>::empty(),
{
    let mut username = String::new();
    crate::text::push_char(&mut username, 'a');
    crate::text::push_char(&mut username, 'd');
    crate::text::push_char(&mut username, 'm');
    crate::text::push_char(&mut username, 'i');
    crate::text::push_char(&mut username, 'n');
    Controller { hostid: 2, username, password: String::new() }
}

/// A team number has a robot network exactly when its hundreds fit in one octet: the largest
/// such number is 25599 (address `10.255.99.x`).
pub proof fn lemma_team_fits_address(number: u16)
    ensures
        number <= MAX_TEAM <==> number / 100 <= 255,
        MAX_TEAM == 25599,
{
}

} // verus!
