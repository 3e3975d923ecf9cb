//! Core data values: a connected player, the reputation verdict the
//! external IP-quality service returns for one IP address, and the error
//! taxonomy of a lookup or a roster fetch.

use vstd::prelude::*;

verus! {

/// One player currently connected to the monitored game server, as read
/// from one row of the web-admin roster table.
#[derive(Debug, PartialEq, Eq)]
pub struct Player {
    pub name: String,
    pub ip: String,
    pub steam_id: String,
}

/// Mathematical image of a `Player`.
pub ghost struct PlayerView {
    pub name: Seq<char>,
    pub ip: Seq<char>,
    pub steam_id: Seq<char>,
}

impl View for Player {
    type V = PlayerView;

    open spec fn view(&self) -> PlayerView {
        PlayerView { name: self.name@, ip: self.ip@, steam_id: self.steam_id@ }
    }
}

impl Clone for Player {
    fn clone(&self) -> (r: Self)
        ensures
            r == *self,
    {
        Player { name: self.name.clone(), ip: self.ip.clone(), steam_id: self.steam_id.clone() }
    }
}

/// The parsed body of one reputation response: the country the IP is
/// registered in and whether the service scored it as a proxy or a VPN.
#[derive(Debug, PartialEq, Eq)]
pub struct IpQualityApiResponse {
    pub country_code: String,
    pub proxy: bool,
    pub vpn: bool,
}

/// Mathematical image of an `IpQualityApiResponse`.
pub ghost struct ResponseView {
    pub country_code: Seq<char>,
    pub proxy: bool,
    pub vpn: bool,
}

impl View for IpQualityApiResponse {
    type V = ResponseView;

    open spec fn view(&self) -> ResponseView {
        ResponseView { country_code: self.country_code@, proxy: self.proxy, vpn: self.vpn }
    }
}

impl IpQualityApiResponse {
    /// A player is flagged when the service scored the IP as a proxy or a VPN.
    pub open spec fn spec_flagged(&self) -> bool {
        self.proxy || self.vpn
    }

    pub fn is_flagged(&self) -> (r: bool)
        ensures
            r == self.spec_flagged(),
    {
        self.proxy || self.vpn
    }
}

impl Clone for IpQualityApiResponse {
    fn clone(&self) -> (r: Self)
        ensures
            r == *self,
    {
        IpQualityApiResponse {
            country_code: self.country_code.clone(),
            proxy: self.proxy,
            vpn: self.vpn,
        }
    }
}

/// Why one reputation lookup failed. Neither variant writes to the cache,
/// so a later lookup for the same IP retries the service.
#[derive(Debug, PartialEq, Eq)]
pub enum LookupError {
    /// The outbound call failed at the network or HTTP layer; the payload
    /// is a human-readable description of the transport failure.
    Transport(String),
    /// The response body arrived but did not match the expected shape.
    Decode(String),
}

impl Clone for LookupError {
    fn clone(&self) -> (r: Self)
        ensures
            r == *self,
    {
        match self {
            LookupError::Transport(m) => LookupError::Transport(m.clone()),
            LookupError::Decode(m) => LookupError::Decode(m.clone()),
        }
    }
}

/// Why one roster scan could not produce a player list.
#[derive(Clone, Copy, Debug, PartialEq, Eq, Structural)]
pub enum RosterError {
    /// A CSS selector used to pick out the roster table did not compile.
    Selector,
    /// A table row held fewer than the six columns the page lays out.
    MalformedRow,
}

} // verus!
