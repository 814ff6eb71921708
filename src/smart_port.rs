use vstd::prelude::*;

verus! {

/// The lowest smart port number.
pub const FIRST_PORT: u8 = 1;

/// The highest smart port number.
pub const LAST_PORT: u8 = 21;

/// An unconfigured smart port of the controller, numbered from 1 to 21.
pub struct SmartPort {
    port: u8,
}

impl SmartPort {
    /// The number of the port.
    pub closed spec fn number(&self) -> u8 {
        self.port
    }

    /// Whether `port` names a smart port.
    pub open spec fn valid(port: u8) -> bool {
        FIRST_PORT <= port <= LAST_PORT
    }

    /// The smart port numbered `port`, which must name one.
    pub fn new(port: u8) -> (r: SmartPort)
        requires
            Self::valid(port),
        ensures
            r.number() == port,
    {
        SmartPort { port }
    }

    /// The smart port numbered `port`, or `None` when no port has that number.
    pub fn checked(port: u8) -> (r: Option<SmartPort>)
        ensures
            r is Some <==> Self::valid(port),
            r matches Some(p) ==> p.number() == port,
    {
        if FIRST_PORT <= port && port <= LAST_PORT {
            Some(SmartPort { port })
        } else {
            None
        }
    }

    /// The number of the port.
    pub fn port(&self) -> (r: u8)
        ensures
            r == self.number(),
    {
        self.port
    }
}

} // verus!
