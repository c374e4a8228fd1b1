//! Capabilities that tools declare, and the per-session claims that allow
//! them.

use vstd::prelude::*;

verus! {

/// A class of effect that a tool may exercise.
#[derive(Clone, Copy, Debug, PartialEq, Eq, Structural)]
pub enum ToolCapability {
    Read,
    Write,
    Network,
}

/// The authorization state of one agent session: the capabilities granted so
/// far, and whether checks are bypassed altogether.
#[derive(Clone, Copy, Debug)]
pub struct ClaimManager {
    read: bool,
    write: bool,
    network: bool,
    sudo: bool,
}

impl ClaimManager {
    /// The capability `c` has been granted.
    pub closed spec fn granted(&self, c: ToolCapability) -> bool {
        match c {
            ToolCapability::Read => self.read,
            ToolCapability::Write => self.write,
            ToolCapability::Network => self.network,
        }
    }

    /// Checks are bypassed.
    pub closed spec fn in_sudo(&self) -> bool {
        self.sudo
    }

    /// A use of `c` is allowed.
    pub open spec fn permits(&self, c: ToolCapability) -> bool {
        self.in_sudo() || self.granted(c)
    }

    /// Checked mode, nothing granted.
    pub fn new() -> (r: ClaimManager)
        ensures
            !r.in_sudo(),
            forall|c: ToolCapability| !r.granted(c),
    {
        ClaimManager { read: false, write: false, network: false, sudo: false }
    }

    /// Grants `c`. Once in sudo mode the policy no longer changes.
    pub fn grant(&mut self, c: ToolCapability)
        ensures
            old(self).in_sudo() ==> *final(self) == *old(self),
            !old(self).in_sudo() ==> final(self).granted(c) && !final(self).in_sudo(),
            !old(self).in_sudo() ==> forall|d: ToolCapability| d != c ==> final(self).granted(d) == old(self).granted(d),
    {
        if self.sudo {
            return;
        }
        match c {
            ToolCapability::Read => self.read = true,
            ToolCapability::Write => self.write = true,
            ToolCapability::Network => self.network = true,
        }
    }

    /// Withdraws `c`. Once in sudo mode the policy no longer changes.
    pub fn revoke(&mut self, c: ToolCapability)
        ensures
            old(self).in_sudo() ==> *final(self) == *old(self),
            !old(self).in_sudo() ==> !final(self).granted(c) && !final(self).in_sudo(),
            !old(self).in_sudo() ==> forall|d: ToolCapability| d != c ==> final(self).granted(d) == old(self).granted(d),
    {
        if self.sudo {
            return;
        }
        match c {
            ToolCapability::Read => self.read = false,
            ToolCapability::Write => self.write = false,
            ToolCapability::Network => self.network = false,
        }
    }

    /// Bypasses every later check.
    pub fn sudo(&mut self)
        ensures
            final(self).in_sudo(),
            forall|c: ToolCapability| final(self).granted(c) == old(self).granted(c),
    {
        self.sudo = true;
    }

    pub fn is_sudo(&self) -> (r: bool)
        ensures
            r == self.in_sudo(),
    {
        self.sudo
    }

    pub fn is_granted(&self, c: ToolCapability) -> (r: bool)
        ensures
            r == self.granted(c),
    {
        match c {
            ToolCapability::Read => self.read,
            ToolCapability::Write => self.write,
            ToolCapability::Network => self.network,
        }
    }

    pub fn allows(&self, c: ToolCapability) -> (r: bool)
        ensures
            r == self.permits(c),
    {
        self.sudo || self.is_granted(c)
    }

    /// The first capability of `caps` that is not allowed, if any.
    pub fn first_denied(&self, caps: &Vec<ToolCapability>) -> (r: Option<ToolCapability>)
        ensures
            r is None <==> forall|i: int| 0 <= i < caps@.len() ==> self.permits(#[trigger] caps@[i]),
            r matches Some(c) ==> exists|i: int|
                0 <= i < caps@.len() && caps@[i] == c && !self.permits(c)
                && forall|j: int| 0 <= j < i ==> self.permits(#[trigger] caps@[j]),
    {
        let mut i: usize = 0;
        while i < caps.len()
            invariant
                i <= caps@.len(),
                forall|j: int| 0 <= j < i ==> self.permits(#[trigger] caps@[j]),
            decreases caps@.len() - i,
        {
            let c = caps[i];
            if !self.allows(c) {
                return Some(c);
            }
            i += 1;
        }
        None
    }
}

impl ToolCapability {
    /// The capability's name as tools and messages spell it.
    pub fn name(&self) -> (r: &'static str)
        ensures
            r@ == capability_name(*self),
    {
        match self {
            ToolCapability::Read => "Read",
            ToolCapability::Write => "Write",
            ToolCapability::Network => "Network",
        }
    }
}

pub open spec fn capability_name(c: ToolCapability) -> Seq<char> {
    match c {
        ToolCapability::Read => "Read"@,
        ToolCapability::Write => "Write"@,
        ToolCapability::Network => "Network"@,
    }
}

} // verus!
