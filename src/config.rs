use vstd::prelude::*;

verus! {

/// Policy for the `IPV6_V6ONLY` flag of an endpoint's socket.
#[derive(Clone, Copy, Debug, PartialEq, Eq, Structural)]
pub enum Ipv6DualStackConfig {
    /// Leave the flag as the operating system sets it.
    OsDefault,
    /// The socket accepts IPv6 traffic only.
    Deny,
    /// The socket accepts both IPv4 and IPv6 traffic.
    Allow,
}

/// How a UDP socket is to be created and configured before it is bound.
#[derive(Clone, Copy, Debug, PartialEq, Eq, Structural)]
pub struct SocketPlan {
    /// Address family of the socket: `true` for IPv6, `false` for IPv4.
    pub ipv6: bool,
    /// Value to give the `IPV6_V6ONLY` flag, or `None` to leave it untouched.
    pub only_v6: Option<bool>,
}

/// The value of `IPV6_V6ONLY` that a dual-stack policy asks for.
pub open spec fn only_v6_of(config: Ipv6DualStackConfig) -> Option<bool> {
    match config {
        Ipv6DualStackConfig::OsDefault => None,
        Ipv6DualStackConfig::Deny => Some(true),
        Ipv6DualStackConfig::Allow => Some(false),
    }
}

impl SocketPlan {
    /// The socket for a bind address of the given family under a dual-stack policy.
    ///
    /// The family follows the bind address; the policy is applied whatever the
    /// family (on IPv4 its effect is left to the platform).
    pub fn new(bind_ipv6: bool, dual_stack_config: Ipv6DualStackConfig) -> (r: SocketPlan)
        ensures
            r.ipv6 == bind_ipv6,
            r.only_v6 == only_v6_of(dual_stack_config),
    {
        let only_v6 = match dual_stack_config {
            Ipv6DualStackConfig::OsDefault => None,
            Ipv6DualStackConfig::Deny => Some(true),
            Ipv6DualStackConfig::Allow => Some(false),
        };
        SocketPlan { ipv6: bind_ipv6, only_v6 }
    }
}

} // verus!
