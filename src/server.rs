//! Which front-ends the supervisor starts, and where.
use crate::config::{ServerPortConfig, ServersConfig};
use crate::text::{decimal, decimal_text};
use vstd::prelude::*;

verus! {

/// One listening front-end.
#[derive(Debug, PartialEq, Eq, Structural, Clone, Copy)]
pub enum Frontend {
    Healthcheck,
    Dot,
    Doh,
    Doq,
    Doh3,
}

/// The front-ends to start, in start order, as the configuration enables them.
pub open spec fn enabled_frontends(s: &ServersConfig) -> Seq<Frontend> {
    let a = if s.healthcheck.enabled { seq![Frontend::Healthcheck] } else { Seq::empty() };
    let b = if s.dot.enabled { seq![Frontend::Dot] } else { Seq::empty() };
    let c = if s.doh.enabled { seq![Frontend::Doh] } else { Seq::empty() };
    let d = if s.doq.enabled { seq![Frontend::Doq] } else { Seq::empty() };
    let e = if s.doh3.enabled { seq![Frontend::Doh3] } else { Seq::empty() };
    a + b + c + d + e
}

/// Starts front-ends: decides which, and formats where they listen.
pub struct ServerStarter;

impl ServerStarter {
    /// The front-ends to start; a disabled one is skipped.
    pub fn frontends(servers: &ServersConfig) -> (r: Vec<Frontend>)
        ensures
            r@ == enabled_frontends(servers),
    {
        let mut r: Vec<Frontend> = Vec::new();
        if servers.healthcheck.enabled {
            r.push(Frontend::Healthcheck);
        }
        if servers.dot.enabled {
            r.push(Frontend::Dot);
        }
        if servers.doh.enabled {
            r.push(Frontend::Doh);
        }
        if servers.doq.enabled {
            r.push(Frontend::Doq);
        }
        if servers.doh3.enabled {
            r.push(Frontend::Doh3);
        }
        assert(r@ =~= enabled_frontends(servers));
        r
    }

    /// `address:port`.
    pub fn bind_addr(bind_address: &str, port: u16) -> (r: String)
        ensures
            r@ == bind_address@ + ":"@ + decimal(port as nat),
    {
        let p = decimal_text(port as u64);
        bind_address.to_owned().concat(":").concat(p.as_str())
    }

    /// Where a front-end listens.
    pub fn listen_addr(config: &ServerPortConfig) -> (r: String)
        ensures
            r@ == config.bind_address@ + ":"@ + decimal(config.port as nat),
    {
        Self::bind_addr(config.bind_address.as_str(), config.port)
    }
}

} // verus!
