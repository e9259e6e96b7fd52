//! The rewriting interface and its result.
use vstd::prelude::*;

verus! {

/// The three parts of a successful rewrite.
pub struct RewriteView {
    pub original: Seq<char>,
    pub prefix: Seq<char>,
    pub target_hostname: Seq<char>,
}

/// Result of an SNI rewrite.
#[derive(Debug)]
pub struct RewriteResult {
    /// The hostname the client presented.
    pub original: String,
    /// The part before the matched base domain (e.g. `www` of `www.example.org`).
    pub prefix: String,
    /// The hostname to forward to (e.g. `www.example.cn`).
    pub target_hostname: String,
}

impl View for RewriteResult {
    type V = RewriteView;

    open spec fn view(&self) -> RewriteView {
        RewriteView {
            original: self.original@,
            prefix: self.prefix@,
            target_hostname: self.target_hostname@,
        }
    }
}

/// Maps a client hostname to the hostname to forward to.
pub trait SniRewriter {
    /// The rewriter's state is consistent.
    spec fn ready(&self) -> bool;

    /// Rewrite `sni`; `None` when it cannot be forwarded.
    fn rewrite(&mut self, sni: &str) -> (r: Option<RewriteResult>)
        requires
            old(self).ready(),
        ensures
            final(self).ready(),
    ;
}

} // verus!
