//! Building the rewriter the front-ends share.
use crate::config::RewriteConfig;
use crate::rewriters::BaseSniRewriter;
use vstd::prelude::*;

verus! {

/// The rewriter type the front-ends use.
pub type SniRewriterType = BaseSniRewriter;

/// A rewriter for `config`, with nothing remembered yet.
pub fn create_rewriter(config: RewriteConfig) -> (r: SniRewriterType)
    ensures
        r.wf(),
        r.bases() == config.bases(),
        r.suffix() == config.target_suffix@,
        r.passthrough() == config.is_passthrough(),
        r.cache().dom() == Set::<Seq<char>>::empty(),
{
    BaseSniRewriter::new(config)
}

} // verus!
