//! The base-domain rewriter: strip a configured base domain, append the target suffix.
use crate::config::RewriteConfig;
use crate::sni::{RewriteResult, RewriteView, SniRewriter};
use crate::sni_cache::{cache_contents, cache_get, cache_insert, cache_new, SniMap};
use crate::text::{has_suffix, join2, same_text};
use vstd::prelude::*;

verus! {

/// The prefix left when `base` is stripped from `h` together with the dot before it,
/// provided that dot is there and the prefix is not empty.
pub open spec fn strip_base(h: Seq<char>, base: Seq<char>) -> Option<Seq<char>> {
    if h.len() > base.len() + 1 && has_suffix(h, base) && h[h.len() - base.len() - 1] == '.' {
        Some(h.subrange(0, h.len() - base.len() - 1))
    } else {
        None
    }
}

/// The prefix given by the first of `bases[i..]` that `h` ends with.
pub open spec fn first_prefix(h: Seq<char>, bases: Seq<Seq<char>>, i: int) -> Option<Seq<char>>
    decreases bases.len() - i,
{
    if i < 0 || i >= bases.len() {
        None
    } else {
        match strip_base(h, bases[i]) {
            Some(p) => Some(p),
            None => first_prefix(h, bases, i + 1),
        }
    }
}

/// A prefix found by base-domain stripping is never empty.
pub proof fn lemma_first_prefix_nonempty(h: Seq<char>, bases: Seq<Seq<char>>, i: int)
    ensures
        first_prefix(h, bases, i) matches Some(p) ==> p.len() > 0,
    decreases bases.len() - i,
{
    if 0 <= i < bases.len() && strip_base(h, bases[i]) is None {
        lemma_first_prefix_nonempty(h, bases, i + 1);
    }
}

/// The suffix begins with a dot.
pub open spec fn dotted(suffix: Seq<char>) -> bool {
    suffix.len() > 0 && suffix[0] == '.'
}

/// What rewriting `h` gives under a configuration.
pub open spec fn rewrite_of(
    h: Seq<char>,
    bases: Seq<Seq<char>>,
    suffix: Seq<char>,
    passthrough: bool,
) -> Option<RewriteView> {
    if h.len() == 0 || bases.len() == 0 || !dotted(suffix) {
        None
    } else {
        match first_prefix(h, bases, 0) {
            Some(p) => Some(RewriteView { original: h, prefix: p, target_hostname: p + suffix }),
            None => if passthrough {
                Some(RewriteView { original: h, prefix: Seq::empty(), target_hostname: h })
            } else {
                None
            },
        }
    }
}

/// `h` ends with a dot and `base`, with something before the dot.
pub open spec fn ends_with_dotted_base(h: Seq<char>, base: Seq<char>) -> bool {
    has_suffix(h, seq!['.'] + base) && h.len() > base.len() + 1
}

proof fn lemma_strip_base_iff(h: Seq<char>, base: Seq<char>)
    ensures
        strip_base(h, base) is Some <==> ends_with_dotted_base(h, base),
{
    let d = seq!['.'] + base;
    assert(d.len() == base.len() + 1);
    assert(d.subrange(1, d.len() as int) =~= base);
    assert(d[0] == '.');
    if h.len() > base.len() + 1 {
        let tail = h.subrange(h.len() - d.len(), h.len() as int);
        assert(tail.subrange(1, tail.len() as int) =~= h.subrange(
            h.len() - base.len(),
            h.len() as int,
        ));
        assert(tail[0] == h[h.len() - base.len() - 1]);
        if has_suffix(h, d) {
            assert(tail == d);
        }
        if has_suffix(h, base) && h[h.len() - base.len() - 1] == '.' {
            assert(tail =~= d);
        }
    }
}

proof fn lemma_first_prefix_some_iff(h: Seq<char>, bases: Seq<Seq<char>>, i: int)
    requires
        0 <= i <= bases.len(),
    ensures
        first_prefix(h, bases, i) is Some <==> exists|j: int|
            i <= j < bases.len() && #[trigger] ends_with_dotted_base(h, bases[j]),
    decreases bases.len() - i,
{
    if i < bases.len() {
        lemma_strip_base_iff(h, bases[i]);
        lemma_first_prefix_some_iff(h, bases, i + 1);
        if first_prefix(h, bases, i) is Some && strip_base(h, bases[i]) is Some {
            assert(ends_with_dotted_base(h, bases[i]));
        }
        if exists|j: int| i <= j < bases.len() && #[trigger] ends_with_dotted_base(h, bases[j]) {
            let j = choose|j: int| i <= j < bases.len() && #[trigger] ends_with_dotted_base(h, bases[j]);
            if j > i {
                assert(i + 1 <= j < bases.len() && ends_with_dotted_base(h, bases[j]));
            }
        }
    }
}

/// Under the error strategy, with a dotted target suffix, a hostname is rewritten
/// exactly when it ends with a dot and one of the base domains with a non-empty
/// prefix before it; the target is then that prefix followed by the suffix.
pub proof fn lemma_error_strategy_rewrite(h: Seq<char>, bases: Seq<Seq<char>>, suffix: Seq<char>)
    requires
        dotted(suffix),
    ensures
        rewrite_of(h, bases, suffix, false) is Some <==> exists|j: int|
            0 <= j < bases.len() && #[trigger] ends_with_dotted_base(h, bases[j]),
        rewrite_of(h, bases, suffix, false) matches Some(r) ==> r.prefix.len() > 0
            && r.target_hostname == r.prefix + suffix,
{
    lemma_first_prefix_some_iff(h, bases, 0);
    lemma_first_prefix_nonempty(h, bases, 0);
}

/// Under the passthrough strategy, a non-empty hostname that no base domain
/// matches is forwarded unchanged, with an empty prefix (given a usable
/// configuration: some base domain and a dotted suffix).
pub proof fn lemma_passthrough_rewrite(h: Seq<char>, bases: Seq<Seq<char>>, suffix: Seq<char>)
    requires
        h.len() > 0,
        bases.len() > 0,
        dotted(suffix),
        forall|j: int| 0 <= j < bases.len() ==> !#[trigger] ends_with_dotted_base(h, bases[j]),
    ensures
        rewrite_of(h, bases, suffix, true) == Some(
            RewriteView { original: h, prefix: Seq::empty(), target_hostname: h },
        ),
{
    lemma_first_prefix_some_iff(h, bases, 0);
}

/// The remembered rewrites after rewriting `h`: a prefix rewrite is added, nothing else is.
pub open spec fn cache_after(
    cache: Map<Seq<char>, Seq<char>>,
    h: Seq<char>,
    result: Option<RewriteView>,
) -> Map<Seq<char>, Seq<char>> {
    match result {
        Some(v) => if v.prefix.len() > 0 {
            cache.insert(h, v.target_hostname)
        } else {
            cache
        },
        None => cache,
    }
}

/// Rewrites hostnames by base-domain stripping and remembers each rewrite made.
pub struct BaseSniRewriter {
    config: RewriteConfig,
    /// Client hostname to upstream hostname, for every prefix rewrite made so far.
    pub sni_map: SniMap,
}

impl BaseSniRewriter {
    /// The configured base domains.
    pub closed spec fn bases(&self) -> Seq<Seq<char>> {
        self.config.bases()
    }

    /// The configured target suffix.
    pub closed spec fn suffix(&self) -> Seq<char> {
        self.config.target_suffix@
    }

    /// Unmatched hostnames are forwarded unchanged.
    pub closed spec fn passthrough(&self) -> bool {
        self.config.is_passthrough()
    }

    /// What this rewriter gives for `h`.
    pub open spec fn spec_rewrite(&self, h: Seq<char>) -> Option<RewriteView> {
        rewrite_of(h, self.bases(), self.suffix(), self.passthrough())
    }

    /// The remembered rewrites.
    pub closed spec fn cache(&self) -> Map<Seq<char>, Seq<char>> {
        cache_contents(self.sni_map)
    }

    /// Every remembered hostname maps to the target a prefix rewrite of it gives.
    pub open spec fn wf(&self) -> bool {
        forall|k: Seq<char>|
            #![trigger self.cache().contains_key(k)]
            self.cache().contains_key(k) ==> {
                &&& first_prefix(k, self.bases(), 0) is Some
                &&& self.spec_rewrite(k) is Some
                &&& self.cache()[k] == self.spec_rewrite(k)->Some_0.target_hostname
            }
    }

    /// A rewriter over `config` that remembers nothing yet.
    pub fn new(config: RewriteConfig) -> (r: Self)
        ensures
            r.wf(),
            r.bases() == config.bases(),
            r.suffix() == config.target_suffix@,
            r.passthrough() == config.is_passthrough(),
            r.cache().dom() == Set::<Seq<char>>::empty(),
    {
        BaseSniRewriter { config, sni_map: cache_new() }
    }

    /// The prefix of `sni` before the first base domain it ends with (after a dot).
    pub fn extract_prefix(&self, sni: &str) -> (r: Option<String>)
        ensures
            match r {
                Some(p) => first_prefix(sni@, self.bases(), 0) == Some(p@),
                None => first_prefix(sni@, self.bases(), 0) is None,
            },
    {
        let bases = &self.config.base_domains;
        let n = sni.unicode_len();
        let mut i: usize = 0;
        while i < bases.len()
            invariant
                i <= bases.len(),
                n == sni@.len(),
                bases.deep_view() == self.bases(),
                first_prefix(sni@, self.bases(), 0) == first_prefix(sni@, self.bases(), i as int),
            decreases bases.len() - i,
        {
            let base = bases[i].as_str();
            let m = base.unicode_len();
            assert(self.bases()[i as int] == base@);
            if n > m && n - m > 1 && crate::text::ends_with_text(sni, base) {
                let dot = sni.get_char(n - m - 1);
                if dot == '.' {
                    let p = sni.substring_char(0, n - m - 1).to_owned();
                    return Some(p);
                }
            }
            i = i + 1;
        }
        None
    }

    /// `prefix` followed by the target suffix.
    pub fn build_target_hostname(&self, prefix: &str) -> (r: String)
        ensures
            r@ == prefix@ + self.suffix(),
    {
        join2(prefix, self.config.target_suffix.as_str())
    }

    /// The remembered upstream hostname for `sni`, if it was rewritten before.
    pub fn cached_target(&self, sni: &str) -> (r: Option<String>)
        requires
            self.wf(),
        ensures
            match r {
                Some(t) => {
                    &&& self.cache().contains_key(sni@)
                    &&& t@ == self.cache()[sni@]
                    &&& self.spec_rewrite(sni@) is Some
                    &&& self.spec_rewrite(sni@)->Some_0.target_hostname == t@
                },
                None => !self.cache().contains_key(sni@),
            },
    {
        let r = cache_get(&self.sni_map, sni);
        proof {
            if r is Some {
                assert(self.cache().contains_key(sni@));
            }
        }
        r
    }

    /// Rewrite `sni` and remember a prefix rewrite in the cache.
    pub fn rewrite_sni(&mut self, sni: &str) -> (r: Option<RewriteResult>)
        requires
            old(self).wf(),
        ensures
            final(self).wf(),
            final(self).bases() == old(self).bases(),
            final(self).suffix() == old(self).suffix(),
            final(self).passthrough() == old(self).passthrough(),
            match r {
                Some(x) => old(self).spec_rewrite(sni@) == Some(x@),
                None => old(self).spec_rewrite(sni@) is None,
            },
            final(self).cache() == cache_after(old(self).cache(), sni@, old(self).spec_rewrite(sni@)),
    {
        let suffix = self.config.target_suffix.as_str();
        let suffix_ok = suffix.unicode_len() > 0 && suffix.get_char(0) == '.';
        if sni.unicode_len() == 0 || self.config.base_domains.len() == 0 || !suffix_ok {
            return None;
        }
        match self.extract_prefix(sni) {
            Some(prefix) => {
                let target = self.build_target_hostname(prefix.as_str());
                proof {
                    lemma_first_prefix_nonempty(sni@, self.bases(), 0);
                }
                let ghost before = *self;
                cache_insert(&mut self.sni_map, sni.to_owned(), target.clone());
                proof {
                    assert(self.bases() == before.bases());
                    assert(self.suffix() == before.suffix());
                    assert(self.passthrough() == before.passthrough());
                    assert forall|k: Seq<char>| #[trigger] self.cache().contains_key(k) implies {
                        &&& first_prefix(k, self.bases(), 0) is Some
                        &&& self.spec_rewrite(k) is Some
                        &&& self.cache()[k] == self.spec_rewrite(k)->Some_0.target_hostname
                    } by {
                        if k != sni@ {
                            assert(before.cache().contains_key(k));
                        }
                    }
                }
                Some(RewriteResult { original: sni.to_owned(), prefix, target_hostname: target })
            },
            None => {
                let passthrough = same_text(
                    self.config.rewrite_failure_strategy.as_str(),
                    "passthrough",
                );
                if passthrough {
                    Some(
                        RewriteResult {
                            original: sni.to_owned(),
                            prefix: String::new(),
                            target_hostname: sni.to_owned(),
                        },
                    )
                } else {
                    None
                }
            },
        }
    }
}

/// Rewriting leaves the configuration as it was, so rewriting the same hostname
/// again gives the same result, target hostname included.
pub proof fn lemma_rewrite_repeatable(
    first: BaseSniRewriter,
    second: BaseSniRewriter,
    h: Seq<char>,
    r1: Option<RewriteView>,
    r2: Option<RewriteView>,
)
    requires
        second.bases() == first.bases(),
        second.suffix() == first.suffix(),
        second.passthrough() == first.passthrough(),
        r1 == first.spec_rewrite(h),
        r2 == second.spec_rewrite(h),
    ensures
        r1 == r2,
        r1 matches Some(a) ==> r2 matches Some(b) && a.target_hostname == b.target_hostname,
{
}

/// Under the passthrough strategy, with some base domain and a dotted suffix, a
/// non-empty hostname that no base domain matches is forwarded to itself with an
/// empty prefix; so no rewrite is counted and the upstream request goes to the
/// original host.
pub proof fn lemma_passthrough_forwards_to_host(rw: BaseSniRewriter, h: Seq<char>)
    requires
        rw.passthrough(),
        rw.bases().len() > 0,
        dotted(rw.suffix()),
        h.len() > 0,
        forall|j: int| 0 <= j < rw.bases().len() ==> !#[trigger] ends_with_dotted_base(h, rw.bases()[j]),
    ensures
        rw.spec_rewrite(h) == Some(RewriteView { original: h, prefix: Seq::empty(), target_hostname: h }),
{
    lemma_passthrough_rewrite(h, rw.bases(), rw.suffix());
}

impl SniRewriter for BaseSniRewriter {
    open spec fn ready(&self) -> bool {
        self.wf()
    }

    fn rewrite(&mut self, sni: &str) -> (r: Option<RewriteResult>)
        ensures
            final(self).bases() == old(self).bases(),
            final(self).suffix() == old(self).suffix(),
            final(self).passthrough() == old(self).passthrough(),
            match r {
                Some(x) => old(self).spec_rewrite(sni@) == Some(x@),
                None => old(self).spec_rewrite(sni@) is None,
            },
            final(self).cache() == cache_after(old(self).cache(), sni@, old(self).spec_rewrite(sni@)),
    {
        self.rewrite_sni(sni)
    }
}

} // verus!
