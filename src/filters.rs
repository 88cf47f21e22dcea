//! The filter engine: one filter's match policy, with its regular expressions compiled on
//! first use and kept.

use vstd::prelude::*;

verus! {

#[verifier::external_type_specification]
#[verifier::external_body]
pub struct ExRegex(regex::Regex);

/// The haystacks in which the compiled regular expression `re` finds a match.
pub uninterp spec fn regex_hits(re: regex::Regex) -> Set<Seq<char>>;

/// What compiling pattern `p` gives: `None` where it is rejected, else the haystacks in
/// which the compiled expression finds a match.
pub uninterp spec fn compiled_hits(p: Seq<char>) -> Option<Set<Seq<char>>>;

/// Relies on regex::Regex::new: compiles `p`, or rejects it (bad syntax, or over the default
/// size limit).
#[verifier::external_body]
fn compile(p: &str) -> (r: Option<regex::Regex>)
    ensures
        r is Some ==> compiled_hits(p@) == Some(regex_hits(r->0)),
        r is None ==> compiled_hits(p@) is None,
{
    regex::Regex::new(p).ok()
}

/// Relies on regex::Regex::is_match: whether `re` finds a match anywhere in `hay`.
#[verifier::external_body]
fn finds(re: &regex::Regex, hay: &str) -> (r: bool)
    ensures
        r == regex_hits(*re).contains(hay@),
{
    re.is_match(hay)
}

/// Whether pattern `p` constrains and hits `hay`: an empty pattern is never evaluated, and one
/// that does not compile hits nothing.
pub open spec fn pattern_hits(p: Seq<char>, hay: Seq<char>) -> bool {
    p.len() > 0 && match compiled_hits(p) {
        Some(s) => s.contains(hay),
        None => false,
    }
}

/// The size criterion: exclusive bounds, where a zero bound is unset; no bound set, no hit.
pub open spec fn size_hit(min: u64, max: u64, size: u64) -> bool {
    if min > 0 && max > 0 {
        min < size && size < max
    } else if min > 0 {
        size > min
    } else if max > 0 {
        size < max
    } else {
        false
    }
}

/// The port criterion: a set port equal to either end's port.
pub open spec fn port_hit(port: u16, source_port: u16, dest_port: u16) -> bool {
    port > 0 && (source_port == port || dest_port == port)
}

/// The compiled form of one pattern, as far as it has been needed.
pub enum PatternCache {
    /// Not compiled yet.
    Pending,
    /// Compiled.
    Ready(regex::Regex),
    /// Compilation failed; the pattern hits nothing.
    Rejected,
}

/// `c` is what compiling `p` gave, or nothing yet; an unset pattern is never compiled.
pub open spec fn cache_agrees(p: Seq<char>, c: PatternCache) -> bool {
    match c {
        PatternCache::Pending => true,
        PatternCache::Ready(re) => p.len() > 0 && compiled_hits(p) == Some(regex_hits(re)),
        PatternCache::Rejected => p.len() > 0 && compiled_hits(p) is None,
    }
}

/// From `before` to `after` a pattern is compiled at most once: a cache that was filled stays
/// as it was.
pub open spec fn cache_kept(before: PatternCache, after: PatternCache) -> bool {
    !(before is Pending) ==> after == before
}

/// Whether `pattern` hits `hay`, given what `cache` holds of it; where the pattern had to be
/// compiled for that, also what the cache should hold from now on.
fn pattern_check(pattern: &String, cache: &PatternCache, hay: &str) -> (r: (
    bool,
    Option<PatternCache>,
))
    requires
        cache_agrees(pattern@, *cache),
    ensures
        r.0 == pattern_hits(pattern@, hay@),
        r.1 is Some ==> *cache is Pending && cache_agrees(pattern@, r.1->0),
{
    if pattern.as_str().is_empty() {
        return (false, None);
    }
    match cache {
        PatternCache::Ready(re) => {
            return (finds(re, hay), None);
        },
        PatternCache::Rejected => {
            return (false, None);
        },
        PatternCache::Pending => {},
    }
    match compile(pattern.as_str()) {
        Some(re) => {
            let hit = finds(&re, hay);
            (hit, Some(PatternCache::Ready(re)))
        },
        None => (false, Some(PatternCache::Rejected)),
    }
}

/// Where `pattern` is set and `cache` holds nothing of it yet, what compiling it gives.
fn prepare(pattern: &String, cache: &PatternCache) -> (r: Option<PatternCache>)
    ensures
        r is Some ==> *cache is Pending && !(r->0 is Pending) && cache_agrees(pattern@, r->0),
        r is None ==> pattern@.len() == 0 || !(*cache is Pending),
{
    if pattern.as_str().is_empty() {
        return None;
    }
    match cache {
        PatternCache::Pending => {},
        _ => {
            return None;
        },
    }
    match compile(pattern.as_str()) {
        Some(re) => Some(PatternCache::Ready(re)),
        None => Some(PatternCache::Rejected),
    }
}

/// `p` is unset, or compiles.
pub open spec fn pattern_settable(p: Seq<char>) -> bool {
    p.len() == 0 || compiled_hits(p) is Some
}

/// The three regular-expression criteria of a filter; an empty pattern is unset.
pub struct RegexFilter {
    source_ip: String,
    dest_ip: String,
    payload: String,
    source_ip_re: PatternCache,
    dest_ip_re: PatternCache,
    payload_re: PatternCache,
}

impl RegexFilter {
    /// Each cache holds what compiling its pattern gives, or nothing yet.
    #[verifier::type_invariant]
    spec fn caches_agree(&self) -> bool {
        &&& cache_agrees(self.source_ip@, self.source_ip_re)
        &&& cache_agrees(self.dest_ip@, self.dest_ip_re)
        &&& cache_agrees(self.payload@, self.payload_re)
    }

    /// The pattern for the source address; empty where unset.
    pub closed spec fn source_ip_pattern(&self) -> Seq<char> {
        self.source_ip@
    }

    /// The pattern for the destination address; empty where unset.
    pub closed spec fn dest_ip_pattern(&self) -> Seq<char> {
        self.dest_ip@
    }

    /// The pattern for the payload text; empty where unset.
    pub closed spec fn payload_pattern(&self) -> Seq<char> {
        self.payload@
    }

    /// The compiled forms of the source-IP, destination-IP and payload patterns.
    pub closed spec fn caches(&self) -> (PatternCache, PatternCache, PatternCache) {
        (self.source_ip_re, self.dest_ip_re, self.payload_re)
    }

    /// The same patterns, with no pattern recompiled.
    pub open spec fn kept_from(&self, before: &RegexFilter) -> bool {
        &&& self.source_ip_pattern() == before.source_ip_pattern()
        &&& self.dest_ip_pattern() == before.dest_ip_pattern()
        &&& self.payload_pattern() == before.payload_pattern()
        &&& cache_kept(before.caches().0, self.caches().0)
        &&& cache_kept(before.caches().1, self.caches().1)
        &&& cache_kept(before.caches().2, self.caches().2)
    }

    /// A filter on these patterns, none compiled yet.
    pub fn new(source_ip: &str, dest_ip: &str, payload: &str) -> (r: RegexFilter)
        ensures
            r.source_ip_pattern() == source_ip@,
            r.dest_ip_pattern() == dest_ip@,
            r.payload_pattern() == payload@,
            r.caches() == (PatternCache::Pending, PatternCache::Pending, PatternCache::Pending),
    {
        RegexFilter {
            source_ip: String::from_str(source_ip),
            dest_ip: String::from_str(dest_ip),
            payload: String::from_str(payload),
            source_ip_re: PatternCache::Pending,
            dest_ip_re: PatternCache::Pending,
            payload_re: PatternCache::Pending,
        }
    }

    /// The source-IP pattern.
    pub fn source_ip(&self) -> (r: &str)
        ensures
            r@ == self.source_ip_pattern(),
    {
        self.source_ip.as_str()
    }

    /// The destination-IP pattern.
    pub fn dest_ip(&self) -> (r: &str)
        ensures
            r@ == self.dest_ip_pattern(),
    {
        self.dest_ip.as_str()
    }

    /// The payload pattern.
    pub fn payload(&self) -> (r: &str)
        ensures
            r@ == self.payload_pattern(),
    {
        self.payload.as_str()
    }

    /// Whether the source-IP pattern hits `hay`, compiling it if that is the first need.
    fn source_ip_hits(&mut self, hay: &str) -> (r: bool)
        ensures
            final(self).kept_from(old(self)),
            r == pattern_hits(old(self).source_ip_pattern(), hay@),
    {
        proof {
            use_type_invariant(&*self);
        }
        let (hit, fresh) = pattern_check(&self.source_ip, &self.source_ip_re, hay);
        if let Some(c) = fresh {
            self.source_ip_re = c;
        }
        hit
    }

    /// Whether the destination-IP pattern hits `hay`, compiling it if that is the first need.
    fn dest_ip_hits(&mut self, hay: &str) -> (r: bool)
        ensures
            final(self).kept_from(old(self)),
            r == pattern_hits(old(self).dest_ip_pattern(), hay@),
    {
        proof {
            use_type_invariant(&*self);
        }
        let (hit, fresh) = pattern_check(&self.dest_ip, &self.dest_ip_re, hay);
        if let Some(c) = fresh {
            self.dest_ip_re = c;
        }
        hit
    }

    /// Whether the payload pattern hits `hay`, compiling it if that is the first need.
    fn payload_hits(&mut self, hay: &str) -> (r: bool)
        ensures
            final(self).kept_from(old(self)),
            r == pattern_hits(old(self).payload_pattern(), hay@),
    {
        proof {
            use_type_invariant(&*self);
        }
        let (hit, fresh) = pattern_check(&self.payload, &self.payload_re, hay);
        if let Some(c) = fresh {
            self.payload_re = c;
        }
        hit
    }

    /// Compiles every set pattern that is not compiled yet; returns whether all of them
    /// compile.
    pub fn compile_all(&mut self) -> (r: bool)
        ensures
            final(self).kept_from(old(self)),
            r == (pattern_settable(old(self).source_ip_pattern()) && pattern_settable(
                old(self).dest_ip_pattern(),
            ) && pattern_settable(old(self).payload_pattern())),
    {
        proof {
            use_type_invariant(&*self);
        }
        if let Some(c) = prepare(&self.source_ip, &self.source_ip_re) {
            self.source_ip_re = c;
        }
        if let Some(c) = prepare(&self.dest_ip, &self.dest_ip_re) {
            self.dest_ip_re = c;
        }
        if let Some(c) = prepare(&self.payload, &self.payload_re) {
            self.payload_re = c;
        }
        proof {
            use_type_invariant(&*self);
        }
        self.source_ip_re.is_usable() && self.dest_ip_re.is_usable() && self.payload_re.is_usable()
    }
}

impl PatternCache {
    /// Not known to be rejected.
    fn is_usable(&self) -> (r: bool)
        ensures
            r == !(*self is Rejected),
    {
        match self {
            PatternCache::Rejected => false,
            _ => true,
        }
    }
}

/// One filter. Its criteria are tried in turn, and any hit is a match; a filter with every
/// criterion unset matches nothing.
pub struct Filter {
    pub protocol: String,
    pub regex_filter: RegexFilter,
    pub port: u16,
    pub min_size: u64,
    pub max_size: u64,
}

impl Filter {
    /// Whether the filter matches the flow with these fields.
    pub open spec fn matches(
        &self,
        source_ip: Seq<char>,
        source_port: u16,
        dest_ip: Seq<char>,
        dest_port: u16,
        size: u64,
        payload: Seq<char>,
    ) -> bool {
        ||| size_hit(self.min_size, self.max_size, size)
        ||| port_hit(self.port, source_port, dest_port)
        ||| pattern_hits(self.regex_filter.source_ip_pattern(), source_ip)
        ||| pattern_hits(self.regex_filter.dest_ip_pattern(), dest_ip)
        ||| pattern_hits(self.regex_filter.payload_pattern(), payload)
    }

    /// The same criteria, with no pattern recompiled.
    pub open spec fn kept_from(&self, before: &Filter) -> bool {
        &&& self.protocol == before.protocol
        &&& self.port == before.port
        &&& self.min_size == before.min_size
        &&& self.max_size == before.max_size
        &&& self.regex_filter.kept_from(&before.regex_filter)
    }

    /// Whether the filter matches the flow with these fields. A pattern is compiled the first
    /// time it is needed and kept for later calls.
    pub fn is_match(
        &mut self,
        source_ip: &str,
        source_port: u16,
        dest_ip: &str,
        dest_port: u16,
        size: u64,
        payload: &str,
    ) -> (r: bool)
        ensures
            final(self).kept_from(old(self)),
            r == old(self).matches(source_ip@, source_port, dest_ip@, dest_port, size, payload@),
    {
        if self.min_size > 0 && self.max_size > 0 && size > self.min_size && size
            < self.max_size {
            return true;
        } else if self.min_size > 0 && self.max_size == 0 && size > self.min_size {
            return true;
        } else if self.min_size == 0 && self.max_size > 0 && size < self.max_size {
            return true;
        }
        if (dest_port > 0 && dest_port == self.port) || (source_port > 0 && source_port
            == self.port) {
            return true;
        }
        if self.regex_filter.source_ip_hits(source_ip) {
            return true;
        }
        if self.regex_filter.dest_ip_hits(dest_ip) {
            return true;
        }
        self.regex_filter.payload_hits(payload)
    }
}


/// A filter whose only set criterion is its size range matches exactly the sizes in that
/// range: above the lower bound when only it is set, below the upper bound when only it is
/// set, strictly between them when both are. A size in range is a match whatever the other
/// criteria are.
pub proof fn lemma_size_range_decides(
    f: &Filter,
    source_ip: Seq<char>,
    source_port: u16,
    dest_ip: Seq<char>,
    dest_port: u16,
    size: u64,
    payload: Seq<char>,
)
    ensures
        size_hit(f.min_size, f.max_size, size) ==> f.matches(
            source_ip,
            source_port,
            dest_ip,
            dest_port,
            size,
            payload,
        ),
        f.port == 0 && f.regex_filter.source_ip_pattern().len() == 0
            && f.regex_filter.dest_ip_pattern().len() == 0
            && f.regex_filter.payload_pattern().len() == 0 ==> {
            let m = f.matches(source_ip, source_port, dest_ip, dest_port, size, payload);
            &&& (f.min_size > 0 && f.max_size == 0) ==> (m <==> size > f.min_size)
            &&& (f.min_size == 0 && f.max_size > 0) ==> (m <==> size < f.max_size)
            &&& (f.min_size > 0 && f.max_size > 0) ==> (m <==> f.min_size < size && size
                < f.max_size)
        },
{
}

/// A filter whose only set criterion is its port `p` matches exactly the flows with `p` at
/// either end. A flow with `p` at either end is a match whatever the other criteria are.
pub proof fn lemma_port_decides(
    f: &Filter,
    source_ip: Seq<char>,
    source_port: u16,
    dest_ip: Seq<char>,
    dest_port: u16,
    size: u64,
    payload: Seq<char>,
)
    requires
        f.port > 0,
    ensures
        (source_port == f.port || dest_port == f.port) ==> f.matches(
            source_ip,
            source_port,
            dest_ip,
            dest_port,
            size,
            payload,
        ),
        f.min_size == 0 && f.max_size == 0 && f.regex_filter.source_ip_pattern().len() == 0
            && f.regex_filter.dest_ip_pattern().len() == 0
            && f.regex_filter.payload_pattern().len() == 0 ==> (f.matches(
            source_ip,
            source_port,
            dest_ip,
            dest_port,
            size,
            payload,
        ) <==> (source_port == f.port || dest_port == f.port)),
{
}

/// Over any run of calls that each keep a filter's criteria and compiled patterns, the
/// criteria and compiled patterns are kept from the first to the last: a pattern is compiled
/// at most once in the life of the filter.
pub proof fn lemma_compiled_once(first: &Filter, middle: &Filter, last: &Filter)
    requires
        middle.kept_from(first),
        last.kept_from(middle),
    ensures
        last.kept_from(first),
{
}

/// A filter with every criterion unset matches no flow.
pub proof fn lemma_blank_filter_matches_nothing(
    f: &Filter,
    source_ip: Seq<char>,
    source_port: u16,
    dest_ip: Seq<char>,
    dest_port: u16,
    size: u64,
    payload: Seq<char>,
)
    requires
        f.min_size == 0,
        f.max_size == 0,
        f.port == 0,
        f.regex_filter.source_ip_pattern().len() == 0,
        f.regex_filter.dest_ip_pattern().len() == 0,
        f.regex_filter.payload_pattern().len() == 0,
    ensures
        !f.matches(source_ip, source_port, dest_ip, dest_port, size, payload),
{
}

} // verus!
