//! The filter set: an ordered list of filters where the first match wins.

use vstd::prelude::*;

use crate::filters::{pattern_settable, Filter, RegexFilter};

verus! {

/// What a first-match search over `before` may return, leaving `after`: the position of a
/// matching filter with no match before it, every filter after it as it was; or `None`, where
/// no filter matches.
pub open spec fn search_result(
    before: Seq<Filter>,
    after: Seq<Filter>,
    r: Option<usize>,
    source_ip: Seq<char>,
    source_port: u16,
    dest_ip: Seq<char>,
    dest_port: u16,
    size: u64,
    payload: Seq<char>,
) -> bool {
    match r {
        Some(k) => {
            &&& k < before.len()
            &&& before[k as int].matches(source_ip, source_port, dest_ip, dest_port, size, payload)
            &&& forall|i: int|
                0 <= i < k ==> !(#[trigger] before[i]).matches(
                    source_ip,
                    source_port,
                    dest_ip,
                    dest_port,
                    size,
                    payload,
                )
            &&& forall|i: int| k < i < before.len() ==> #[trigger] after[i] == before[i]
        },
        None => forall|i: int|
            0 <= i < before.len() ==> !(#[trigger] before[i]).matches(
                source_ip,
                source_port,
                dest_ip,
                dest_port,
                size,
                payload,
            ),
    }
}

/// Where the filter at `j` matches a flow, the search returns a position no later than `j`
/// and leaves every filter after that position as it was: a broad filter placed before a
/// narrow one decides, and the narrow one is not evaluated.
pub proof fn lemma_first_match_wins(
    before: Seq<Filter>,
    after: Seq<Filter>,
    r: Option<usize>,
    j: int,
    source_ip: Seq<char>,
    source_port: u16,
    dest_ip: Seq<char>,
    dest_port: u16,
    size: u64,
    payload: Seq<char>,
)
    requires
        search_result(
            before,
            after,
            r,
            source_ip,
            source_port,
            dest_ip,
            dest_port,
            size,
            payload,
        ),
        0 <= j < before.len(),
        before[j].matches(source_ip, source_port, dest_ip, dest_port, size, payload),
    ensures
        r is Some,
        r->0 <= j,
        forall|i: int| r->0 < i < before.len() ==> #[trigger] after[i] == before[i],
{
}

/// Some filter of `filters` matches the flow with these fields.
pub open spec fn any_match(
    filters: Seq<Filter>,
    source_ip: Seq<char>,
    source_port: u16,
    dest_ip: Seq<char>,
    dest_port: u16,
    size: u64,
    payload: Seq<char>,
) -> bool {
    exists|i: int|
        0 <= i < filters.len() && (#[trigger] filters[i]).matches(
            source_ip,
            source_port,
            dest_ip,
            dest_port,
            size,
            payload,
        )
}

/// A first-match search finds a position exactly where some filter matches.
pub proof fn lemma_search_finds(
    before: Seq<Filter>,
    after: Seq<Filter>,
    r: Option<usize>,
    source_ip: Seq<char>,
    source_port: u16,
    dest_ip: Seq<char>,
    dest_port: u16,
    size: u64,
    payload: Seq<char>,
)
    requires
        search_result(
            before,
            after,
            r,
            source_ip,
            source_port,
            dest_ip,
            dest_port,
            size,
            payload,
        ),
    ensures
        r is Some <==> any_match(
            before,
            source_ip,
            source_port,
            dest_ip,
            dest_port,
            size,
            payload,
        ),
{
    if r is Some {
        let k = r->0 as int;
        assert(before[k].matches(source_ip, source_port, dest_ip, dest_port, size, payload));
    }
}

/// Every set pattern of `f` compiles.
pub open spec fn filter_settable(f: Filter) -> bool {
    &&& pattern_settable(f.regex_filter.source_ip_pattern())
    &&& pattern_settable(f.regex_filter.dest_ip_pattern())
    &&& pattern_settable(f.regex_filter.payload_pattern())
}

/// The positions, in order, of the filters among the first `n` of `filters` with a pattern
/// that does not compile.
pub open spec fn rejected_upto(filters: Seq<Filter>, n: int) -> Seq<usize>
    decreases n,
{
    if n <= 0 {
        Seq::empty()
    } else {
        let rest = rejected_upto(filters, n - 1);
        if filter_settable(filters[n - 1]) {
            rest
        } else {
            rest.push((n - 1) as usize)
        }
    }
}

/// The active configuration: filters in the order they are tried.
pub struct Config {
    pub filters: Vec<Filter>,
}

impl Config {
    /// The same filters in the same order, with no pattern recompiled.
    pub open spec fn kept_from(&self, before: &Config) -> bool {
        &&& self.filters@.len() == before.filters@.len()
        &&& forall|i: int|
            0 <= i < before.filters@.len() ==> (#[trigger] self.filters@[i]).kept_from(
                &before.filters@[i],
            )
    }

    /// The built-in empty configuration.
    pub fn make_default() -> (r: Config)
        ensures
            r.filters@.len() == 0,
    {
        Config { filters: Vec::new() }
    }

    /// The built-in illustrative configuration: a broad IPv4 filter by size and address
    /// pattern, and a narrow UDP filter by port and payload pattern.
    pub fn make_example() -> (r: Config)
        ensures
            r.filters@.len() == 2,
            r.filters@[0].protocol@ == "ip4"@,
            r.filters@[0].min_size == 10,
            r.filters@[0].max_size == 100,
            r.filters@[0].port == 0,
            r.filters@[0].regex_filter.source_ip_pattern() == "32.232.232.323"@,
            r.filters@[0].regex_filter.dest_ip_pattern() == "192.*"@,
            r.filters@[0].regex_filter.payload_pattern() == ""@,
            r.filters@[1].protocol@ == "udp"@,
            r.filters@[1].min_size == 0,
            r.filters@[1].max_size == 0,
            r.filters@[1].port == 1169,
            r.filters@[1].regex_filter.source_ip_pattern() == "*"@,
            r.filters@[1].regex_filter.dest_ip_pattern() == "92.158.29.191"@,
            r.filters@[1].regex_filter.payload_pattern() == ".*hello.*"@,
    {
        let mut filters: Vec<Filter> = Vec::new();
        filters.push(
            Filter {
                protocol: String::from_str("ip4"),
                min_size: 10,
                max_size: 100,
                port: 0,
                regex_filter: RegexFilter::new("32.232.232.323", "192.*", ""),
            },
        );
        filters.push(
            Filter {
                protocol: String::from_str("udp"),
                min_size: 0,
                max_size: 0,
                port: 1169,
                regex_filter: RegexFilter::new("*", "92.158.29.191", ".*hello.*"),
            },
        );
        Config { filters }
    }

    /// The position of the first filter that matches the flow with these fields, if any.
    /// Filters after that one are not evaluated.
    pub fn first_match(
        &mut self,
        source_ip: &str,
        source_port: u16,
        dest_ip: &str,
        dest_port: u16,
        size: u64,
        payload: &str,
    ) -> (r: Option<usize>)
        ensures
            final(self).kept_from(old(self)),
            search_result(
                old(self).filters@,
                final(self).filters@,
                r,
                source_ip@,
                source_port,
                dest_ip@,
                dest_port,
                size,
                payload@,
            ),
    {
        let n = self.filters.len();
        let mut k: usize = 0;
        while k < n
            invariant
                n == old(self).filters@.len(),
                n == self.filters@.len(),
                k <= n,
                forall|i: int|
                    0 <= i < n ==> (#[trigger] self.filters@[i]).kept_from(&old(self).filters@[i]),
                forall|i: int| k <= i < n ==> #[trigger] self.filters@[i] == old(self).filters@[i],
                forall|i: int|
                    0 <= i < k ==> !(#[trigger] old(self).filters@[i]).matches(
                        source_ip@,
                        source_port,
                        dest_ip@,
                        dest_port,
                        size,
                        payload@,
                    ),
            decreases n - k,
        {
            let hit = self.filters[k].is_match(
                source_ip,
                source_port,
                dest_ip,
                dest_port,
                size,
                payload,
            );
            if hit {
                return Some(k);
            }
            k = k + 1;
        }
        None
    }

    /// Compiles every pattern of every filter now rather than on first use, and returns the
    /// positions of the filters with a pattern that does not compile; such a pattern matches
    /// nothing.
    pub fn compile_patterns(&mut self) -> (r: Vec<usize>)
        ensures
            final(self).kept_from(old(self)),
            r@ == rejected_upto(old(self).filters@, old(self).filters@.len() as int),
    {
        let n = self.filters.len();
        let mut rejected: Vec<usize> = Vec::new();
        let mut k: usize = 0;
        while k < n
            invariant
                n == old(self).filters@.len(),
                n == self.filters@.len(),
                k <= n,
                forall|i: int|
                    0 <= i < n ==> (#[trigger] self.filters@[i]).kept_from(&old(self).filters@[i]),
                forall|i: int| k <= i < n ==> #[trigger] self.filters@[i] == old(self).filters@[i],
                rejected@ == rejected_upto(old(self).filters@, k as int),
            decreases n - k,
        {
            let ok = self.filters[k].regex_filter.compile_all();
            if !ok {
                rejected.push(k);
            }
            k = k + 1;
        }
        rejected
    }
}

} // verus!
