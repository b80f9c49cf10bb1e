//! Where a TLS connection goes by the server name it asks for: it is served here, or
//! handed on to a backend.

use vstd::prelude::*;
use crate::text::{chars_of, ends_in, ends_with};

verus! {

/// A pattern for server names, in lower case.
#[derive(Debug)]
pub enum SniMatcher {
    /// This name.
    Exact(String),
    /// One label in front of this suffix, which starts with a dot.
    Wildcard { suffix: String },
}

pub enum MatcherView {
    Exact(Seq<char>),
    Wildcard(Seq<char>),
}

impl View for SniMatcher {
    type V = MatcherView;

    open spec fn view(&self) -> MatcherView {
        match *self {
            SniMatcher::Exact(name) => MatcherView::Exact(name@),
            SniMatcher::Wildcard { suffix } => MatcherView::Wildcard(suffix@),
        }
    }
}

/// A backend: where it is, and the names that go there. A backend without names takes
/// every name nobody else does.
#[derive(Debug)]
pub struct SniBackend {
    pub authority: String,
    pub match_sni: Vec<SniMatcher>,
    /// The version of the PROXY protocol header it is sent, if any.
    pub proxy_protocol: Option<u8>,
}

/// The routing by server name.
#[derive(Debug)]
pub struct SniFallbackConfig {
    /// The names that are served here.
    pub match_sni: Vec<SniMatcher>,
    /// Connections that name nobody are served here.
    pub allow_no_sni: bool,
    pub max_client_hello_bytes: usize,
    pub backends: Vec<SniBackend>,
}

/// Where a connection goes.
#[derive(Clone, Copy, Debug, PartialEq, Eq, Structural)]
pub enum SniRoute {
    Local,
    Backend(usize),
}

/// The routing, ready to be asked.
#[derive(Debug)]
pub struct SniLookup {
    pub local: Vec<SniMatcher>,
    pub backends: Vec<Vec<SniMatcher>>,
    pub allow_no_sni: bool,
}

pub open spec fn matcher_views(matchers: Seq<SniMatcher>) -> Seq<MatcherView> {
    matchers.map_values(|m: SniMatcher| m@)
}

/// Whether the name is one label in front of the suffix.
pub open spec fn is_under(name: Seq<char>, suffix: Seq<char>) -> bool {
    &&& suffix.len() < name.len()
    &&& ends_in(name, suffix)
    &&& forall|i: int| 0 <= i < name.len() - suffix.len() ==> #[trigger] name[i] != '.'
}

/// Whether the list has the name itself.
pub open spec fn has_exact(matchers: Seq<MatcherView>, name: Seq<char>) -> bool {
    exists|i: int| 0 <= i < matchers.len() && #[trigger] matchers[i] == MatcherView::Exact(name)
}

/// Whether the list has a wildcard for the name.
pub open spec fn has_wildcard(matchers: Seq<MatcherView>, name: Seq<char>) -> bool {
    exists|i: int|
        0 <= i < matchers.len() && (#[trigger] matchers[i] matches MatcherView::Wildcard(suffix)
            && is_under(name, suffix))
}

/// Whether `at` is the first backend with the property.
pub open spec fn first_backend(
    backends: Seq<Seq<MatcherView>>,
    wanted: spec_fn(Seq<MatcherView>) -> bool,
    at: int,
) -> bool {
    &&& 0 <= at < backends.len()
    &&& wanted(backends[at])
    &&& forall|i: int| 0 <= i < at ==> !wanted(#[trigger] backends[i])
}

pub open spec fn no_backend(
    backends: Seq<Seq<MatcherView>>,
    wanted: spec_fn(Seq<MatcherView>) -> bool,
) -> bool {
    forall|i: int| 0 <= i < backends.len() ==> !wanted(#[trigger] backends[i])
}

pub open spec fn exact_for(name: Seq<char>) -> spec_fn(Seq<MatcherView>) -> bool {
    |matchers: Seq<MatcherView>| has_exact(matchers, name)
}

pub open spec fn wildcard_for(name: Seq<char>) -> spec_fn(Seq<MatcherView>) -> bool {
    |matchers: Seq<MatcherView>| has_wildcard(matchers, name)
}

pub open spec fn unnamed() -> spec_fn(Seq<MatcherView>) -> bool {
    |matchers: Seq<MatcherView>| matchers.len() == 0
}

/// Whether the route is the first backend without names, or nothing where there is none.
pub open spec fn catches_all(backends: Seq<Seq<MatcherView>>, route: Option<SniRoute>) -> bool {
    match route {
        Some(SniRoute::Backend(at)) => first_backend(backends, unnamed(), at as int),
        Some(SniRoute::Local) => false,
        None => no_backend(backends, unnamed()),
    }
}

impl SniLookup {
    pub open spec fn local_view(self) -> Seq<MatcherView> {
        matcher_views(self.local@)
    }

    pub open spec fn backend_views(self) -> Seq<Seq<MatcherView>> {
        self.backends@.map_values(|matchers: Vec<SniMatcher>| matcher_views(matchers@))
    }

    /// Where a name goes: by its own name before any wildcard, here before any
    /// backend, an earlier backend before a later one, and to the first backend
    /// without names where nobody claims it.
    pub open spec fn routes(self, name: Seq<char>, route: Option<SniRoute>) -> bool {
        let backends = self.backend_views();
        if has_exact(self.local_view(), name) {
            route == Some(SniRoute::Local)
        } else if !no_backend(backends, exact_for(name)) {
            route matches Some(SniRoute::Backend(at)) && first_backend(
                backends,
                exact_for(name),
                at as int,
            )
        } else if has_wildcard(self.local_view(), name) {
            route == Some(SniRoute::Local)
        } else if !no_backend(backends, wildcard_for(name)) {
            route matches Some(SniRoute::Backend(at)) && first_backend(
                backends,
                wildcard_for(name),
                at as int,
            )
        } else {
            catches_all(backends, route)
        }
    }
}

fn copy_matchers(matchers: &Vec<SniMatcher>) -> (copy: Vec<SniMatcher>)
    ensures
        matcher_views(copy@) == matcher_views(matchers@),
{
    let mut copy: Vec<SniMatcher> = Vec::new();
    let mut i: usize = 0;
    while i < matchers.len()
        invariant
            i <= matchers@.len(),
            copy@.len() == i,
            forall|j: int| 0 <= j < i ==> (#[trigger] copy@[j])@ == matchers@[j]@,
        decreases matchers@.len() - i,
    {
        let matcher = match &matchers[i] {
            SniMatcher::Exact(name) => SniMatcher::Exact(name.clone()),
            SniMatcher::Wildcard { suffix } => SniMatcher::Wildcard { suffix: suffix.clone() },
        };
        copy.push(matcher);
        i = i + 1;
    }
    assert(matcher_views(copy@) =~= matcher_views(matchers@));
    copy
}

fn list_has_exact(matchers: &Vec<SniMatcher>, name: &String) -> (found: bool)
    ensures
        found == has_exact(matcher_views(matchers@), name@),
{
    let ghost views = matcher_views(matchers@);
    let mut i: usize = 0;
    while i < matchers.len()
        invariant
            i <= matchers@.len(),
            views == matcher_views(matchers@),
            forall|j: int| 0 <= j < i ==> #[trigger] views[j] != MatcherView::Exact(name@),
        decreases matchers@.len() - i,
    {
        assert(views[i as int] == matchers@[i as int]@);
        match &matchers[i] {
            SniMatcher::Exact(exact) => {
                if *exact == *name {
                    return true;
                }
            },
            SniMatcher::Wildcard { .. } => {},
        }
        i = i + 1;
    }
    false
}

fn name_is_under(name: &Vec<char>, suffix: &Vec<char>) -> (under: bool)
    ensures
        under == is_under(name@, suffix@),
{
    if suffix.len() >= name.len() || !ends_with(name, suffix) {
        return false;
    }
    let label: usize = name.len() - suffix.len();
    let mut i: usize = 0;
    while i < label
        invariant
            i <= label == name@.len() - suffix@.len(),
            forall|j: int| 0 <= j < i ==> #[trigger] name@[j] != '.',
        decreases label - i,
    {
        if name[i] == '.' {
            return false;
        }
        i = i + 1;
    }
    true
}

fn list_has_wildcard(matchers: &Vec<SniMatcher>, name: &Vec<char>) -> (found: bool)
    ensures
        found == has_wildcard(matcher_views(matchers@), name@),
{
    let ghost views = matcher_views(matchers@);
    let mut i: usize = 0;
    while i < matchers.len()
        invariant
            i <= matchers@.len(),
            views == matcher_views(matchers@),
            forall|j: int|
                0 <= j < i ==> !(#[trigger] views[j] matches MatcherView::Wildcard(suffix)
                    && is_under(name@, suffix)),
        decreases matchers@.len() - i,
    {
        assert(views[i as int] == matchers@[i as int]@);
        match &matchers[i] {
            SniMatcher::Wildcard { suffix } => {
                let tail = chars_of(suffix.as_str());
                if name_is_under(name, &tail) {
                    return true;
                }
            },
            SniMatcher::Exact(_) => {},
        }
        i = i + 1;
    }
    false
}

impl SniLookup {
    /// Gets a routing ready.
    pub fn build(config: &SniFallbackConfig) -> (lookup: SniLookup)
        ensures
            lookup.local_view() == matcher_views(config.match_sni@),
            lookup.backend_views() == config.backends@.map_values(
                |backend: SniBackend| matcher_views(backend.match_sni@),
            ),
            lookup.allow_no_sni == config.allow_no_sni,
    {
        let mut backends: Vec<Vec<SniMatcher>> = Vec::new();
        let mut i: usize = 0;
        while i < config.backends.len()
            invariant
                i <= config.backends@.len(),
                backends@.len() == i,
                forall|j: int|
                    0 <= j < i ==> matcher_views((#[trigger] backends@[j])@) == matcher_views(
                        config.backends@[j].match_sni@,
                    ),
            decreases config.backends@.len() - i,
        {
            backends.push(copy_matchers(&config.backends[i].match_sni));
            i = i + 1;
        }
        let lookup = SniLookup {
            local: copy_matchers(&config.match_sni),
            backends,
            allow_no_sni: config.allow_no_sni,
        };
        assert(lookup.backend_views() =~= config.backends@.map_values(
            |backend: SniBackend| matcher_views(backend.match_sni@),
        ));
        lookup
    }

    fn backend_with_exact(&self, name: &String) -> (found: Option<usize>)
        ensures
            match found {
                Some(at) => first_backend(self.backend_views(), exact_for(name@), at as int),
                None => no_backend(self.backend_views(), exact_for(name@)),
            },
    {
        let ghost views = self.backend_views();
        let mut i: usize = 0;
        while i < self.backends.len()
            invariant
                i <= self.backends@.len(),
                views == self.backend_views(),
                forall|j: int| 0 <= j < i ==> !(exact_for(name@))(#[trigger] views[j]),
            decreases self.backends@.len() - i,
        {
            assert(views[i as int] == matcher_views(self.backends@[i as int]@));
            if list_has_exact(&self.backends[i], name) {
                return Some(i);
            }
            i = i + 1;
        }
        None
    }

    fn backend_with_wildcard(&self, name: &Vec<char>) -> (found: Option<usize>)
        ensures
            match found {
                Some(at) => first_backend(self.backend_views(), wildcard_for(name@), at as int),
                None => no_backend(self.backend_views(), wildcard_for(name@)),
            },
    {
        let ghost views = self.backend_views();
        let mut i: usize = 0;
        while i < self.backends.len()
            invariant
                i <= self.backends@.len(),
                views == self.backend_views(),
                forall|j: int| 0 <= j < i ==> !(wildcard_for(name@))(#[trigger] views[j]),
            decreases self.backends@.len() - i,
        {
            assert(views[i as int] == matcher_views(self.backends@[i as int]@));
            if list_has_wildcard(&self.backends[i], name) {
                return Some(i);
            }
            i = i + 1;
        }
        None
    }

    fn catch_all(&self) -> (route: Option<SniRoute>)
        ensures
            catches_all(self.backend_views(), route),
    {
        let ghost views = self.backend_views();
        let mut i: usize = 0;
        while i < self.backends.len()
            invariant
                i <= self.backends@.len(),
                views == self.backend_views(),
                forall|j: int| 0 <= j < i ==> !(unnamed())(#[trigger] views[j]),
            decreases self.backends@.len() - i,
        {
            assert(views[i as int] == matcher_views(self.backends@[i as int]@));
            if self.backends[i].len() == 0 {
                return Some(SniRoute::Backend(i));
            }
            i = i + 1;
        }
        None
    }

    /// Where a connection goes. One that names nobody is served here where that is
    /// allowed, and goes where an unclaimed name goes otherwise.
    pub fn lookup(&self, sni: Option<&str>) -> (route: Option<SniRoute>)
        ensures
            match sni {
                Some(name) => self.routes(name@, route),
                None => if self.allow_no_sni {
                    route == Some(SniRoute::Local)
                } else {
                    catches_all(self.backend_views(), route)
                },
            },
    {
        let name = match sni {
            Some(name) => name,
            None => {
                if self.allow_no_sni {
                    return Some(SniRoute::Local);
                }
                return self.catch_all();
            },
        };
        let owned = name.to_owned();
        if list_has_exact(&self.local, &owned) {
            return Some(SniRoute::Local);
        }
        match self.backend_with_exact(&owned) {
            Some(at) => {
                assert(first_backend(self.backend_views(), exact_for(name@), at as int));
                return Some(SniRoute::Backend(at));
            },
            None => {},
        }
        let chars = chars_of(name);
        if list_has_wildcard(&self.local, &chars) {
            return Some(SniRoute::Local);
        }
        match self.backend_with_wildcard(&chars) {
            Some(at) => {
                assert(first_backend(self.backend_views(), wildcard_for(name@), at as int));
                return Some(SniRoute::Backend(at));
            },
            None => {},
        }
        self.catch_all()
    }
}

// ── Peeking ─────────────────────────────────────────────────────────────────

/// Why the server name could not be read.
#[derive(Clone, Copy, Debug, PartialEq, Eq, Structural)]
pub enum SniPeekFailure {
    /// The peer went away first; routine on a public port.
    PeerClosed,
    ReadFailed,
    Oversized,
    Malformed,
}

impl SniPeekFailure {
    /// Whether an operator should see it.
    pub fn is_noteworthy(self) -> (noteworthy: bool)
        ensures
            noteworthy == (self != SniPeekFailure::PeerClosed),
    {
        !matches!(self, SniPeekFailure::PeerClosed)
    }

    /// The metric label of the failure.
    pub fn as_str(self) -> (label: &'static str)
        ensures
            label@ == match self {
                SniPeekFailure::PeerClosed => "peer_closed"@,
                SniPeekFailure::ReadFailed => "read_failed"@,
                SniPeekFailure::Oversized => "oversized"@,
                SniPeekFailure::Malformed => "malformed"@,
            },
    {
        match self {
            SniPeekFailure::PeerClosed => "peer_closed",
            SniPeekFailure::ReadFailed => "read_failed",
            SniPeekFailure::Oversized => "oversized",
            SniPeekFailure::Malformed => "malformed",
        }
    }
}

// ── Laws ────────────────────────────────────────────────────────────────────

/// Every name has one route.
pub proof fn law_a_name_has_one_route(
    lookup: SniLookup,
    name: Seq<char>,
    a: Option<SniRoute>,
    b: Option<SniRoute>,
)
    requires
        lookup.routes(name, a),
        lookup.routes(name, b),
    ensures
        a == b,
{
}

/// A name that is listed for this node is served here, whatever wildcards or lists any
/// backend has.
pub proof fn law_a_listed_name_is_served_here(
    lookup: SniLookup,
    name: Seq<char>,
    route: Option<SniRoute>,
)
    requires
        has_exact(lookup.local_view(), name),
        lookup.routes(name, route),
    ensures
        route == Some(SniRoute::Local),
{
}

/// A name is turned away only where no list has it and every backend is for names.
pub proof fn law_nothing_is_turned_away_with_a_catch_all(
    lookup: SniLookup,
    name: Seq<char>,
    at: int,
)
    requires
        0 <= at < lookup.backend_views().len(),
        lookup.backend_views()[at].len() == 0,
    ensures
        !lookup.routes(name, None),
{
    assert((unnamed())(lookup.backend_views()[at]));
}

// ── What routing by name is for ─────────────────────────────────────────────

/// A wildcard is for exactly one label: a name is under a suffix exactly where it is some
/// label, without a dot and not empty, with the suffix behind it.
pub proof fn law_a_wildcard_takes_one_label(name: Seq<char>, suffix: Seq<char>, label: Seq<char>)
    ensures
        name == label + suffix && label.len() > 0 && !label.contains('.') ==> is_under(name, suffix),
        is_under(name, suffix) ==> {
            let rest = name.len() - suffix.len();
            &&& rest > 0
            &&& name == name.take(rest) + suffix
            &&& !name.take(rest).contains('.')
        },
{
    if name == label + suffix && label.len() > 0 && !label.contains('.') {
        assert(name.subrange(label.len() as int, name.len() as int) =~= suffix);
        assert forall|i: int| 0 <= i < name.len() - suffix.len() implies #[trigger] name[i] != '.' by {
            assert(name[i] == label[i]);
            assert(label.contains(label[i]));
        }
    }
    if is_under(name, suffix) {
        let rest = name.len() - suffix.len();
        assert(name.subrange(rest, rest + suffix.len()) == suffix);
        assert(name =~= name.take(rest) + suffix);
        if name.take(rest).contains('.') {
            let i = choose|i: int| 0 <= i < rest && name.take(rest)[i] == '.';
            assert(name[i] != '.');
        }
    }
}

/// A list has a name exactly where one of its patterns is that name, and a wildcard for it
/// exactly where one of its wildcards takes it.
pub proof fn law_a_list_has_what_it_lists(
    matchers: Seq<MatcherView>,
    name: Seq<char>,
    at: int,
    suffix: Seq<char>,
)
    ensures
        0 <= at < matchers.len() && matchers[at] == MatcherView::Exact(name) ==> has_exact(
            matchers,
            name,
        ),
        has_exact(matchers, name) ==> exists|i: int|
            0 <= i < matchers.len() && #[trigger] matchers[i] == MatcherView::Exact(name),
        0 <= at < matchers.len() && matchers[at] == MatcherView::Wildcard(suffix) && is_under(
            name,
            suffix,
        ) ==> has_wildcard(matchers, name),
        has_wildcard(matchers, name) ==> exists|i: int|
            0 <= i < matchers.len() && (#[trigger] matchers[i] matches MatcherView::Wildcard(tail)
                && is_under(name, tail)),
{
}

/// A name goes where it is claimed best: by its own name before any wildcard, here before
/// any backend, to an earlier backend before a later one; where nobody claims it, to the
/// first backend without names.
pub proof fn law_a_name_goes_where_it_is_claimed_best(
    lookup: SniLookup,
    name: Seq<char>,
    route: Option<SniRoute>,
    at: usize,
)
    requires
        lookup.routes(name, route),
        at < lookup.backend_views().len(),
    ensures
        ({
            let backends = lookup.backend_views();
            let local = lookup.local_view();
            let exact = exists|i: int| 0 <= i < backends.len() && has_exact(#[trigger] backends[i], name);
            let wild = exists|i: int|
                0 <= i < backends.len() && has_wildcard(#[trigger] backends[i], name);
            let here = Some(SniRoute::Local);
            let there = Some(SniRoute::Backend(at));
            &&& has_exact(local, name) ==> route == here
            &&& !has_exact(local, name) && !exact && has_wildcard(local, name) ==> route == here
            &&& !has_exact(local, name) && has_exact(backends[at as int], name) && (forall|i: int|
                0 <= i < at ==> !has_exact(#[trigger] backends[i], name)) ==> route == there
            &&& !has_exact(local, name) && !exact && !has_wildcard(local, name) && has_wildcard(
                backends[at as int],
                name,
            ) && (forall|i: int| 0 <= i < at ==> !has_wildcard(#[trigger] backends[i], name)) ==> route
                == there
            &&& !has_exact(local, name) && !exact && !has_wildcard(local, name) && !wild
                && backends[at as int].len() == 0 && (forall|i: int|
                0 <= i < at ==> (#[trigger] backends[i]).len() > 0) ==> route == there
            &&& route == here ==> has_exact(local, name) || has_wildcard(local, name)
            &&& route == there ==> has_exact(backends[at as int], name) || has_wildcard(
                backends[at as int],
                name,
            ) || backends[at as int].len() == 0
        }),
{
    let backends = lookup.backend_views();
    assert(no_backend(backends, exact_for(name)) <==> !(exists|i: int|
        0 <= i < backends.len() && has_exact(#[trigger] backends[i], name))) by {
        assert forall|i: int| 0 <= i < backends.len() implies ((exact_for(name))(#[trigger] backends[i])
            <==> has_exact(backends[i], name)) by {}
    }
    assert(no_backend(backends, wildcard_for(name)) <==> !(exists|i: int|
        0 <= i < backends.len() && has_wildcard(#[trigger] backends[i], name))) by {
        assert forall|i: int| 0 <= i < backends.len() implies ((wildcard_for(name))(
            #[trigger] backends[i],
        ) <==> has_wildcard(backends[i], name)) by {}
    }
    assert((exact_for(name))(backends[at as int]) <==> has_exact(backends[at as int], name));
    assert((wildcard_for(name))(backends[at as int]) <==> has_wildcard(backends[at as int], name));
    assert((unnamed())(backends[at as int]) <==> backends[at as int].len() == 0);
    match route {
        Some(SniRoute::Backend(to)) => {
            assert((exact_for(name))(backends[to as int]) <==> has_exact(backends[to as int], name));
            assert((wildcard_for(name))(backends[to as int]) <==> has_wildcard(
                backends[to as int],
                name,
            ));
            assert((unnamed())(backends[to as int]) <==> backends[to as int].len() == 0);
        },
        _ => {},
    }
}

/// A connection that names nobody, where that is not served here, and a name that nobody
/// claims go to the first backend without names, and nowhere where there is none.
pub proof fn law_what_nobody_claims_goes_to_the_first_without_names(
    backends: Seq<Seq<MatcherView>>,
    route: Option<SniRoute>,
    at: usize,
)
    requires
        catches_all(backends, route),
    ensures
        route == Some(SniRoute::Backend(at)) <==> at < backends.len() && backends[at as int].len() == 0
            && (forall|i: int| 0 <= i < at ==> (#[trigger] backends[i]).len() > 0),
        route is None <==> (forall|i: int|
            0 <= i < backends.len() ==> (#[trigger] backends[i]).len() > 0),
        route != Some(SniRoute::Local),
{
    assert forall|i: int| 0 <= i < backends.len() implies ((unnamed())(#[trigger] backends[i]) <==> backends[i].len()
        == 0) by {}
    match route {
        Some(SniRoute::Backend(to)) => {
            assert(0 <= to < backends.len() && (unnamed())(backends[to as int]));
            assert(backends[to as int].len() == 0);
        },
        _ => {},
    }
}

/// A pattern is seen for what it is: its name, or its suffix.
pub proof fn law_a_pattern_is_what_it_says(name: String, suffix: String, matchers: Seq<SniMatcher>, at: int)
    ensures
        SniMatcher::Exact(name)@ == MatcherView::Exact(name@),
        (SniMatcher::Wildcard { suffix })@ == MatcherView::Wildcard(suffix@),
        matcher_views(matchers).len() == matchers.len(),
        0 <= at < matchers.len() ==> matcher_views(matchers)[at] == matchers[at]@,
{
}

} // verus!
