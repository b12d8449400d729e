//! Configuration of the console server.
use vstd::prelude::*;
use crate::text::chars_of;

verus! {

/// An IP address.
#[derive(Debug, Clone, Copy)]
pub enum IpAddress {
    V4([u8; 4]),
    V6([u16; 8]),
}

/// Whether the address leads back to this machine: `127.0.0.0/8`, or `::1`.
pub open spec fn is_loopback(address: IpAddress) -> bool {
    match address {
        IpAddress::V4(octets) => octets@[0] == 127,
        IpAddress::V6(segments) => segments@ =~= seq![0u16, 0, 0, 0, 0, 0, 0, 1],
    }
}

/// Whether the address stands for all addresses: `0.0.0.0`, or `::`.
pub open spec fn is_unspecified(address: IpAddress) -> bool {
    match address {
        IpAddress::V4(octets) => octets@ =~= seq![0u8, 0, 0, 0],
        IpAddress::V6(segments) => segments@ =~= seq![0u16, 0, 0, 0, 0, 0, 0, 0],
    }
}

impl IpAddress {
    /// Returns whether the address leads back to this machine.
    pub fn is_loopback(&self) -> (loopback: bool)
        ensures
            loopback == is_loopback(*self),
    {
        match self {
            IpAddress::V4(octets) => octets[0] == 127,
            IpAddress::V6(segments) => segments[0] == 0 && segments[1] == 0 && segments[2] == 0
                && segments[3] == 0 && segments[4] == 0 && segments[5] == 0 && segments[6] == 0
                && segments[7] == 1,
        }
    }

    /// Returns whether the address stands for all addresses.
    pub fn is_unspecified(&self) -> (unspecified: bool)
        ensures
            unspecified == is_unspecified(*self),
    {
        match self {
            IpAddress::V4(octets) => octets[0] == 0 && octets[1] == 0 && octets[2] == 0
                && octets[3] == 0,
            IpAddress::V6(segments) => segments[0] == 0 && segments[1] == 0 && segments[2] == 0
                && segments[3] == 0 && segments[4] == 0 && segments[5] == 0 && segments[6] == 0
                && segments[7] == 0,
        }
    }
}

/// An address to listen on.
#[derive(Debug, Clone, Copy)]
pub struct BindAddress {
    pub ip: IpAddress,
    pub port: u16,
    /// The flow information of an IPv6 address, and zero otherwise.
    pub flow_info: u32,
    /// The scope id of an IPv6 address, and zero otherwise.
    pub scope_id: u32,
}

/// Display-oriented snapshot of one actor's message and mailbox statistics.
#[derive(Clone, Debug, Eq, PartialEq)]
pub struct ActorStatsView {
    pub actor_id: String,
    pub messages_received: u64,
    pub messages_accepted: u64,
    pub messages_conflated: u64,
    pub message_bytes_accepted: Option<u64>,
    pub sends_rejected: u64,
    pub mailbox_depth: usize,
    pub mailbox_capacity: usize,
}

/// Whether the character may stand in a token: a letter, a digit, or one of
/// `-`, `.`, `_` and `~`.
pub open spec fn is_url_safe(c: char) -> bool {
    ||| 'a' <= c && c <= 'z'
    ||| 'A' <= c && c <= 'Z'
    ||| '0' <= c && c <= '9'
    ||| c == '-'
    ||| c == '.'
    ||| c == '_'
    ||| c == '~'
}

/// Whether a token is acceptable: not empty, and URL-safe throughout.
pub open spec fn is_acceptable_token(token: Seq<char>) -> bool {
    &&& token.len() > 0
    &&& forall|i: int| 0 <= i < token.len() ==> is_url_safe(#[trigger] token[i])
}

fn acceptable_token(token: &str) -> (acceptable: bool)
    ensures
        acceptable == is_acceptable_token(token@),
{
    let chars = chars_of(token);
    if chars.len() == 0 {
        return false;
    }
    for i in 0..chars.len()
        invariant
            chars@ == token@,
            forall|j: int| 0 <= j < i ==> is_url_safe(#[trigger] token@[j]),
    {
        let c = chars[i];
        let safe = ('a' <= c && c <= 'z') || ('A' <= c && c <= 'Z') || ('0' <= c && c <= '9') || c
            == '-' || c == '.' || c == '_' || c == '~';
        if !safe {
            assert(!is_url_safe(token@[i as int]));
            return false;
        }
    }
    true
}

/// Builder for configuring a console server. `S` is where snapshots come from,
/// `N` where events come from, `F` where actor statistics come from.
pub struct ConsoleBuilder<S, N, F> {
    snapshots: Option<S>,
    events: Option<N>,
    stats: F,
    bind: BindAddress,
    access_token: Option<String>,
    allowed_hosts: Vec<String>,
}

/// What a [`ConsoleBuilder`] holds.
#[verifier::ext_equal]
pub struct ConsoleBuilderView<S, N, F> {
    pub snapshots: Option<S>,
    pub events: Option<N>,
    pub stats: F,
    pub bind: BindAddress,
    pub access_token: Option<Seq<char>>,
    pub allowed_hosts: Seq<Seq<char>>,
}

impl<S, N, F> View for ConsoleBuilder<S, N, F> {
    type V = ConsoleBuilderView<S, N, F>;

    closed spec fn view(&self) -> ConsoleBuilderView<S, N, F> {
        ConsoleBuilderView {
            snapshots: self.snapshots,
            events: self.events,
            stats: self.stats,
            bind: self.bind,
            access_token: crate::context::optional_text(self.access_token),
            allowed_hosts: self.allowed_hosts@.map_values(|host: String| host@),
        }
    }
}

/// What is wrong with a configuration, if anything: a bind that others can
/// reach without a token, an unacceptable token, no snapshots, no events.
pub open spec fn config_problem<S, N, F>(builder: ConsoleBuilderView<S, N, F>) -> Option<Seq<char>> {
    if !is_loopback(builder.bind.ip) && builder.access_token is None {
        Some("ConsoleBuilder: access_token required for non-loopback binds"@)
    } else if builder.access_token is Some && !is_acceptable_token(builder.access_token.unwrap()) {
        Some("ConsoleBuilder: access_token must be non-empty URL-safe ASCII"@)
    } else if builder.snapshots is None {
        Some("ConsoleBuilder: snapshots required"@)
    } else if builder.events is None {
        Some("ConsoleBuilder: events required"@)
    } else {
        None
    }
}

impl<S, N, F> ConsoleBuilder<S, N, F> {
    /// A builder for `127.0.0.1:9100` without a token.
    pub fn new(stats: F) -> (builder: Self)
        ensures
            builder@ == (ConsoleBuilderView::<S, N, F> {
                snapshots: None,
                events: None,
                stats,
                bind: builder@.bind,
                access_token: None,
                allowed_hosts: Seq::empty(),
            }),
            builder@.bind.port == 9100,
            builder@.bind.flow_info == 0,
            builder@.bind.scope_id == 0,
            builder@.bind.ip matches IpAddress::V4(octets) && octets@ == seq![127u8, 0, 0, 1],
    {
        let builder = ConsoleBuilder {
            snapshots: None,
            events: None,
            stats,
            bind: BindAddress {
                ip: IpAddress::V4([127, 0, 0, 1]),
                port: 9100,
                flow_info: 0,
                scope_id: 0,
            },
            access_token: None,
            allowed_hosts: Vec::new(),
        };
        assert(builder@.allowed_hosts =~= Seq::empty());
        builder
    }

    /// Sets the source of snapshots.
    pub fn snapshots(&mut self, snapshots: S)
        ensures
            final(self)@ == (ConsoleBuilderView { snapshots: Some(snapshots), ..old(self)@ }),
    {
        self.snapshots = Some(snapshots);
    }

    /// Sets the source of events.
    pub fn events(&mut self, events: N)
        ensures
            final(self)@ == (ConsoleBuilderView { events: Some(events), ..old(self)@ }),
    {
        self.events = Some(events);
    }

    /// Sets the pull source sampled for per-actor stats.
    pub fn actor_stats(&mut self, stats: F)
        ensures
            final(self)@ == (ConsoleBuilderView { stats, ..old(self)@ }),
    {
        self.stats = stats;
    }

    /// Sets the bind address. Defaults to `127.0.0.1:9100`.
    pub fn bind(&mut self, bind: BindAddress)
        ensures
            final(self)@ == (ConsoleBuilderView { bind, ..old(self)@ }),
    {
        self.bind = bind;
    }

    /// Requires this bearer token for HTTP and WebSocket access.
    pub fn access_token(&mut self, token: &str)
        ensures
            final(self)@ == (ConsoleBuilderView { access_token: Some(token@), ..old(self)@ }),
    {
        self.access_token = Some(token.to_owned());
    }

    /// Allows an additional HTTP `Host` authority.
    pub fn allowed_host(&mut self, authority: &str)
        ensures
            final(self)@ == (ConsoleBuilderView {
                allowed_hosts: old(self)@.allowed_hosts.push(authority@),
                ..old(self)@
            }),
    {
        self.allowed_hosts.push(authority.to_owned());
        assert(self@.allowed_hosts =~= old(self)@.allowed_hosts.push(authority@));
    }

    /// Returns what is wrong with the configuration, if anything.
    pub fn problem(&self) -> (problem: Option<&'static str>)
        ensures
            crate::observability::optional_chars(problem) == config_problem(self@),
    {
        if !self.bind.ip.is_loopback() && self.access_token.is_none() {
            return Some("ConsoleBuilder: access_token required for non-loopback binds");
        }
        if let Some(token) = &self.access_token {
            if !acceptable_token(token.as_str()) {
                return Some("ConsoleBuilder: access_token must be non-empty URL-safe ASCII");
            }
        }
        if self.snapshots.is_none() {
            return Some("ConsoleBuilder: snapshots required");
        }
        if self.events.is_none() {
            return Some("ConsoleBuilder: events required");
        }
        None
    }

    /// Returns the configured console.
    pub fn build(self) -> (console: Console<S, N, F>)
        requires
            config_problem(self@) is None,
        ensures
            Some(console.snapshots) == self@.snapshots,
            Some(console.events) == self@.events,
            console.stats == self@.stats,
            console.bind == self@.bind,
            crate::context::optional_text(console.access_token) == self@.access_token,
            console.allowed_hosts@.map_values(|host: String| host@) == self@.allowed_hosts,
    {
        Console {
            snapshots: self.snapshots.unwrap(),
            events: self.events.unwrap(),
            stats: self.stats,
            bind: self.bind,
            access_token: self.access_token,
            allowed_hosts: self.allowed_hosts,
        }
    }
}

/// A configured console server ready to start.
pub struct Console<S, N, F> {
    pub snapshots: S,
    pub events: N,
    pub stats: F,
    pub bind: BindAddress,
    pub access_token: Option<String>,
    pub allowed_hosts: Vec<String>,
}

/// A console without a token is built for loopback addresses only.
pub proof fn token_free_consoles_are_local<S, N, F>(builder: ConsoleBuilderView<S, N, F>)
    requires
        config_problem(builder) is None,
        builder.access_token is None,
    ensures
        is_loopback(builder.bind.ip),
{
}

/// The loopback addresses are those that start with 127, and `::1`; the
/// unspecified ones are all zeros.
pub proof fn addresses_are_told_apart(octets: [u8; 4], segments: [u16; 8])
    ensures
        is_loopback(IpAddress::V4(octets)) <==> octets@[0] == 127,
        is_loopback(IpAddress::V6(segments)) <==> segments@[7] == 1 && forall|i: int|
            0 <= i < 7 ==> segments@[i] == 0,
        is_unspecified(IpAddress::V4(octets)) <==> forall|i: int| 0 <= i < 4 ==> octets@[i] == 0,
        is_unspecified(IpAddress::V6(segments)) <==> forall|i: int|
            0 <= i < 8 ==> segments@[i] == 0,
{
    let one = seq![0u16, 0, 0, 0, 0, 0, 0, 1];
    let none = seq![0u16, 0, 0, 0, 0, 0, 0, 0];
    let zeros = seq![0u8, 0, 0, 0];
    if forall|i: int| 0 <= i < 4 ==> octets@[i] == 0 {
        assert(octets@ =~= zeros);
    }
    if segments@[7] == 1 && forall|i: int| 0 <= i < 7 ==> segments@[i] == 0 {
        assert(segments@ =~= one);
    }
    if forall|i: int| 0 <= i < 8 ==> segments@[i] == 0 {
        assert(segments@ =~= none);
    }
    if is_unspecified(IpAddress::V4(octets)) {
        assert forall|i: int| 0 <= i < 4 implies octets@[i] == 0 by {
            assert(zeros[i] == 0);
        }
    }
    if is_loopback(IpAddress::V6(segments)) {
        assert forall|i: int| 0 <= i < 7 implies segments@[i] == 0 by {
            assert(one[i] == 0);
        }
        assert(one[7] == 1);
    }
    if is_unspecified(IpAddress::V6(segments)) {
        assert forall|i: int| 0 <= i < 8 implies segments@[i] == 0 by {
            assert(none[i] == 0);
        }
    }
}

/// Of a token's characters, letters, digits and the four marks that a URL
/// leaves alone are safe, and no other one is: neither blanks, nor what
/// separates the parts of a URL, nor anything that is not ASCII.
pub proof fn url_safe_characters(c: char)
    ensures
        c as u32 >= 128 ==> !is_url_safe(c),
        c == '-' || c == '.' || c == '_' || c == '~' ==> is_url_safe(c),
        '0' <= c <= '9' || 'A' <= c <= 'Z' || 'a' <= c <= 'z' ==> is_url_safe(c),
        is_url_safe(c) ==> c != ' ' && c != '&' && c != '=' && c != '/' && c != '?' && c != '#' && c
            != '%' && c != '+' && c != ';' && c != ':',
        is_url_safe(c) && !('0' <= c <= '9' || 'A' <= c <= 'Z' || 'a' <= c <= 'z') ==> c == '-' || c
            == '.' || c == '_' || c == '~',
{
}

/// A token is acceptable exactly where it holds at least one character and safe
/// ones only.
pub proof fn acceptable_tokens_are_safe_throughout(token: Seq<char>, c: char, more: Seq<char>)
    ensures
        !is_acceptable_token(Seq::empty()),
        is_url_safe(c) ==> is_acceptable_token(seq![c]),
        !is_url_safe(c) ==> !is_acceptable_token(token.push(c) + more),
        is_acceptable_token(token) && is_url_safe(c) ==> is_acceptable_token(token.push(c)),
{
    if !is_url_safe(c) {
        let text = token.push(c) + more;
        assert(text[token.len() as int] == c);
    }
}

/// A console is configured exactly where it has snapshots, events and, unless
/// it listens on loopback alone, a token, and where a token that it has is
/// acceptable. The first thing that is wrong is reported.
pub proof fn consoles_need_their_parts<S, N, F>(builder: ConsoleBuilderView<S, N, F>)
    ensures
        config_problem(builder) is None <==> {
            &&& builder.snapshots is Some
            &&& builder.events is Some
            &&& is_loopback(builder.bind.ip) || builder.access_token is Some
            &&& builder.access_token matches Some(token) ==> is_acceptable_token(token)
        },
        !is_loopback(builder.bind.ip) && builder.access_token is None ==> config_problem(builder)
            == Some("ConsoleBuilder: access_token required for non-loopback binds"@),
        builder.access_token matches Some(token) && !is_acceptable_token(token) ==> config_problem(
            builder,
        ) == Some("ConsoleBuilder: access_token must be non-empty URL-safe ASCII"@),
        (builder.access_token matches Some(token) && is_acceptable_token(token))
            && builder.snapshots is None ==> config_problem(builder) == Some(
            "ConsoleBuilder: snapshots required"@,
        ),
        (builder.access_token matches Some(token) && is_acceptable_token(token))
            && builder.snapshots is Some && builder.events is None ==> config_problem(builder)
            == Some("ConsoleBuilder: events required"@),
{
}

/// A console listens on port 9100 of 127.0.0.1 unless told otherwise, without a
/// token or further hosts. What is set afterwards is what it is built with; hosts
/// add up in order.
pub proof fn settings_reach_the_console<S, N, F>(
    fresh: ConsoleBuilder<S, N, F>,
    stats: F,
    sourcing: &mut ConsoleBuilder<S, N, F>,
    listening: &mut ConsoleBuilder<S, N, F>,
    binding: &mut ConsoleBuilder<S, N, F>,
    guarding: &mut ConsoleBuilder<S, N, F>,
    opening: &mut ConsoleBuilder<S, N, F>,
    snapshots: S,
    events: N,
    bind: BindAddress,
    token: &str,
    authority: &str,
    done: ((), (), (), (), ()),
    console: Console<S, N, F>,
)
    requires
        call_ensures(ConsoleBuilder::<S, N, F>::new, (stats,), fresh),
        call_ensures(ConsoleBuilder::<S, N, F>::snapshots, (sourcing, snapshots), done.0),
        *old(listening) == *final(sourcing),
        call_ensures(ConsoleBuilder::<S, N, F>::events, (listening, events), done.1),
        *old(binding) == *final(listening),
        call_ensures(ConsoleBuilder::<S, N, F>::bind, (binding, bind), done.2),
        *old(guarding) == *final(binding),
        call_ensures(ConsoleBuilder::<S, N, F>::access_token, (guarding, token), done.3),
        *old(opening) == *final(guarding),
        call_ensures(ConsoleBuilder::<S, N, F>::allowed_host, (opening, authority), done.4),
        call_ensures(ConsoleBuilder::<S, N, F>::build, (*final(opening),), console),
    ensures
        fresh@.bind.port == 9100,
        fresh@.bind.ip matches IpAddress::V4(octets) && octets@ == seq![127u8, 0, 0, 1],
        fresh@.access_token is None,
        fresh@.allowed_hosts.len() == 0,
        fresh@.snapshots is None,
        fresh@.events is None,
        fresh@.stats == stats,
        console.snapshots == snapshots,
        console.events == events,
        console.bind == bind,
        console.stats == old(sourcing)@.stats,
        console.access_token is Some && console.access_token.unwrap()@ == token@,
        console.allowed_hosts@.len() == old(sourcing)@.allowed_hosts.len() + 1,
        console.allowed_hosts@.last()@ == authority@,
        forall|i: int|
            0 <= i < old(sourcing)@.allowed_hosts.len() ==> (#[trigger] console.allowed_hosts@[i])@
                == old(sourcing)@.allowed_hosts[i],
{
    let told = final(opening)@.allowed_hosts;
    let held = console.allowed_hosts@.map_values(|host: String| host@);
    assert(held == told);
    assert(held.len() == console.allowed_hosts@.len());
    assert forall|i: int| 0 <= i < told.len() implies (#[trigger] console.allowed_hosts@[i])@
        == told[i] by {
        assert(held[i] == console.allowed_hosts@[i]@);
    }
    assert(told.last() == authority@);
}

/// What is wrong with a console is found in an order: first its token, then its
/// snapshots, then its events. Nothing is wrong exactly where it has both, and a
/// token that is safe in a URL or, without one, an address of the machine itself.
pub proof fn console_problems_are_found_in_order<S, N, F>(
    builder: &ConsoleBuilder<S, N, F>,
    problem: Option<&'static str>,
)
    requires
        call_ensures(ConsoleBuilder::<S, N, F>::problem, (builder,), problem),
    ensures
        ({
            let guarded = match builder@.access_token {
                Some(token) => token.len() > 0 && forall|i: int|
                    0 <= i < token.len() ==> is_url_safe(#[trigger] token[i]),
                None => is_loopback(builder@.bind.ip),
            };
            &&& problem is None <==> guarded && builder@.snapshots is Some
                && builder@.events is Some
            &&& !guarded && builder@.access_token is None ==> problem is Some
                && problem.unwrap()@
                == "ConsoleBuilder: access_token required for non-loopback binds"@
            &&& !guarded && builder@.access_token is Some ==> problem is Some
                && problem.unwrap()@
                == "ConsoleBuilder: access_token must be non-empty URL-safe ASCII"@
            &&& guarded && builder@.snapshots is None ==> problem is Some && problem.unwrap()@
                == "ConsoleBuilder: snapshots required"@
            &&& guarded && builder@.snapshots is Some && builder@.events is None
                ==> problem is Some && problem.unwrap()@ == "ConsoleBuilder: events required"@
        }),
{
    consoles_need_their_parts(builder@);
}

} // verus!
