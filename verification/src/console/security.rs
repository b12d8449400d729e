//! Who may use the console: hosts, origins, tokens and sessions.
use vstd::prelude::*;
use crate::console::config::IpAddress;
use crate::console::session::{Session, SessionView};
use crate::text::{
    ascii_lowercase, chars_of, decimal_text, find_char, joined, same_but_for_case, same_text, slice,
    string_of, trim_chars, without_suffix,
};

verus! {

// ---------------------------------------------------------------------------
// Hosts
// ---------------------------------------------------------------------------

/// The `Host` authorities that requests may name, in lower case.
#[derive(Debug)]
pub struct HostSet {
    hosts: Vec<String>,
}

impl View for HostSet {
    type V = Set<Seq<char>>;

    closed spec fn view(&self) -> Set<Seq<char>> {
        self.hosts@.map_values(|host: String| host@).to_set()
    }
}

/// The forms under which an authority is allowed: in lower case, and without
/// the port too where it is the default one of a scheme.
pub open spec fn authority_forms(authority: Seq<char>) -> Set<Seq<char>> {
    let full = crate::text::lower(authority);
    if crate::text::ends_with(full, ":80"@) {
        set![full, full.take(full.len() - ":80"@.len())]
    } else if crate::text::ends_with(full, ":443"@) {
        set![full, full.take(full.len() - ":443"@.len())]
    } else {
        set![full]
    }
}

impl HostSet {
    /// No hosts yet.
    pub fn new() -> (hosts: HostSet)
        ensures
            hosts@ == Set::<Seq<char>>::empty(),
    {
        let hosts = HostSet { hosts: Vec::new() };
        assert(hosts@ =~= Set::empty());
        hosts
    }

    /// Whether exactly this authority is in the set.
    pub fn contains(&self, host: &str) -> (found: bool)
        ensures
            found == self@.contains(host@),
    {
        let ghost texts = self.hosts@.map_values(|host: String| host@);
        for i in 0..self.hosts.len()
            invariant
                texts == self.hosts@.map_values(|host: String| host@),
                forall|j: int| 0 <= j < i ==> #[trigger] texts[j] != host@,
        {
            assert(texts[i as int] == self.hosts@[i as int]@);
            if same_text(self.hosts[i].as_str(), host) {
                return true;
            }
        }
        assert(!texts.contains(host@));
        false
    }

    fn insert(&mut self, host: String)
        ensures
            final(self)@ == old(self)@.insert(host@),
    {
        if self.contains(host.as_str()) {
            assert(self@ =~= old(self)@.insert(host@));
            return ;
        }
        let ghost before = self.hosts@.map_values(|host: String| host@);
        self.hosts.push(host);
        let ghost after = self.hosts@.map_values(|host: String| host@);
        proof {
            assert(after =~= before.push(host@));
            assert forall|text: Seq<char>| after.to_set().contains(text) == before.to_set().insert(
                host@,
            ).contains(text) by {
                if before.contains(text) {
                    let i = choose|i: int| 0 <= i < before.len() && before[i] == text;
                    assert(after[i] == text);
                }
                assert(after[before.len() as int] == host@);
            }
            assert(self@ =~= old(self)@.insert(host@));
        }
    }
}

/// Allows an authority in all of its forms.
pub fn insert_authority(hosts: &mut HostSet, authority: &str)
    ensures
        final(hosts)@ == old(hosts)@.union(authority_forms(authority@)),
{
    let full = ascii_lowercase(authority);
    let shorter = match without_suffix(full.as_str(), ":80") {
        Some(host) => Some(host),
        None => without_suffix(full.as_str(), ":443"),
    };
    if let Some(host) = shorter {
        hosts.insert(host);
    }
    hosts.insert(full);
    assert(hosts@ =~= old(hosts)@.union(authority_forms(authority@)));
}

/// All forms of all the given authorities.
pub open spec fn forms_of_all(authorities: Seq<Seq<char>>) -> Set<Seq<char>>
    decreases authorities.len(),
{
    if authorities.len() == 0 {
        Set::empty()
    } else {
        forms_of_all(authorities.drop_last()).union(authority_forms(authorities.last()))
    }
}

/// The authorities that a console allows: those it was configured with, the
/// address it listens on, and on loopback `localhost` with its port.
pub open spec fn allowed_authorities(
    configured: Seq<Seq<char>>,
    local_address: Seq<char>,
    ip: IpAddress,
    port: u16,
) -> Set<Seq<char>> {
    let listening = forms_of_all(configured).union(authority_forms(local_address));
    if crate::console::config::is_loopback(ip) {
        listening.union(authority_forms("localhost:"@ + crate::text::decimal(port as nat)))
    } else {
        listening
    }
}

/// Collects the authorities that a console allows. `local_address` is how the
/// address that it listens on is written.
pub fn allowed_hosts(
    configured: &Vec<String>,
    local_address: &str,
    ip: IpAddress,
    port: u16,
) -> (hosts: HostSet)
    ensures
        hosts@ == allowed_authorities(
            configured@.map_values(|host: String| host@),
            local_address@,
            ip,
            port,
        ),
{
    let ghost texts = configured@.map_values(|host: String| host@);
    let mut hosts = HostSet::new();
    for i in 0..configured.len()
        invariant
            texts == configured@.map_values(|host: String| host@),
            hosts@ == forms_of_all(texts.take(i as int)),
    {
        insert_authority(&mut hosts, configured[i].as_str());
        proof {
            let longer = texts.take(i + 1);
            assert(longer.drop_last() =~= texts.take(i as int));
            assert(longer.last() == configured@[i as int]@);
        }
    }
    assert(texts.take(texts.len() as int) =~= texts);
    insert_authority(&mut hosts, local_address);
    if ip.is_loopback() {
        let digits = decimal_text(port as u128);
        let authority = joined("localhost:", digits.as_str());
        insert_authority(&mut hosts, authority.as_str());
    }
    hosts
}

/// Whether the console warns that no client host is allowed: it listens on all
/// addresses, and no authority was configured.
pub fn warns_of_wildcard(ip: IpAddress, configured: &Vec<String>) -> (warns: bool)
    ensures
        warns == (crate::console::config::is_unspecified(ip) && configured@.len() == 0),
{
    ip.is_unspecified() && configured.len() == 0
}

// ---------------------------------------------------------------------------
// Requests
// ---------------------------------------------------------------------------

/// The `Origin` header of a request.
#[derive(Debug)]
pub enum OriginHeader {
    /// There is none: the request does not come from a page.
    Absent,
    /// There is one that is no text.
    Unreadable,
    /// The origin.
    Text(String),
}

/// The parts of a request that decide whether it is let through. Headers that
/// are missing, or are no text, are `None`.
#[derive(Debug)]
pub struct RequestHead {
    pub method: String,
    pub path: String,
    pub query: Option<String>,
    /// The authority in the request's own URI.
    pub uri_authority: Option<String>,
    pub host: Option<String>,
    pub origin: OriginHeader,
    pub authorization: Option<String>,
    pub cookie: Option<String>,
}

/// What an [`OriginHeader`] says.
pub enum OriginView {
    Absent,
    Unreadable,
    Text(Seq<char>),
}

/// What a [`RequestHead`] says.
pub struct RequestView {
    pub method: Seq<char>,
    pub path: Seq<char>,
    pub query: Option<Seq<char>>,
    pub uri_authority: Option<Seq<char>>,
    pub host: Option<Seq<char>>,
    pub origin: OriginView,
    pub authorization: Option<Seq<char>>,
    pub cookie: Option<Seq<char>>,
}

impl View for RequestHead {
    type V = RequestView;

    open spec fn view(&self) -> RequestView {
        RequestView {
            method: self.method@,
            path: self.path@,
            query: crate::context::optional_text(self.query),
            uri_authority: crate::context::optional_text(self.uri_authority),
            host: crate::context::optional_text(self.host),
            origin: match self.origin {
                OriginHeader::Absent => OriginView::Absent,
                OriginHeader::Unreadable => OriginView::Unreadable,
                OriginHeader::Text(text) => OriginView::Text(text@),
            },
            authorization: crate::context::optional_text(self.authorization),
            cookie: crate::context::optional_text(self.cookie),
        }
    }
}

/// The authority that a request is for: its `Host`, or that of its URI.
pub open spec fn authority_of(request: RequestView) -> Option<Seq<char>> {
    match request.host {
        Some(host) => Some(host),
        None => request.uri_authority,
    }
}

/// Returns the authority that a request is for.
pub fn request_authority(request: &RequestHead) -> (authority: Option<&str>)
    ensures
        crate::observability::optional_chars(authority) == authority_of(request@),
{
    match &request.host {
        Some(host) => Some(host.as_str()),
        None => match &request.uri_authority {
            Some(authority) => Some(authority.as_str()),
            None => None,
        },
    }
}

/// Whether a request is for an allowed authority, in whatever letter case.
pub open spec fn is_host_allowed(request: RequestView, hosts: Set<Seq<char>>) -> bool {
    match authority_of(request) {
        Some(authority) => hosts.contains(crate::text::lower(authority)),
        None => false,
    }
}

/// Returns whether a request is for an allowed authority.
pub fn host_allowed(request: &RequestHead, hosts: &HostSet) -> (allowed: bool)
    ensures
        allowed == is_host_allowed(request@, hosts@),
{
    match request_authority(request) {
        Some(authority) => {
            let lowered = ascii_lowercase(authority);
            hosts.contains(lowered.as_str())
        },
        None => false,
    }
}

/// Whether a request comes from a page of the authority that it is for, or
/// from no page at all.
pub open spec fn is_origin_allowed(request: RequestView) -> bool {
    match (request.origin, authority_of(request)) {
        (OriginView::Absent, _) => true,
        (OriginView::Text(origin), Some(authority)) => {
            ||| crate::text::lower(origin) == crate::text::lower("http://"@ + authority)
            ||| crate::text::lower(origin) == crate::text::lower("https://"@ + authority)
        },
        _ => false,
    }
}

/// Returns whether a request comes from a page of the authority that it is
/// for, or from no page at all.
pub fn origin_allowed(request: &RequestHead) -> (allowed: bool)
    ensures
        allowed == is_origin_allowed(request@),
{
    match (&request.origin, request_authority(request)) {
        (OriginHeader::Absent, _) => true,
        (OriginHeader::Text(origin), Some(authority)) => {
            let plain = joined("http://", authority);
            let secure = joined("https://", authority);
            same_but_for_case(origin.as_str(), plain.as_str()) || same_but_for_case(
                origin.as_str(),
                secure.as_str(),
            )
        },
        _ => false,
    }
}

// ---------------------------------------------------------------------------
// Credentials
// ---------------------------------------------------------------------------

/// The value of a `name=value` part, if it has the given name.
pub open spec fn part_value(part: Seq<char>, name: Seq<char>) -> Option<Seq<char>> {
    match crate::text::split_at_first(part, '=') {
        Some((found, value)) => if found == name {
            Some(value)
        } else {
            None
        },
        None => None,
    }
}

/// The value of the first part at or after `from` that has the given name,
/// where parts are set apart by `separator` and trimmed where `trim` says so.
pub open spec fn first_value(
    text: Seq<char>,
    separator: char,
    trim: bool,
    name: Seq<char>,
    from: int,
) -> Option<Seq<char>>
    decreases text.len() - from,
{
    if from < 0 || from > text.len() {
        None
    } else {
        let end = crate::text::char_from(text, separator, from);
        let raw = text.subrange(from, end);
        let part = if trim {
            crate::text::trimmed(raw)
        } else {
            raw
        };
        match part_value(part, name) {
            Some(value) => Some(value),
            None => if from <= end < text.len() {
                first_value(text, separator, trim, name, end + 1)
            } else {
                None
            },
        }
    }
}

fn value_in_part(part: &Vec<char>, name: &str) -> (value: Option<String>)
    ensures
        crate::context::optional_text(value) == part_value(part@, name@),
{
    let place: usize = find_char(part, '=', 0);
    if place >= part.len() {
        return None;
    }
    let found = string_of(&slice(part, 0, place));
    assert(found@ =~= part@.take(place as int));
    if !same_text(found.as_str(), name) {
        return None;
    }
    let value = slice(part, place + 1, part.len());
    assert(value@ =~= part@.skip(place + 1));
    Some(string_of(&value))
}

fn find_value(text: &str, separator: char, trim: bool, name: &str) -> (value: Option<String>)
    ensures
        crate::context::optional_text(value) == first_value(text@, separator, trim, name@, 0),
{
    let chars = chars_of(text);
    let mut from: usize = 0;
    loop
        invariant
            chars@ == text@,
            from <= chars@.len(),
            first_value(text@, separator, trim, name@, 0) == first_value(
                text@,
                separator,
                trim,
                name@,
                from as int,
            ),
        decreases chars@.len() - from,
    {
        let end: usize = find_char(&chars, separator, from);
        let raw = slice(&chars, from, end);
        let part = if trim {
            trim_chars(&raw)
        } else {
            raw
        };
        let value = value_in_part(&part, name);
        if value.is_some() {
            return value;
        }
        if end >= chars.len() {
            return None;
        }
        from = end + 1;
    }
}

/// The `token` parameter of a query string.
pub open spec fn query_token(query: Option<Seq<char>>) -> Option<Seq<char>> {
    match query {
        Some(query) => first_value(query, '&', false, "token"@, 0),
        None => None,
    }
}

/// Returns the `token` parameter of a request's query string.
pub fn token_from_query(request: &RequestHead) -> (token: Option<String>)
    ensures
        crate::context::optional_text(token) == query_token(request@.query),
{
    match &request.query {
        Some(query) => find_value(query.as_str(), '&', false, "token"),
        None => None,
    }
}

/// The token of an `Authorization` header with the `Bearer` scheme.
pub open spec fn bearer_of(authorization: Option<Seq<char>>) -> Option<Seq<char>> {
    match authorization {
        Some(text) => match crate::text::split_at_first(text, ' ') {
            Some((scheme, token)) => if crate::text::lower(scheme) == crate::text::lower("Bearer"@) {
                Some(token)
            } else {
                None
            },
            None => None,
        },
        None => None,
    }
}

/// Returns the token of a request's `Authorization` header with the `Bearer`
/// scheme.
pub fn bearer_token(request: &RequestHead) -> (token: Option<String>)
    ensures
        crate::context::optional_text(token) == bearer_of(request@.authorization),
{
    let text = match &request.authorization {
        Some(text) => text.as_str(),
        None => {
            return None;
        },
    };
    let chars = chars_of(text);
    let place: usize = find_char(&chars, ' ', 0);
    if place >= chars.len() {
        return None;
    }
    let scheme = string_of(&slice(&chars, 0, place));
    assert(scheme@ =~= text@.take(place as int));
    if !same_but_for_case(scheme.as_str(), "Bearer") {
        return None;
    }
    let token = slice(&chars, place + 1, chars.len());
    assert(token@ =~= text@.skip(place + 1));
    Some(string_of(&token))
}

/// The value of the cookie with the given name.
pub open spec fn cookie_of(cookies: Option<Seq<char>>, name: Seq<char>) -> Option<Seq<char>> {
    match cookies {
        Some(cookies) => first_value(cookies, ';', true, name, 0),
        None => None,
    }
}

/// Returns the value of a request's cookie with the given name.
pub fn cookie_value(request: &RequestHead, cookie_name: &str) -> (value: Option<String>)
    ensures
        crate::context::optional_text(value) == cookie_of(request@.cookie, cookie_name@),
{
    match &request.cookie {
        Some(cookies) => find_value(cookies.as_str(), ';', true, cookie_name),
        None => None,
    }
}

/// The byte at an index, or zero behind the end.
pub open spec fn byte_at(bytes: Seq<u8>, index: int) -> u8 {
    if 0 <= index < bytes.len() {
        bytes[index]
    } else {
        0
    }
}

fn padded_byte(bytes: &[u8], index: usize) -> (byte: u8)
    ensures
        byte == byte_at(bytes@, index as int),
{
    if index < bytes.len() {
        bytes[index]
    } else {
        0
    }
}

/// Whether the candidate is the expected text. However they differ, as many
/// steps are taken as the longer of the two has bytes.
pub fn token_matches(candidate: Option<&str>, expected: &str) -> (matches: bool)
    ensures
        matches == (crate::observability::optional_chars(candidate) == Some(expected@)),
{
    let candidate = match candidate {
        Some(candidate) => candidate,
        None => {
            return false;
        },
    };
    let a = candidate.as_bytes();
    let b = expected.as_bytes();
    let a_len: usize = a.len();
    let b_len: usize = b.len();
    let length: usize = if a_len < b_len {
        b_len
    } else {
        a_len
    };
    let mut difference: usize = a_len ^ b_len;
    assert(difference == 0 <==> a_len == b_len) by (bit_vector)
        requires
            difference == a_len ^ b_len,
    ;
    for index in 0..length
        invariant
            a_len == a@.len(),
            b_len == b@.len(),
            difference == 0 <==> a_len == b_len && forall|i: int|
                0 <= i < index ==> #[trigger] byte_at(a@, i) == byte_at(b@, i),
    {
        let x: u8 = padded_byte(a, index);
        let y: u8 = padded_byte(b, index);
        let step: usize = (x ^ y) as usize;
        assert(step == 0 <==> x == y) by (bit_vector)
            requires
                step == (x ^ y) as usize,
        ;
        let next: usize = difference | step;
        assert(next == 0 <==> difference == 0 && step == 0) by (bit_vector)
            requires
                next == difference | step,
        ;
        difference = next;
    }
    proof {
        if difference == 0 {
            assert forall|i: int| 0 <= i < a@.len() implies a@[i] == b@[i] by {
                assert(byte_at(a@, i) == byte_at(b@, i));
            }
            assert(a@ =~= b@);
            vstd::utf8::encode_utf8_decode_utf8(candidate@);
            vstd::utf8::encode_utf8_decode_utf8(expected@);
        }
    }
    difference == 0
}

// ---------------------------------------------------------------------------
// The decision
// ---------------------------------------------------------------------------

/// An answer that is given in place of what was asked for.
#[derive(Debug)]
pub struct Answer {
    pub status: u16,
    pub headers: Vec<(&'static str, String)>,
    pub body: &'static str,
}

/// What becomes of a request.
#[derive(Debug)]
pub enum Decision {
    /// It is let through.
    Forward,
    /// It is answered here.
    Respond(Answer),
}

/// What a [`Decision`] says.
#[verifier::ext_equal]
pub enum DecisionView {
    Forward,
    Respond { status: u16, headers: Seq<(Seq<char>, Seq<char>)>, body: Seq<char> },
}

impl View for Decision {
    type V = DecisionView;

    open spec fn view(&self) -> DecisionView {
        match *self {
            Decision::Forward => DecisionView::Forward,
            Decision::Respond(answer) => DecisionView::Respond {
                status: answer.status,
                headers: answer.headers@.map_values(
                    |header: (&'static str, String)| (header.0@, header.1@),
                ),
                body: answer.body@,
            },
        }
    }
}

/// What decides about the requests to a console.
#[derive(Debug)]
pub struct SecurityState {
    allowed_hosts: HostSet,
    protection: Option<(String, Session)>,
}

/// What a [`SecurityState`] holds.
pub struct SecurityView {
    pub allowed_hosts: Set<Seq<char>>,
    /// The access token and the browser session, where the console has them.
    pub protection: Option<(Seq<char>, SessionView)>,
}

impl View for SecurityState {
    type V = SecurityView;

    closed spec fn view(&self) -> SecurityView {
        SecurityView {
            allowed_hosts: self.allowed_hosts@,
            protection: match self.protection {
                Some((token, session)) => Some((token@, session@)),
                None => None,
            },
        }
    }
}

/// The cookie that a session is handed out with.
pub open spec fn session_cookie(session: SessionView) -> Seq<char> {
    session.cookie_name + "="@ + session.value + "; HttpOnly; SameSite=Lax; Path=/"@
}

/// The refusal of a request that the console has nothing to say to.
pub open spec fn forbidden(reason: Seq<char>) -> DecisionView {
    DecisionView::Respond { status: 403, headers: Seq::empty(), body: reason }
}

/// The refusal of a request without valid credentials.
pub open spec fn unauthorized() -> DecisionView {
    DecisionView::Respond {
        status: 401,
        headers: seq![("www-authenticate"@, "Bearer"@)],
        body: "valid bearer token required"@,
    }
}

/// The answer to a browser that opens the console with the token: it gets the
/// session and is sent on to the page without the token.
pub open spec fn bootstrapped(session: SessionView) -> DecisionView {
    DecisionView::Respond {
        status: 303,
        headers: seq![
            ("location"@, "/"@),
            ("set-cookie"@, session_cookie(session)),
            ("referrer-policy"@, "no-referrer"@),
            ("cache-control"@, "no-store"@),
        ],
        body: ""@,
    }
}

/// Whether a request opens the console with the given token.
pub open spec fn is_bootstrap(request: RequestView, token: Seq<char>) -> bool {
    &&& request.method == "GET"@
    &&& request.path == "/"@
    &&& query_token(request.query) == Some(token)
}

/// Whether a request carries the token or the session.
pub open spec fn is_authorized(
    request: RequestView,
    token: Seq<char>,
    session: SessionView,
) -> bool {
    ||| bearer_of(request.authorization) == Some(token)
    ||| cookie_of(request.cookie, session.cookie_name) == Some(session.value)
}

/// What becomes of a request.
pub open spec fn decided(state: SecurityView, request: RequestView) -> DecisionView {
    if !is_host_allowed(request, state.allowed_hosts) {
        forbidden("host not allowed"@)
    } else if request.path == "/ws"@ && !is_origin_allowed(request) {
        forbidden("origin not allowed"@)
    } else {
        match state.protection {
            None => DecisionView::Forward,
            Some((token, session)) => if is_bootstrap(request, token) {
                bootstrapped(session)
            } else if is_authorized(request, token, session) {
                DecisionView::Forward
            } else {
                unauthorized()
            },
        }
    }
}

fn refuse(reason: &'static str) -> (decision: Decision)
    ensures
        decision@ =~~= forbidden(reason@),
{
    Decision::Respond(Answer { status: 403, headers: Vec::new(), body: reason })
}

fn as_candidate(text: &Option<String>) -> (candidate: Option<&str>)
    ensures
        crate::observability::optional_chars(candidate) == crate::context::optional_text(*text),
{
    match text {
        Some(text) => Some(text.as_str()),
        None => None,
    }
}

impl SecurityState {
    /// Decides about requests to the given hosts, with a token and a session
    /// where the console is protected.
    pub fn new(allowed_hosts: HostSet, protection: Option<(String, Session)>) -> (state: Self)
        ensures
            state@.allowed_hosts == allowed_hosts@,
            state@.protection == match protection {
                Some((token, session)) => Some((token@, session@)),
                None => None,
            },
    {
        SecurityState { allowed_hosts, protection }
    }

    /// Decides what becomes of a request.
    pub fn security(&self, request: &RequestHead) -> (decision: Decision)
        ensures
            decision@ =~~= decided(self@, request@),
    {
        if !host_allowed(request, &self.allowed_hosts) {
            return refuse("host not allowed");
        }
        if same_text(request.path.as_str(), "/ws") && !origin_allowed(request) {
            return refuse("origin not allowed");
        }
        let (expected, session) = match &self.protection {
            Some((token, session)) => (token, session),
            None => {
                return Decision::Forward;
            },
        };
        if same_text(request.method.as_str(), "GET") && same_text(request.path.as_str(), "/") {
            let token = token_from_query(request);
            if token_matches(as_candidate(&token), expected.as_str()) {
                return Self::bootstrap(session);
            }
        }
        let bearer = bearer_token(request);
        let bearer_matches = token_matches(as_candidate(&bearer), expected.as_str());
        let cookie = cookie_value(request, session.cookie_name());
        let session_matches = token_matches(as_candidate(&cookie), session.value());
        if !bearer_matches && !session_matches {
            let mut headers: Vec<(&'static str, String)> = Vec::new();
            headers.push(("www-authenticate", "Bearer".to_owned()));
            return Decision::Respond(
                Answer { status: 401, headers, body: "valid bearer token required" },
            );
        }
        Decision::Forward
    }

    fn bootstrap(session: &Session) -> (decision: Decision)
        ensures
            decision@ =~~= bootstrapped(session@),
    {
        let mut cookie = session.cookie_name().to_owned();
        cookie.append("=");
        cookie.append(session.value());
        cookie.append("; HttpOnly; SameSite=Lax; Path=/");
        let mut headers: Vec<(&'static str, String)> = Vec::new();
        headers.push(("location", "/".to_owned()));
        headers.push(("set-cookie", cookie));
        headers.push(("referrer-policy", "no-referrer".to_owned()));
        headers.push(("cache-control", "no-store".to_owned()));
        Decision::Respond(Answer { status: 303, headers, body: "" })
    }
}

// ---------------------------------------------------------------------------
// What follows
// ---------------------------------------------------------------------------

/// A request to an authority that is not allowed is refused, whatever it
/// carries.
pub proof fn unlisted_hosts_are_refused(state: SecurityView, request: RequestView)
    requires
        !is_host_allowed(request, state.allowed_hosts),
    ensures
        decided(state, request) == forbidden("host not allowed"@),
{
}

/// A web socket that a page of another origin opens is refused, whatever it
/// carries.
pub proof fn foreign_origins_get_no_socket(state: SecurityView, request: RequestView)
    requires
        request.path == "/ws"@,
        !is_origin_allowed(request),
    ensures
        decided(state, request) == forbidden("host not allowed"@) || decided(state, request)
            == forbidden("origin not allowed"@),
{
}

/// A protected console lets no request through that carries neither the token
/// in its `Authorization` nor the session's cookie: it is answered as
/// unauthorized, unless it is refused for its host or origin or opens the page
/// with the token in its query.
pub proof fn protected_consoles_want_credentials(
    state: SecurityView,
    request: RequestView,
    token: Seq<char>,
    session: SessionView,
)
    requires
        state.protection == Some((token, session)),
        !is_authorized(request, token, session),
    ensures
        decided(state, request) != DecisionView::Forward,
        is_host_allowed(request, state.allowed_hosts) && (request.path == "/ws"@
            ==> is_origin_allowed(request)) && !is_bootstrap(request, token) ==> decided(
            state,
            request,
        ) == unauthorized(),
{
}

/// The session is handed out for nothing but a `GET` of the page with the
/// token in its query, and only at an allowed host.
pub proof fn only_the_page_hands_out_the_session(
    state: SecurityView,
    request: RequestView,
    token: Seq<char>,
    session: SessionView,
)
    requires
        state.protection == Some((token, session)),
        decided(state, request) == bootstrapped(session),
    ensures
        request.method == "GET"@,
        request.path == "/"@,
        query_token(request.query) == Some(token),
        is_host_allowed(request, state.allowed_hosts),
{
    let answer = bootstrapped(session);
    assert(answer->status == 303);
}

proof fn single_part_value(text: Seq<char>, separator: char, trim: bool, name: Seq<char>)
    requires
        forall|i: int| 0 <= i < text.len() ==> text[i] != separator,
    ensures
        first_value(text, separator, trim, name, 0) == part_value(
            if trim {
                crate::text::trimmed(text)
            } else {
                text
            },
            name,
        ),
{
    crate::text::char_from_finds(text, separator, 0, text.len() as int);
    assert(text.subrange(0, text.len() as int) =~= text);
}

/// The cookie that a session is handed out with opens the console when it
/// comes back, for every allowed host and from every allowed origin.
pub proof fn session_cookies_are_accepted(
    state: SecurityView,
    request: RequestView,
    token: Seq<char>,
    session: SessionView,
)
    requires
        state.protection == Some((token, session)),
        crate::console::session::is_cookie_safe(session),
        request.cookie == Some(session.cookie_name + "="@ + session.value),
        is_host_allowed(request, state.allowed_hosts),
        request.path == "/ws"@ ==> is_origin_allowed(request),
        !is_bootstrap(request, token),
    ensures
        decided(state, request) == DecisionView::Forward,
{
    reveal_strlit("=");
    let name = session.cookie_name;
    let text = name + "="@ + session.value;
    assert forall|i: int| 0 <= i < text.len() implies text[i] != ';' by {
        if i < name.len() {
            assert(crate::console::session::cookie_safe_char(name[i]));
        } else if i > name.len() {
            assert(crate::console::session::cookie_safe_char(session.value[i - name.len() - 1]));
        }
    }
    assert(crate::console::session::cookie_safe_char(name[0]));
    assert(crate::console::session::cookie_safe_char(session.value[session.value.len() - 1]));
    assert(text.last() == session.value[session.value.len() - 1]);
    crate::text::trimming_keeps_visible_text(text);
    single_part_value(text, ';', true, name);
    assert forall|i: int| 0 <= i < name.len() implies text[i] != '=' by {
        assert(crate::console::session::cookie_safe_char(name[i]));
    }
    crate::text::char_from_finds(text, '=', 0, name.len() as int);
    assert(text.take(name.len() as int) =~= name);
    assert(text.skip(name.len() as int + 1) =~= session.value);
}

/// The token as a bearer credential, under the scheme's name in any letter
/// case, opens the console for every allowed host and from every allowed
/// origin.
pub proof fn bearer_tokens_are_accepted(
    state: SecurityView,
    request: RequestView,
    token: Seq<char>,
    session: SessionView,
    scheme: Seq<char>,
)
    requires
        state.protection == Some((token, session)),
        crate::text::lower(scheme) == crate::text::lower("Bearer"@),
        request.authorization == Some(scheme + " "@ + token),
        is_host_allowed(request, state.allowed_hosts),
        request.path == "/ws"@ ==> is_origin_allowed(request),
        !is_bootstrap(request, token),
    ensures
        decided(state, request) == DecisionView::Forward,
{
    reveal_strlit(" ");
    reveal_strlit("Bearer");
    let text = scheme + " "@ + token;
    let bearer = "Bearer"@;
    assert(crate::text::lower(scheme).len() == crate::text::lower(bearer).len());
    assert forall|i: int| 0 <= i < scheme.len() implies text[i] != ' ' by {
        assert(crate::text::lower(scheme)[i] == crate::text::lower_char(scheme[i]));
        assert(crate::text::lower(bearer)[i] == crate::text::lower_char(bearer[i]));
    }
    crate::text::char_from_finds(text, ' ', 0, scheme.len() as int);
    assert(text.take(scheme.len() as int) =~= scheme);
    assert(text.skip(scheme.len() as int + 1) =~= token);
}

/// Whether `text` is a form of an authority: the authority in lower case, or
/// what is left of that without a port that is the default one of a scheme.
pub open spec fn is_form(text: Seq<char>, authority: Seq<char>) -> bool {
    ||| text == crate::text::lower(authority)
    ||| text + seq![':', '8', '0'] == crate::text::lower(authority)
    ||| text + seq![':', '4', '4', '3'] == crate::text::lower(authority)
}

proof fn forms_are_forms(authority: Seq<char>, text: Seq<char>)
    ensures
        authority_forms(authority).contains(text) <==> is_form(text, authority),
{
    reveal_strlit(":80");
    reveal_strlit(":443");
    let full = crate::text::lower(authority);
    assert(":80"@ =~= seq![':', '8', '0']);
    assert(":443"@ =~= seq![':', '4', '4', '3']);
    crate::text::suffixes_end_texts(text, ":80"@, full);
    crate::text::suffixes_end_texts(text, ":443"@, full);
    assert((text + ":80"@).take(text.len() as int) =~= text);
    assert((text + ":443"@).take(text.len() as int) =~= text);
    if text + ":443"@ == full {
        assert(full.last() == '3');
        if crate::text::ends_with(full, ":80"@) {
            assert(full.skip(full.len() - 3).last() == '0');
        }
    }
}

proof fn forms_of_all_are_forms(authorities: Seq<Seq<char>>, text: Seq<char>)
    ensures
        forms_of_all(authorities).contains(text) <==> exists|i: int|
            0 <= i < authorities.len() && is_form(text, #[trigger] authorities[i]),
    decreases authorities.len(),
{
    if authorities.len() > 0 {
        let rest = authorities.drop_last();
        let last = authorities.len() - 1;
        forms_of_all_are_forms(rest, text);
        forms_are_forms(authorities[last], text);
        if exists|i: int| 0 <= i < rest.len() && is_form(text, #[trigger] rest[i]) {
            let i = choose|i: int| 0 <= i < rest.len() && is_form(text, #[trigger] rest[i]);
            assert(authorities[i] == rest[i]);
        }
        if exists|i: int| 0 <= i < authorities.len() && is_form(text, #[trigger] authorities[i]) {
            let i = choose|i: int|
                0 <= i < authorities.len() && is_form(text, #[trigger] authorities[i]);
            if i < last {
                assert(rest[i] == authorities[i]);
            }
        }
    }
}

/// A console allows the forms of every authority that it was configured with,
/// wherever that stands among them, of the address that it listens on, and on
/// loopback of `localhost` with its port. It allows nothing else.
pub proof fn all_configured_hosts_are_allowed(
    configured: Seq<Seq<char>>,
    local_address: Seq<char>,
    ip: IpAddress,
    port: u16,
    text: Seq<char>,
)
    ensures
        allowed_authorities(configured, local_address, ip, port).contains(text) <==> {
            ||| exists|i: int| 0 <= i < configured.len() && is_form(text, #[trigger] configured[i])
            ||| is_form(text, local_address)
            ||| {
                &&& match ip {
                    IpAddress::V4(octets) => octets@[0] == 127,
                    IpAddress::V6(segments) => segments@ == seq![0u16, 0, 0, 0, 0, 0, 0, 1],
                }
                &&& is_form(text, "localhost:"@ + crate::text::decimal(port as nat))
            }
        },
        forall|i: int|
            0 <= i < configured.len() ==> allowed_authorities(configured, local_address, ip, port).contains(
                crate::text::lower(#[trigger] configured[i]),
            ),
{
    forms_of_all_are_forms(configured, text);
    forms_are_forms(local_address, text);
    forms_are_forms("localhost:"@ + crate::text::decimal(port as nat), text);
    assert forall|i: int| 0 <= i < configured.len() implies allowed_authorities(
        configured,
        local_address,
        ip,
        port,
    ).contains(crate::text::lower(#[trigger] configured[i])) by {
        let lowered = crate::text::lower(configured[i]);
        forms_of_all_are_forms(configured, lowered);
        assert(is_form(lowered, configured[i]));
    }
}

/// A request is for an allowed host exactly where its `Host`, or without one
/// the authority of its URI, is in the set but for letter case.
pub proof fn the_host_header_decides(request: RequestView, hosts: Set<Seq<char>>)
    ensures
        request.host matches Some(host) ==> (is_host_allowed(request, hosts) <==> hosts.contains(
            crate::text::lower(host),
        )),
        request.host is None ==> (request.uri_authority matches Some(authority) ==> (
        is_host_allowed(request, hosts) <==> hosts.contains(crate::text::lower(authority)))),
        request.host is None && request.uri_authority is None ==> !is_host_allowed(request, hosts),
{
}

/// A request has an allowed origin exactly where it has none, or where its
/// origin is one of the two schemes in front of the authority it is for, but
/// for letter case.
pub proof fn pages_come_from_the_host_itself(request: RequestView, origin: Seq<char>)
    ensures
        request.origin is Absent ==> is_origin_allowed(request),
        request.origin is Unreadable ==> !is_origin_allowed(request),
        request.origin == OriginView::Text(origin) ==> (is_origin_allowed(request) <==> {
            let authority = match request.host {
                Some(host) => Some(host),
                None => request.uri_authority,
            };
            authority matches Some(authority) && (crate::text::lower(origin) == crate::text::lower(
                "http://"@ + authority,
            ) || crate::text::lower(origin) == crate::text::lower("https://"@ + authority))
        }),
{
}

/// A part has a value exactly where it is the name, an `=` and the value, and
/// the name holds no `=`.
pub proof fn parts_are_names_and_values(part: Seq<char>, name: Seq<char>, value: Seq<char>)
    ensures
        part_value(part, name) == Some(value) <==> part == name.push('=') + value && !name.contains(
            '=',
        ),
{
    crate::text::splits_come_together_again(part, '=');
    if part == name.push('=') + value && !name.contains('=') {
        assert forall|i: int| 0 <= i < name.len() implies part[i] != '=' by {
            assert(part[i] == name[i]);
            assert(name.contains(name[i]));
        }
        assert(part[name.len() as int] == '=');
        crate::text::char_from_finds(part, '=', 0, name.len() as int);
        assert(part.take(name.len() as int) =~= name);
        assert(part.skip(name.len() as int + 1) =~= value);
    }
}

proof fn char_from_shifts(text: Seq<char>, c: char, by: int, from: int)
    requires
        0 <= by <= from <= text.len(),
    ensures
        crate::text::char_from(text, c, from) == by + crate::text::char_from(
            text.skip(by),
            c,
            from - by,
        ),
{
    let rest = text.skip(by);
    crate::text::char_from_is_first(rest, c, from - by);
    let place = crate::text::char_from(rest, c, from - by);
    assert forall|i: int| from <= i < by + place implies text[i] != c by {
        assert(rest[i - by] == text[i]);
    }
    if by + place < text.len() {
        assert(rest[place] == text[by + place]);
    }
    crate::text::char_from_finds(text, c, from, by + place);
}

proof fn values_shift(
    text: Seq<char>,
    separator: char,
    trim: bool,
    name: Seq<char>,
    by: int,
    from: int,
)
    requires
        0 <= by <= from <= text.len(),
    ensures
        first_value(text, separator, trim, name, from) == first_value(
            text.skip(by),
            separator,
            trim,
            name,
            from - by,
        ),
    decreases text.len() - from,
{
    let rest = text.skip(by);
    char_from_shifts(text, separator, by, from);
    crate::text::char_from_is_first(text, separator, from);
    let end = crate::text::char_from(text, separator, from);
    assert(text.subrange(from, end) =~= rest.subrange(from - by, end - by));
    if end < text.len() {
        values_shift(text, separator, trim, name, by, end + 1);
    }
}

/// The first part that has a value under the name gives it. A text is its first
/// part and, behind a separator, the rest: the value is that of the first part,
/// or where it has none that of the rest.
pub proof fn the_first_part_with_the_name_counts(
    part: Seq<char>,
    rest: Seq<char>,
    separator: char,
    trim: bool,
    name: Seq<char>,
)
    requires
        !part.contains(separator),
    ensures
        ({
            let alone = part_value(
                if trim {
                    crate::text::trimmed(part)
                } else {
                    part
                },
                name,
            );
            &&& first_value(part, separator, trim, name, 0) == alone
            &&& first_value(part.push(separator) + rest, separator, trim, name, 0) == (
            if alone is Some {
                alone
            } else {
                first_value(rest, separator, trim, name, 0)
            })
        }),
{
    assert forall|i: int| 0 <= i < part.len() implies part[i] != separator by {
        assert(part.contains(part[i]));
    }
    single_part_value(part, separator, trim, name);
    let text = part.push(separator) + rest;
    let end = part.len() as int;
    assert forall|i: int| 0 <= i < end implies text[i] != separator by {
        assert(text[i] == part[i]);
    }
    assert(text[end] == separator);
    crate::text::char_from_finds(text, separator, 0, end);
    assert(text.subrange(0, end) =~= part);
    values_shift(text, separator, trim, name, end + 1, end + 1);
    assert(text.skip(end + 1) =~= rest);
}

/// The credentials of a request are looked for where they belong: the token of
/// a query among its `&` parts as they stand, a cookie among the `;` parts
/// without the white space around them.
pub proof fn credentials_stand_in_their_places(
    query: Seq<char>,
    cookies: Seq<char>,
    name: Seq<char>,
)
    ensures
        query_token(Some(query)) == first_value(query, '&', false, "token"@, 0),
        query_token(None) is None,
        cookie_of(Some(cookies), name) == first_value(cookies, ';', true, name, 0),
        cookie_of(None, name) is None,
        bearer_of(None) is None,
{
}

/// A header carries a bearer token exactly where it is the scheme's name in
/// any letter case, a blank and the token.
pub proof fn bearer_headers_are_scheme_and_token(header: Seq<char>, token: Seq<char>)
    ensures
        bearer_of(Some(header)) == Some(token) <==> exists|scheme: Seq<char>|
            header == #[trigger] scheme.push(' ') + token && crate::text::lower(scheme)
                == crate::text::lower(seq!['B', 'e', 'a', 'r', 'e', 'r']),
{
    reveal_strlit("Bearer");
    let bearer = "Bearer"@;
    assert(bearer =~= seq!['B', 'e', 'a', 'r', 'e', 'r']);
    crate::text::splits_come_together_again(header, ' ');
    if bearer_of(Some(header)) == Some(token) {
        let scheme = crate::text::split_at_first(header, ' ').unwrap().0;
        assert(header == scheme.push(' ') + token);
    }
    if exists|scheme: Seq<char>|
        header == #[trigger] scheme.push(' ') + token && crate::text::lower(scheme)
            == crate::text::lower(bearer) {
        let scheme = choose|scheme: Seq<char>|
            header == #[trigger] scheme.push(' ') + token && crate::text::lower(scheme)
                == crate::text::lower(bearer);
        assert(crate::text::lower(scheme).len() == crate::text::lower(bearer).len());
        assert forall|i: int| 0 <= i < scheme.len() implies header[i] != ' ' by {
            assert(crate::text::lower(scheme)[i] == crate::text::lower_char(scheme[i]));
            assert(crate::text::lower(bearer)[i] == crate::text::lower_char(bearer[i]));
        }
        assert(header[scheme.len() as int] == ' ');
        crate::text::char_from_finds(header, ' ', 0, scheme.len() as int);
        assert(header.take(scheme.len() as int) =~= scheme);
        assert(header.skip(scheme.len() as int + 1) =~= token);
    }
}

/// A request is let through exactly where its host is allowed, where it opens
/// no web socket from a foreign page, and where the console is open or the
/// request carries the token or the session and does not open the page with the
/// token in its query.
pub proof fn requests_are_let_through_exactly(state: SecurityView, request: RequestView)
    ensures
        decided(state, request) is Forward <==> {
            &&& is_host_allowed(request, state.allowed_hosts)
            &&& request.path == "/ws"@ ==> is_origin_allowed(request)
            &&& state.protection matches Some((token, session)) ==> {
                &&& bearer_of(request.authorization) == Some(token) || cookie_of(
                    request.cookie,
                    session.cookie_name,
                ) == Some(session.value)
                &&& !(request.method == "GET"@ && request.path == "/"@ && query_token(request.query)
                    == Some(token))
            }
        },
{
}

/// Each refusal has its status: a wrong host or origin is forbidden, and
/// missing credentials are unauthorized. A browser that opens the page with the
/// token is sent on instead, whatever else it carries.
pub proof fn answers_have_their_status(state: SecurityView, request: RequestView)
    ensures
        ({
            let decision = decided(state, request);
            let placed = is_host_allowed(request, state.allowed_hosts) && (request.path == "/ws"@
                ==> is_origin_allowed(request));
            &&& !placed ==> decision is Respond && decision->status == 403
                && decision->headers.len() == 0
            &&& !is_host_allowed(request, state.allowed_hosts) ==> decision->body
                == "host not allowed"@
            &&& placed && !(decision is Forward) ==> {
                &&& state.protection matches Some((token, session))
                &&& decision->status == (if request.method == "GET"@ && request.path == "/"@
                    && query_token(request.query) == Some(token) {
                    303u16
                } else {
                    401u16
                })
            }
            &&& placed ==> (state.protection matches Some((token, session)) ==> (request.method
                == "GET"@ && request.path == "/"@ && query_token(request.query) == Some(token)
                ==> decision is Respond && decision->status == 303))
        }),
{
}

/// The answer to a browser that opens the page with the token sends it on to
/// the page, and sets a cookie whose name and value are the session's.
pub proof fn sessions_are_handed_out_as_cookies(session: SessionView)
    ensures
        ({
            let answer = bootstrapped(session);
            let front = session.cookie_name + "="@ + session.value + "; "@;
            &&& answer->headers.contains(("location"@, "/"@))
            &&& answer->headers.contains(("set-cookie"@, session_cookie(session)))
            &&& answer->headers.contains(("cache-control"@, "no-store"@))
            &&& answer->headers.contains(("referrer-policy"@, "no-referrer"@))
            &&& front.is_prefix_of(session_cookie(session))
        }),
{
    reveal_strlit("; ");
    reveal_strlit("; HttpOnly; SameSite=Lax; Path=/");
    let headers = bootstrapped(session)->headers;
    assert(headers[0] == ("location"@, "/"@));
    assert(headers[1] == ("set-cookie"@, session_cookie(session)));
    assert(headers[2] == ("referrer-policy"@, "no-referrer"@));
    assert(headers[3] == ("cache-control"@, "no-store"@));
    let front = session.cookie_name + "="@ + session.value + "; "@;
    assert(session_cookie(session).take(front.len() as int) =~= front);
}

/// What a request shows is what its head holds, each part under its own name.
pub proof fn heads_show_their_parts(request: RequestHead)
    ensures
        request@.method == request.method@,
        request@.path == request.path@,
        request.query is None <==> request@.query is None,
        request.query matches Some(query) ==> request@.query == Some(query@),
        request.host is None <==> request@.host is None,
        request.host matches Some(host) ==> request@.host == Some(host@),
        request.uri_authority is None <==> request@.uri_authority is None,
        request.uri_authority matches Some(authority) ==> request@.uri_authority == Some(
            authority@,
        ),
        request.authorization is None <==> request@.authorization is None,
        request.authorization matches Some(text) ==> request@.authorization == Some(text@),
        request.cookie is None <==> request@.cookie is None,
        request.cookie matches Some(cookie) ==> request@.cookie == Some(cookie@),
        request.origin is Absent <==> request@.origin is Absent,
        request.origin is Unreadable <==> request@.origin is Unreadable,
        request.origin matches OriginHeader::Text(text) ==> request@.origin == OriginView::Text(
            text@,
        ),
{
}

/// A request without credentials is told which ones are wanted, and a socket
/// from a foreign page at an allowed host that its origin is the reason.
pub proof fn refusals_say_why(state: SecurityView, request: RequestView)
    ensures
        ({
            let decision = decided(state, request);
            &&& decision is Respond && decision->status == 401 ==> decision->headers == seq![
                ("www-authenticate"@, "Bearer"@),
            ] && decision->body == "valid bearer token required"@
            &&& is_host_allowed(request, state.allowed_hosts) && request.path == "/ws"@
                && !is_origin_allowed(request) ==> decision->body == "origin not allowed"@
        }),
{
}

/// A host is allowed exactly where it is a form of a configured authority, of
/// the local address, or of localhost with the port on loopback.
pub proof fn hosts_are_allowed_by_their_forms(
    configured: &Vec<String>,
    local_address: &str,
    ip: IpAddress,
    port: u16,
    hosts: HostSet,
    host: &str,
    found: bool,
)
    requires
        call_ensures(allowed_hosts, (configured, local_address, ip, port), hosts),
        call_ensures(HostSet::contains, (&hosts, host), found),
    ensures
        found <==> {
            ||| exists|i: int|
                0 <= i < configured@.len() && is_form(host@, (#[trigger] configured@[i])@)
            ||| is_form(host@, local_address@)
            ||| {
                &&& match ip {
                    IpAddress::V4(octets) => octets@[0] == 127,
                    IpAddress::V6(segments) => segments@ == seq![0u16, 0, 0, 0, 0, 0, 0, 1],
                }
                &&& is_form(host@, "localhost:"@ + crate::text::decimal(port as nat))
            }
        },
{
    let texts = configured@.map_values(|host: String| host@);
    all_configured_hosts_are_allowed(texts, local_address@, ip, port, host@);
    if exists|i: int| 0 <= i < texts.len() && is_form(host@, #[trigger] texts[i]) {
        let i = choose|i: int| 0 <= i < texts.len() && is_form(host@, #[trigger] texts[i]);
        assert(is_form(host@, configured@[i]@));
    }
    if exists|i: int| 0 <= i < configured@.len() && is_form(host@, (#[trigger] configured@[i])@) {
        let i = choose|i: int|
            0 <= i < configured@.len() && is_form(host@, (#[trigger] configured@[i])@);
        assert(is_form(host@, texts[i]));
    }
}

/// An authority that is inserted is found in each of its forms, and nothing that
/// was there is lost.
pub proof fn inserted_authorities_are_found(
    hosts: &mut HostSet,
    authority: &str,
    done: (),
    host: &str,
    before: bool,
    after: bool,
)
    requires
        call_ensures(HostSet::contains, (old(hosts), host), before),
        call_ensures(insert_authority, (hosts, authority), done),
        call_ensures(HostSet::contains, (final(hosts), host), after),
    ensures
        after <==> before || is_form(host@, authority@),
{
    forms_are_forms(authority@, host@);
}

/// A token matches where there is one and it is the expected one, throughout.
pub proof fn tokens_match_throughout(candidate: Option<&str>, expected: &str, matches: bool)
    requires
        call_ensures(token_matches, (candidate, expected), matches),
    ensures
        candidate is None ==> !matches,
        candidate matches Some(text) ==> (matches <==> text@.len() == expected@.len() && forall|
            i: int,
        |
            0 <= i < text@.len() ==> text@[i] == expected@[i]),
{
    if let Some(text) = candidate {
        if text@.len() == expected@.len() && forall|i: int|
            0 <= i < text@.len() ==> text@[i] == expected@[i] {
            assert(text@ =~= expected@);
        }
    }
}

/// A console bound to every address without a configured host is warned of, and
/// no other is.
pub proof fn open_consoles_are_warned_of(ip: IpAddress, configured: &Vec<String>, warns: bool)
    requires
        call_ensures(warns_of_wildcard, (ip, configured), warns),
    ensures
        warns <==> configured@.len() == 0 && match ip {
            IpAddress::V4(octets) => octets@ == seq![0u8, 0, 0, 0],
            IpAddress::V6(segments) => segments@ == seq![0u16, 0, 0, 0, 0, 0, 0, 0],
        },
{
    match ip {
        IpAddress::V4(octets) => {
            crate::console::config::addresses_are_told_apart(octets, arbitrary());
        },
        IpAddress::V6(segments) => {
            crate::console::config::addresses_are_told_apart(arbitrary(), segments);
        },
    }
}

/// What the guard lets through. The host has to be allowed, a socket's page has
/// to come from the host itself, and where there is a token, the request carries
/// it as a bearer or carries the session as a cookie; a request that opens the
/// console with the token is answered with the session instead.
pub proof fn guarded_requests_are_let_through_exactly(
    state: &SecurityState,
    request: &RequestHead,
    hosts: &HostSet,
    decision: Decision,
    hosted: bool,
    own_page: bool,
    bearer: Option<String>,
    query: Option<String>,
)
    requires
        state@.allowed_hosts == hosts@,
        call_ensures(host_allowed, (request, hosts), hosted),
        call_ensures(origin_allowed, (request,), own_page),
        call_ensures(bearer_token, (request,), bearer),
        call_ensures(token_from_query, (request,), query),
        call_ensures(SecurityState::security, (state, request), decision),
    ensures
        !hosted ==> decision@ is Respond && decision@->status == 403,
        hosted && request@.path == "/ws"@ && !own_page ==> decision@ is Respond
            && decision@->status == 403,
        hosted && (request@.path == "/ws"@ ==> own_page) ==> {
            &&& state@.protection is None ==> decision@ is Forward
            &&& state@.protection matches Some((token, session)) ==> {
                let opens = request@.method == "GET"@ && request@.path == "/"@ && query is Some
                    && query.unwrap()@ == token;
                let cookie = cookie_of(request@.cookie, session.cookie_name);
                &&& opens ==> decision@ is Respond && decision@->status == 303
                &&& !opens && ((bearer is Some && bearer.unwrap()@ == token) || cookie == Some(
                    session.value,
                )) ==> decision@ is Forward
                &&& !opens && !(bearer is Some && bearer.unwrap()@ == token) && cookie != Some(
                    session.value,
                ) ==> decision@ is Respond && decision@->status == 401
            }
        },
{
    requests_are_let_through_exactly(state@, request@);
    answers_have_their_status(state@, request@);
}

/// The session is handed out as a cookie that scripts cannot read, that other
/// sites' requests carry only in navigation, and that holds for the whole console.
pub proof fn session_cookies_are_confined(session: SessionView)
    ensures
        session_cookie(session) == session.cookie_name + "="@ + session.value
            + "; HttpOnly; SameSite=Lax; Path=/"@,
        bootstrapped(session)->headers.len() == 4,
        bootstrapped(session)->body.len() == 0,
        bootstrapped(session)->status == 303,
{
    reveal_strlit("");
}

/// Hosts are allowed whatever their case, and the default ports can be left out:
/// where `name:80` or `name:443` is configured, `name` is allowed too.
pub proof fn default_ports_can_be_left_out(
    configured: &Vec<String>,
    local_address: &str,
    ip: IpAddress,
    port: u16,
    hosts: HostSet,
    index: int,
    name: Seq<char>,
    host: &str,
    found: bool,
)
    requires
        call_ensures(allowed_hosts, (configured, local_address, ip, port), hosts),
        0 <= index < configured@.len(),
        configured@[index]@ == name || configured@[index]@ == name + ":80"@ || configured@[index]@
            == name + ":443"@,
        host@ == crate::text::lower(name),
        call_ensures(HostSet::contains, (&hosts, host), found),
    ensures
        found,
{
    hosts_are_allowed_by_their_forms(configured, local_address, ip, port, hosts, host, found);
    reveal_strlit(":80");
    reveal_strlit(":443");
    assert(crate::text::lower(name + ":80"@) =~= crate::text::lower(name) + seq![':', '8', '0']);
    assert(crate::text::lower(name + ":443"@) =~= crate::text::lower(name) + seq![
        ':',
        '4',
        '4',
        '3',
    ]);
    assert(is_form(host@, configured@[index]@));
}

/// Where nothing with a default port is configured and the console is not local,
/// a host is allowed exactly where it is the local address or configured as it
/// stands.
pub proof fn other_ports_are_kept(
    configured: &Vec<String>,
    local_address: &str,
    ip: IpAddress,
    port: u16,
    hosts: HostSet,
    host: &str,
    found: bool,
)
    requires
        call_ensures(allowed_hosts, (configured, local_address, ip, port), hosts),
        call_ensures(HostSet::contains, (&hosts, host), found),
        ip matches IpAddress::V4(octets) && octets@[0] != 127,
        forall|i: int|
            0 <= i < configured@.len() ==> {
                let text = (#[trigger] configured@[i])@;
                text.len() > 0 && text.last() != '0' && text.last() != '3'
            },
        local_address@.len() > 0,
        local_address@.last() != '0',
        local_address@.last() != '3',
    ensures
        found <==> host@ == crate::text::lower(local_address@) || exists|i: int|
            0 <= i < configured@.len() && host@ == crate::text::lower((#[trigger] configured@[i])@),
{
    hosts_are_allowed_by_their_forms(configured, local_address, ip, port, hosts, host, found);
    ports_show_at_the_end(host@, local_address@);
    assert forall|i: int| 0 <= i < configured@.len() implies (is_form(
        host@,
        (#[trigger] configured@[i])@,
    ) <==> host@ == crate::text::lower(configured@[i]@)) by {
        ports_show_at_the_end(host@, configured@[i]@);
    }
}

proof fn ports_show_at_the_end(text: Seq<char>, authority: Seq<char>)
    requires
        authority.len() > 0,
        authority.last() != '0',
        authority.last() != '3',
    ensures
        is_form(text, authority) <==> text == crate::text::lower(authority),
{
    let full = crate::text::lower(authority);
    assert(full.len() == authority.len());
    assert(full.last() != '0' && full.last() != '3');
    assert((text + seq![':', '8', '0']).last() == '0');
    assert((text + seq![':', '4', '4', '3']).last() == '3');
}

/// A request is for the host that its header names, else for the authority of its
/// target; a new set of hosts holds none; and a guard has the hosts and the
/// protection that it was made with.
pub proof fn guards_hold_what_they_were_made_with(
    none: HostSet,
    host: &str,
    found: bool,
    request: &RequestHead,
    authority: Option<&str>,
    hosts: HostSet,
    token: String,
    session: Session,
    guarded: SecurityState,
    open: SecurityState,
)
    requires
        call_ensures(HostSet::new, (), none),
        call_ensures(HostSet::contains, (&none, host), found),
        call_ensures(request_authority, (request,), authority),
        call_ensures(SecurityState::new, (hosts, Some((token, session))), guarded),
        call_ensures(SecurityState::new, (hosts, None), open),
    ensures
        !found,
        request@.host matches Some(named) ==> authority is Some && authority.unwrap()@ == named,
        request@.host is None ==> (request@.uri_authority matches Some(named) ==> authority is Some
            && authority.unwrap()@ == named),
        request@.host is None && request@.uri_authority is None ==> authority is None,
        guarded@.allowed_hosts == hosts@,
        guarded@.protection == Some((token@, session@)),
        open@.allowed_hosts == hosts@,
        open@.protection is None,
{
}

/// The value of a cookie is what stands behind its name and `=` in the first part
/// of the header with that name.
pub proof fn cookies_are_read_by_name(
    request: &RequestHead,
    cookie_name: &str,
    value: Option<String>,
)
    requires
        call_ensures(cookie_value, (request, cookie_name), value),
    ensures
        request@.cookie is None ==> value is None,
        request@.cookie matches Some(cookies) ==> (value is Some <==> first_value(
            cookies,
            ';',
            true,
            cookie_name@,
            0,
        ) is Some),
        request@.cookie matches Some(cookies) ==> (value is Some ==> first_value(
            cookies,
            ';',
            true,
            cookie_name@,
            0,
        ) == Some(value.unwrap()@)),
{
    if let Some(cookies) = request@.cookie {
        credentials_stand_in_their_places(cookies, cookies, cookie_name@);
    } else {
        credentials_stand_in_their_places(Seq::empty(), Seq::empty(), cookie_name@);
    }
}

} // verus!
