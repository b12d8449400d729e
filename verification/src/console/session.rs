//! Browser sessions of a console with an access token.
use vstd::prelude::*;
use crate::console::random::{fill_random, random_error_text, Drawn};
use crate::text::{decimal_text, hex_text, joined};

verus! {

/// A browser session: a cookie and the value that proves it.
#[derive(Debug)]
pub struct Session {
    cookie_name: String,
    value: String,
}

/// What a [`Session`] holds.
pub struct SessionView {
    pub cookie_name: Seq<char>,
    pub value: Seq<char>,
}

impl View for Session {
    type V = SessionView;

    closed spec fn view(&self) -> SessionView {
        SessionView { cookie_name: self.cookie_name@, value: self.value@ }
    }
}

/// Why no session could be made.
#[derive(Debug)]
pub struct SessionError {
    /// What the system said.
    pub cause: getrandom::Error,
    /// What the cause displays as.
    pub text: String,
}

/// The session of the console on the given port that the bytes make.
pub open spec fn session_of(port: u16, bytes: Seq<u8>) -> SessionView {
    SessionView {
        cookie_name: "tokio_otp_console_session_"@ + crate::text::decimal(port as nat),
        value: crate::text::hex(bytes),
    }
}

/// Whether the name and the value can stand in a cookie and be read back: no
/// separators, no white space, and a name that is not empty.
pub open spec fn is_cookie_safe(session: SessionView) -> bool {
    &&& session.cookie_name.len() > 0
    &&& session.value.len() > 0
    &&& forall|i: int|
        0 <= i < session.cookie_name.len() ==> cookie_safe_char(#[trigger] session.cookie_name[i])
    &&& forall|i: int|
        0 <= i < session.value.len() ==> cookie_safe_char(#[trigger] session.value[i])
}

/// Whether the character separates nothing in a cookie header.
pub open spec fn cookie_safe_char(c: char) -> bool {
    c != ';' && c != '=' && !crate::text::is_white(c)
}

impl Session {
    /// The session of the console on the given port that the bytes make.
    pub fn from_bytes(port: u16, bytes: &[u8]) -> (session: Session)
        ensures
            session@ == session_of(port, bytes@),
    {
        let digits = decimal_text(port as u128);
        Session {
            cookie_name: joined("tokio_otp_console_session_", digits.as_str()),
            value: hex_text(bytes),
        }
    }

    /// Returns the name of the session's cookie.
    pub fn cookie_name(&self) -> (name: &str)
        ensures
            name@ == self@.cookie_name,
    {
        self.cookie_name.as_str()
    }

    /// Returns the value that proves the session.
    pub fn value(&self) -> (value: &str)
        ensures
            value@ == self@.value,
    {
        self.value.as_str()
    }
}

/// A session, and the random bytes that it was made from.
pub struct NewSession {
    pub session: Session,
    pub drawn: Drawn,
}

/// Makes a session from 32 random bytes, for the console on the given port.
pub fn new_session(port: u16) -> (result: Result<NewSession, SessionError>)
    ensures
        result matches Ok(made) ==> made.drawn.bytes().len() == 32 && made.session@ == session_of(
            port,
            made.drawn.bytes(),
        ),
{
    let mut bytes: Vec<u8> = vec![0; 32];
    match fill_random(&mut bytes) {
        Ok(drawn) => Ok(
            NewSession { session: Session::from_bytes(port, bytes.as_slice()), drawn },
        ),
        Err(cause) => {
            let text = random_error_text(&cause);
            Err(SessionError { cause, text })
        },
    }
}

proof fn decimal_is_cookie_safe(n: nat)
    ensures
        forall|i: int|
            0 <= i < crate::text::decimal(n).len() ==> cookie_safe_char(
                #[trigger] crate::text::decimal(n)[i],
            ),
    decreases n,
{
    if n >= 10 {
        decimal_is_cookie_safe(n / 10);
        let shorter = crate::text::decimal(n / 10);
        let last = crate::text::digit_char(n % 10);
        assert(crate::text::decimal(n) == shorter.push(last));
        assert forall|i: int| 0 <= i < shorter.push(last).len() implies cookie_safe_char(
            #[trigger] shorter.push(last)[i],
        ) by {
            if i < shorter.len() {
                assert(cookie_safe_char(shorter[i]));
            }
        }
    }
}

/// The cookie of every session can be read back.
pub proof fn sessions_are_cookie_safe(port: u16, bytes: Seq<u8>)
    requires
        bytes.len() > 0,
    ensures
        is_cookie_safe(session_of(port, bytes)),
{
    reveal_strlit("tokio_otp_console_session_");
    decimal_is_cookie_safe(port as nat);
    crate::text::hex_holds_digits(bytes);
    let prefix = "tokio_otp_console_session_"@;
    let digits = crate::text::decimal(port as nat);
    let session = session_of(port, bytes);
    assert forall|i: int| 0 <= i < session.cookie_name.len() implies cookie_safe_char(
        #[trigger] session.cookie_name[i],
    ) by {
        if i >= prefix.len() {
            assert(session.cookie_name[i] == digits[i - prefix.len()]);
        }
    }
    assert forall|i: int| 0 <= i < session.value.len() implies cookie_safe_char(
        #[trigger] session.value[i],
    ) by {
        assert(crate::text::is_hex_digit(crate::text::hex(bytes)[i]));
    }
}

/// Consoles on different ports have different cookies, and different bytes make
/// different sessions: each byte is two digits of the value.
pub proof fn sessions_are_told_apart(
    port: u16,
    other_port: u16,
    bytes: Seq<u8>,
    other_bytes: Seq<u8>,
)
    ensures
        session_of(port, bytes).value.len() == 2 * bytes.len(),
        session_of(port, bytes).cookie_name == session_of(other_port, other_bytes).cookie_name
            <==> port == other_port,
        session_of(port, bytes).value == session_of(other_port, other_bytes).value <==> bytes
            == other_bytes,
        "tokio_otp_console_session_"@.is_prefix_of(session_of(port, bytes).cookie_name),
        crate::text::number_shown(
            session_of(port, bytes).cookie_name.skip("tokio_otp_console_session_"@.len() as int),
        ) == port,
{
    let prefix = "tokio_otp_console_session_"@;
    let n = prefix.len() as int;
    let a = session_of(port, bytes);
    let b = session_of(other_port, other_bytes);
    assert(a.cookie_name.skip(n) =~= crate::text::decimal(port as nat));
    assert(b.cookie_name.skip(n) =~= crate::text::decimal(other_port as nat));
    assert(a.cookie_name.take(n) =~= prefix);
    crate::text::decimals_read_back(port as nat);
    if a.cookie_name == b.cookie_name {
        crate::text::decimal_is_injective(port as nat, other_port as nat);
    }
    if a.value == b.value {
        crate::text::hex_is_injective(bytes, other_bytes);
    }
}

/// A session's value shows its bytes as lower-case hexadecimal digits, and its
/// cookie is named for the port: two sessions share a name exactly where they
/// share a port, and a value exactly where they share their bytes.
pub proof fn sessions_show_their_bytes(
    port: u16,
    bytes: &[u8],
    session: Session,
    name: &str,
    value: &str,
    other_port: u16,
    other_bytes: &[u8],
    other: Session,
    other_name: &str,
    other_value: &str,
    index: int,
)
    requires
        call_ensures(Session::from_bytes, (port, bytes), session),
        call_ensures(Session::cookie_name, (&session,), name),
        call_ensures(Session::value, (&session,), value),
        call_ensures(Session::from_bytes, (other_port, other_bytes), other),
        call_ensures(Session::cookie_name, (&other,), other_name),
        call_ensures(Session::value, (&other,), other_value),
        0 <= index < value@.len(),
    ensures
        value@.len() == 2 * bytes@.len(),
        ('0' <= value@[index] && value@[index] <= '9') || ('a' <= value@[index] && value@[index]
            <= 'f'),
        name@ == other_name@ <==> port == other_port,
        value@ == other_value@ <==> bytes@ == other_bytes@,
{
    crate::text::hex_holds_digits(bytes@);
    sessions_are_told_apart(port, other_port, bytes@, other_bytes@);
}

} // verus!
