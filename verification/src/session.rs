//! Session manager: the state machine coordinating construction,
//! initialization, front-address registration, login, subscription and
//! teardown of one session against the opaque venue handle. The session is
//! the exclusive owner of that handle and of the single callback handle;
//! no outbound venue call is permitted once the session is disconnected or
//! closed, and teardown revokes the callback handle and then releases the
//! venue handle, exactly once.

use vstd::prelude::*;
use vstd::string::StrSliceExecFns;
use crate::api::{info_to_result, reason_of_code, translated_message, DisconnectionReason,
    RspInfo, RspResult};
use crate::codec::{decode, encode, gb_decode_of, gb_encodable, nul_prefix, DecodeError};
use crate::registry::CallbackRegistry;

verus! {

/// The lifecycle states of a session.
#[derive(Clone, Copy, Debug, PartialEq, Eq, Structural)]
pub enum SessionState {
    Created,
    Initialized,
    FrontRegistered,
    LoggingIn,
    LoggedIn,
    Subscribed,
    Disconnected,
    Closed,
}

/// A synchronous session failure. It is distinct from a gateway error (a
/// non-zero venue response code, `RspError`): a caller can tell "this
/// operation was not even forwarded" from "the venue rejected the request"
/// and from "the venue's text was unparseable".
#[derive(Clone, Copy, Debug, PartialEq, Eq, Structural)]
pub enum SessionError {
    /// The operation is forbidden in the current lifecycle state.
    InvalidState,
    /// A text input cannot cross the venue's C-string boundary: it holds an
    /// embedded NUL.
    InvalidText,
    /// A venue buffer did not decode under the legacy encoding.
    Undecodable(DecodeError),
}

/// The opaque venue resource: acquired at construction, owned exclusively
/// by the session, released exactly once at close, never copied or exposed.
pub struct VenueHandle {
    _owned: (),
}

/// The mathematical state of a session.
pub struct SessionView<H> {
    pub user_id: Seq<char>,
    pub password: Seq<char>,
    pub path: Seq<char>,
    pub state: SessionState,
    pub front_address: Option<Seq<char>>,
    pub callback: Option<H>,
    pub venue_live: bool,
}

/// The states whose sessions hold a registered front address.
pub open spec fn front_registered_state(st: SessionState) -> bool {
    ||| st == SessionState::FrontRegistered
    ||| st == SessionState::LoggingIn
    ||| st == SessionState::LoggedIn
    ||| st == SessionState::Subscribed
}

/// The states from which outbound venue calls are permitted: initialized,
/// and neither disconnected nor closed.
pub open spec fn can_call_venue(st: SessionState) -> bool {
    ||| st == SessionState::Initialized
    ||| front_registered_state(st)
}

/// A symbol the session forwards to the venue: free of embedded NUL (the
/// C-string boundary cannot carry one) and carried faithfully by the venue
/// encoding.
pub open spec fn forwardable_symbol(symbol: Seq<char>) -> bool {
    !symbol.contains('\0') && gb_encodable(symbol)
}

/// A session's internal invariant: the credentials and the path crossed the
/// venue's C-string boundary at construction, so they hold no embedded NUL;
/// a front address is cached from registration on; and the venue handle is
/// held until the session closes, exactly then is it released, and the
/// callback handle never outlives it.
pub open spec fn session_wf<H>(s: SessionView<H>) -> bool {
    &&& !s.user_id.contains('\0')
    &&& !s.password.contains('\0')
    &&& !s.path.contains('\0')
    &&& (s.venue_live <==> s.state != SessionState::Closed)
    &&& (s.state == SessionState::Closed ==> s.callback is None)
    &&& (front_registered_state(s.state) ==> s.front_address is Some)
}

/// A market-data session against the venue, generic over the callback
/// handle type `H` that the venue runtime invokes. The type exposes only
/// the operations a market-data role supports: order placement and
/// cancellation are absent from it by construction, not runtime aborts.
pub struct MdApi<H> {
    user_id: String,
    password: String,
    path: String,
    state: SessionState,
    front_address: Option<String>,
    registry: CallbackRegistry<H>,
    venue: Option<VenueHandle>,
}

impl<H> View for MdApi<H> {
    type V = SessionView<H>;

    closed spec fn view(&self) -> SessionView<H> {
        SessionView {
            user_id: self.user_id@,
            password: self.password@,
            path: self.path@,
            state: self.state,
            front_address: match self.front_address {
                Some(a) => Some(a@),
                None => None,
            },
            callback: self.registry@,
            venue_live: self.venue is Some,
        }
    }
}

/// Whether `text` holds the character `needle`.
fn contains_char(text: &str, needle: char) -> (b: bool)
    ensures
        b == text@.contains(needle),
{
    let n: usize = text.unicode_len();
    let mut i: usize = 0;
    while i < n
        invariant
            i <= n,
            n == text@.len(),
            forall|j: int| 0 <= j < i ==> text@[j] != needle,
        decreases n - i,
    {
        if text.get_char(i) == needle {
            return true;
        }
        i = i + 1;
    }
    false
}

impl<H> MdApi<H> {
    /// Creates a session owning a fresh venue handle. Construction fails
    /// where a credential or the flow path holds an embedded NUL, which the
    /// venue's C-string boundary cannot carry; such a failure is fatal to
    /// creation and never retried here.
    pub fn new(user_id: String, password: String, path: String) -> (r: Result<
        MdApi<H>,
        SessionError,
    >)
        ensures
            r is Ok <==> (!user_id@.contains('\0') && !password@.contains('\0')
                && !path@.contains('\0')),
            r matches Ok(api) ==> api@ == (SessionView::<H> {
                user_id: user_id@,
                password: password@,
                path: path@,
                state: SessionState::Created,
                front_address: None,
                callback: None,
                venue_live: true,
            }),
            r matches Ok(api) ==> session_wf(api@),
            r matches Err(e) ==> e == SessionError::InvalidText,
    {
        if contains_char(user_id.as_str(), '\0') || contains_char(password.as_str(), '\0')
            || contains_char(path.as_str(), '\0') {
            return Err(SessionError::InvalidText);
        }
        Ok(
            MdApi {
                user_id,
                password,
                path,
                state: SessionState::Created,
                front_address: None,
                registry: CallbackRegistry::new(),
                venue: Some(VenueHandle { _owned: () }),
            },
        )
    }

    /// The current lifecycle state.
    pub fn state(&self) -> (s: SessionState)
        ensures
            s == self@.state,
    {
        self.state
    }

    /// The front address the session is registered against, if any.
    pub fn front_address(&self) -> (r: Option<&String>)
        ensures
            r is Some <==> self@.front_address is Some,
            r matches Some(a) ==> self@.front_address == Some(a@),
    {
        match &self.front_address {
            Some(a) => Some(a),
            None => None,
        }
    }

    /// Whether a callback handle is currently registered.
    pub fn has_callback(&self) -> (b: bool)
        ensures
            b == (self@.callback is Some),
    {
        self.registry.is_registered()
    }

    /// Initializes the venue-side API: from `Created` to `Initialized`. The
    /// venue call is idempotent and always succeeds at this layer; failures,
    /// if any, surface later as asynchronous notifications.
    pub fn init(&mut self) -> (r: Result<(), SessionError>)
        requires
            session_wf(old(self)@),
        ensures
            session_wf(final(self)@),
            r is Ok <==> (old(self)@.state == SessionState::Created || old(self)@.state
                == SessionState::Initialized),
            r is Ok ==> final(self)@ == (SessionView { state: SessionState::Initialized, ..old(
                self,
            )@ }),
            r is Err ==> final(self)@ == old(self)@ && r == Result::<(), SessionError>::Err(
                SessionError::InvalidState,
            ),
    {
        if self.state == SessionState::Created || self.state == SessionState::Initialized {
            self.state = SessionState::Initialized;
            Ok(())
        } else {
            Err(SessionError::InvalidState)
        }
    }

    /// Installs the callback handle that the venue runtime will invoke,
    /// before any network activity, so that no asynchronous event is
    /// dropped. A previously registered handle is revoked first and handed
    /// back to the caller: two handles are never live at once.
    pub fn register_spi(&mut self, handle: H) -> (prev: Option<H>)
        requires
            session_wf(old(self)@),
            old(self)@.state != SessionState::Closed,
        ensures
            session_wf(final(self)@),
            final(self)@ == (SessionView { callback: Some(handle), ..old(self)@ }),
            prev == old(self)@.callback,
    {
        self.registry.register(handle)
    }

    /// Registers the front address: from `Initialized` (or, when recovering
    /// after a disconnection, from `Disconnected`) to `FrontRegistered`;
    /// the address is cached so a retry needs no fresh credentials.
    pub fn register_fronted_address(&mut self, address: String) -> (r: Result<(), SessionError>)
        requires
            session_wf(old(self)@),
        ensures
            session_wf(final(self)@),
            r is Ok <==> ((old(self)@.state == SessionState::Initialized || old(self)@.state
                == SessionState::Disconnected) && !address@.contains('\0')),
            r is Ok ==> final(self)@ == (SessionView {
                state: SessionState::FrontRegistered,
                front_address: Some(address@),
                ..old(self)@
            }),
            r is Err ==> final(self)@ == old(self)@,
            !(old(self)@.state == SessionState::Initialized || old(self)@.state
                == SessionState::Disconnected) ==> r == Result::<(), SessionError>::Err(
                SessionError::InvalidState,
            ),
            ((old(self)@.state == SessionState::Initialized || old(self)@.state
                == SessionState::Disconnected) && address@.contains('\0')) ==> r == Result::<
                (),
                SessionError,
            >::Err(SessionError::InvalidText),
    {
        if !(self.state == SessionState::Initialized || self.state
            == SessionState::Disconnected) {
            return Err(SessionError::InvalidState);
        }
        if contains_char(address.as_str(), '\0') {
            return Err(SessionError::InvalidText);
        }
        self.front_address = Some(address);
        self.state = SessionState::FrontRegistered;
        Ok(())
    }

    /// Starts login with the cached credentials: from `FrontRegistered` to
    /// `LoggingIn`. The call only enqueues venue-side work; the outcome
    /// arrives asynchronously and passes through `on_login_response`.
    pub fn login(&mut self) -> (r: Result<(), SessionError>)
        requires
            session_wf(old(self)@),
        ensures
            session_wf(final(self)@),
            r is Ok <==> old(self)@.state == SessionState::FrontRegistered,
            r is Ok ==> final(self)@ == (SessionView { state: SessionState::LoggingIn, ..old(
                self,
            )@ }),
            r is Err ==> final(self)@ == old(self)@ && r == Result::<(), SessionError>::Err(
                SessionError::InvalidState,
            ),
    {
        if self.state == SessionState::FrontRegistered {
            self.state = SessionState::LoggingIn;
            Ok(())
        } else {
            Err(SessionError::InvalidState)
        }
    }

    /// Receives the asynchronous login response. The descriptor passes
    /// through the uniform translation: on success the session becomes
    /// `LoggedIn`; on a gateway error it returns to `FrontRegistered`, from
    /// where the caller may retry. A response arriving in any other state
    /// leaves the session unchanged.
    pub fn on_login_response(&mut self, rsp_info: Option<&RspInfo>) -> (r: RspResult)
        requires
            session_wf(old(self)@),
        ensures
            session_wf(final(self)@),
            rsp_info is None ==> r is Ok,
            rsp_info matches Some(info) ==> (if info.error_id == 0 {
                r is Ok
            } else {
                r matches Err(e) && e.id == info.error_id && e.msg@ == translated_message(
                    info.error_msg@,
                )
            }),
            (old(self)@.state == SessionState::LoggingIn && r is Ok) ==> final(self)@
                == (SessionView { state: SessionState::LoggedIn, ..old(self)@ }),
            (old(self)@.state == SessionState::LoggingIn && r is Err) ==> final(self)@
                == (SessionView { state: SessionState::FrontRegistered, ..old(self)@ }),
            old(self)@.state != SessionState::LoggingIn ==> final(self)@ == old(self)@,
    {
        let r = info_to_result(rsp_info);
        if self.state == SessionState::LoggingIn {
            if r.is_ok() {
                self.state = SessionState::LoggedIn;
            } else {
                self.state = SessionState::FrontRegistered;
            }
        }
        r
    }

    /// Subscribes to one instrument feed: permitted only once logged in
    /// (before login it is a state error, never a gateway error). A symbol
    /// the venue encoding cannot carry faithfully (an embedded NUL, or the
    /// one scalar value the encoder garbles) is rejected as text. On
    /// acceptance the encoded symbol, free of NUL bytes and ready for the
    /// venue's C-string boundary, is returned for forwarding; whether data
    /// will actually flow is reported asynchronously per instrument.
    pub fn subscribe(&mut self, symbol: String) -> (r: Result<Vec<u8>, SessionError>)
        requires
            session_wf(old(self)@),
        ensures
            session_wf(final(self)@),
            r is Ok <==> ((old(self)@.state == SessionState::LoggedIn || old(self)@.state
                == SessionState::Subscribed) && forwardable_symbol(symbol@)),
            r matches Ok(encoded) ==> gb_decode_of(encoded@) == Some(symbol@)
                && !encoded@.contains(0u8),
            r is Ok ==> final(self)@ == (SessionView { state: SessionState::Subscribed, ..old(
                self,
            )@ }),
            r is Err ==> final(self)@ == old(self)@,
            !(old(self)@.state == SessionState::LoggedIn || old(self)@.state
                == SessionState::Subscribed) ==> r == Result::<Vec<u8>, SessionError>::Err(
                SessionError::InvalidState,
            ),
            ((old(self)@.state == SessionState::LoggedIn || old(self)@.state
                == SessionState::Subscribed) && !forwardable_symbol(symbol@)) ==> r == Result::<
                Vec<u8>,
                SessionError,
            >::Err(SessionError::InvalidText),
    {
        if !(self.state == SessionState::LoggedIn || self.state == SessionState::Subscribed) {
            return Err(SessionError::InvalidState);
        }
        if contains_char(symbol.as_str(), '\0') || contains_char(symbol.as_str(), '\u{e5e5}') {
            return Err(SessionError::InvalidText);
        }
        let encoded = encode(symbol.as_str());
        self.state = SessionState::Subscribed;
        Ok(encoded)
    }

    /// Withdraws one instrument subscription: permitted in the same states
    /// as `subscribe`, and leaves the lifecycle state unchanged. The encoded
    /// symbol is returned for forwarding to the venue.
    pub fn unsubscribe(&mut self, symbol: String) -> (r: Result<Vec<u8>, SessionError>)
        requires
            session_wf(old(self)@),
        ensures
            session_wf(final(self)@),
            final(self)@ == old(self)@,
            r is Ok <==> ((old(self)@.state == SessionState::LoggedIn || old(self)@.state
                == SessionState::Subscribed) && forwardable_symbol(symbol@)),
            r matches Ok(encoded) ==> gb_decode_of(encoded@) == Some(symbol@)
                && !encoded@.contains(0u8),
            !(old(self)@.state == SessionState::LoggedIn || old(self)@.state
                == SessionState::Subscribed) ==> r == Result::<Vec<u8>, SessionError>::Err(
                SessionError::InvalidState,
            ),
            ((old(self)@.state == SessionState::LoggedIn || old(self)@.state
                == SessionState::Subscribed) && !forwardable_symbol(symbol@)) ==> r == Result::<
                Vec<u8>,
                SessionError,
            >::Err(SessionError::InvalidText),
    {
        if !(self.state == SessionState::LoggedIn || self.state == SessionState::Subscribed) {
            return Err(SessionError::InvalidState);
        }
        if contains_char(symbol.as_str(), '\0') || contains_char(symbol.as_str(), '\u{e5e5}') {
            return Err(SessionError::InvalidText);
        }
        Ok(encode(symbol.as_str()))
    }

    /// Decodes the trading-day buffer read from the venue handle: permitted
    /// only once the session is initialized and neither disconnected nor
    /// closed. An undecodable buffer is a typed failure, never corrupted
    /// text.
    pub fn get_trading_day(&self, raw: &[u8]) -> (r: Result<String, SessionError>)
        requires
            session_wf(self@),
        ensures
            !can_call_venue(self@.state) ==> r == Result::<String, SessionError>::Err(
                SessionError::InvalidState,
            ),
            can_call_venue(self@.state) ==> (r is Ok <==> gb_decode_of(nul_prefix(raw@))
                is Some),
            can_call_venue(self@.state) ==> (r matches Ok(day) ==> gb_decode_of(
                nul_prefix(raw@),
            ) == Some(day@)),
            can_call_venue(self@.state) && r is Err ==> r == Result::<String, SessionError>::Err(
                SessionError::Undecodable(DecodeError::InvalidSequence),
            ),
    {
        if !(self.state == SessionState::Initialized || self.state
            == SessionState::FrontRegistered || self.state == SessionState::LoggingIn
            || self.state == SessionState::LoggedIn || self.state == SessionState::Subscribed) {
            return Err(SessionError::InvalidState);
        }
        match decode(raw) {
            Ok(day) => Ok(day),
            Err(e) => Err(SessionError::Undecodable(e)),
        }
    }

    /// Receives an asynchronous disconnection notification: the venue's
    /// code is mapped to a reason and the session moves to `Disconnected`,
    /// keeping the cached front address and credentials so the caller can
    /// recover by registering the front again. After close the notification
    /// leaves the session unchanged.
    pub fn on_disconnect(&mut self, reason_code: i32) -> (r: DisconnectionReason)
        requires
            session_wf(old(self)@),
        ensures
            session_wf(final(self)@),
            r == reason_of_code(reason_code),
            old(self)@.state != SessionState::Closed ==> final(self)@ == (SessionView {
                state: SessionState::Disconnected,
                ..old(self)@
            }),
            old(self)@.state == SessionState::Closed ==> final(self)@ == old(self)@,
    {
        if !(self.state == SessionState::Closed) {
            self.state = SessionState::Disconnected;
        }
        DisconnectionReason::from(reason_code)
    }

    /// Tears the session down from any state: the callback handle is
    /// unregistered first (and returned to the caller, which releases it)
    /// and the venue handle is released after it, each exactly once. A
    /// second close is a no-op, and both calls succeed.
    pub fn close(&mut self) -> (r: Option<H>)
        requires
            session_wf(old(self)@),
        ensures
            session_wf(final(self)@),
            final(self)@.state == SessionState::Closed,
            old(self)@.state == SessionState::Closed ==> final(self)@ == old(self)@ && r is None,
            old(self)@.state != SessionState::Closed ==> final(self)@ == (SessionView {
                state: SessionState::Closed,
                callback: None,
                venue_live: false,
                ..old(self)@
            }) && r == old(self)@.callback,
    {
        if self.state == SessionState::Closed {
            return None;
        }
        let handle = self.registry.unregister();
        self.venue = None;
        self.state = SessionState::Closed;
        handle
    }
}

} // verus!
