//! What the service decides: who may force a reload, and what the reload
//! daemon does next.

use vstd::prelude::*;
use vstd::utf8::encode_utf8;

use crate::config;
use crate::error::{GateError, GateErrorView};
use crate::text;
use crate::types::{key_of, AdminKey};

verus! {

/// `constant_time_eq::constant_time_eq`: whether two byte strings are equal.
/// That its time does not depend on where they differ is not stated.
pub assume_specification[ constant_time_eq::constant_time_eq ](a: &[u8], b: &[u8]) -> (r: bool)
    ensures
        r == (a@ == b@),
;

/// A header value that can be read as text: visible ASCII, spaces and tabs.
pub open spec fn is_header_text(value: Seq<u8>) -> bool {
    forall|i: int| 0 <= i < value.len() ==> (32 <= #[trigger] value[i] < 127 || value[i] == 9)
}

/// The key that a request provides in its `x-admin-key` header: none where
/// the header is missing or no text.
pub open spec fn provided_key(header: Option<Seq<u8>>) -> Seq<u8> {
    match header {
        Some(value) => if is_header_text(value) {
            value
        } else {
            Seq::empty()
        },
        None => Seq::empty(),
    }
}

/// Who may force a reload: nobody where no key is configured, else who
/// provides that key.
pub open spec fn authorized(key: Option<Seq<char>>, header: Option<Seq<u8>>) -> Result<
    (),
    GateErrorView,
> {
    match key {
        None => Err(GateErrorView::Forbidden),
        Some(key) => if provided_key(header) == encode_utf8(key) {
            Ok(())
        } else {
            Err(GateErrorView::Unauthorized)
        },
    }
}

/// The bytes of a header value, if there is one.
pub open spec fn bytes_of(header: Option<&[u8]>) -> Option<Seq<u8>> {
    match header {
        Some(value) => Some(value@),
        None => None,
    }
}

/// Whether a header value can be read as text.
fn header_is_text(value: &[u8]) -> (r: bool)
    ensures
        r == is_header_text(value@),
{
    for i in 0..value.len()
        invariant
            forall|j: int| 0 <= j < i ==> (32 <= #[trigger] value@[j] < 127 || value@[j] == 9),
    {
        let b: u8 = value[i];
        if !((32 <= b && b < 127) || b == 9) {
            return false;
        }
    }
    true
}

/// Whether a request may force a reload, by the configured key and the value
/// of its `x-admin-key` header. Compares in constant time, so that a wrong key
/// cannot be recovered by timing.
pub fn authorize_reload(admin_key: &Option<AdminKey>, header: Option<&[u8]>) -> (r: Result<
    (),
    GateError,
>)
    ensures
        match r {
            Ok(_) => authorized(key_of(*admin_key), bytes_of(header)) is Ok,
            Err(e) => authorized(key_of(*admin_key), bytes_of(header)) == Err::<(), GateErrorView>(
                e@,
            ),
        },
{
    let expected = match admin_key {
        Some(key) => key,
        None => {
            return Err(GateError::Forbidden);
        },
    };
    let empty: [u8; 0] = [];
    let provided: &[u8] = match header {
        Some(value) => if header_is_text(value) {
            value
        } else {
            &empty
        },
        None => &empty,
    };
    assert(provided@ =~= provided_key(bytes_of(header)));
    if constant_time_eq::constant_time_eq(provided, expected.expose().as_bytes()) {
        Ok(())
    } else {
        Err(GateError::Unauthorized)
    }
}

/// Seconds between two reloads by the daemon, if there is one.
pub open spec fn period(reload_secs: u64) -> Option<u64> {
    if reload_secs == 0 {
        None
    } else {
        Some(reload_secs)
    }
}

/// Seconds between two reloads by the daemon, if there is one.
pub fn reload_period(reload_secs: u64) -> (r: Option<u64>)
    ensures
        r == (if reload_secs == 0 {
            None
        } else {
            Some(reload_secs)
        }),
        r == period(reload_secs),
{
    if reload_secs > 0 {
        Some(reload_secs)
    } else {
        None
    }
}

/// What happens to the reload daemon.
#[derive(Debug)]
pub enum DaemonEvent {
    /// An interval has passed.
    Tick,
    /// A reload has ended.
    Reloaded(Result<usize, GateError>),
    /// The service is shutting down.
    Cancelled,
}

/// What the reload daemon does next.
#[derive(Debug)]
pub enum DaemonAction {
    /// Reload the policy.
    Reload,
    /// Log the number of rules loaded, and wait.
    LogReloaded(usize),
    /// Log why the reload failed, and wait.
    LogFailure(String),
    /// Stop for good.
    Stop,
}

/// A [`DaemonEvent`] with its error as a view.
pub enum DaemonEventView {
    Tick,
    Reloaded(Result<usize, GateErrorView>),
    Cancelled,
}

/// A [`DaemonAction`] with its text as a sequence of characters.
pub enum DaemonActionView {
    Reload,
    LogReloaded(usize),
    LogFailure(Seq<char>),
    Stop,
}

impl View for DaemonEvent {
    type V = DaemonEventView;

    open spec fn view(&self) -> DaemonEventView {
        match *self {
            DaemonEvent::Tick => DaemonEventView::Tick,
            DaemonEvent::Reloaded(Ok(n)) => DaemonEventView::Reloaded(Ok(n)),
            DaemonEvent::Reloaded(Err(e)) => DaemonEventView::Reloaded(Err(e@)),
            DaemonEvent::Cancelled => DaemonEventView::Cancelled,
        }
    }
}

impl View for DaemonAction {
    type V = DaemonActionView;

    open spec fn view(&self) -> DaemonActionView {
        match *self {
            DaemonAction::Reload => DaemonActionView::Reload,
            DaemonAction::LogReloaded(n) => DaemonActionView::LogReloaded(n),
            DaemonAction::LogFailure(s) => DaemonActionView::LogFailure(s@),
            DaemonAction::Stop => DaemonActionView::Stop,
        }
    }
}

/// What the daemon does about an event.
pub open spec fn next_action(event: DaemonEventView) -> DaemonActionView {
    match event {
        DaemonEventView::Tick => DaemonActionView::Reload,
        DaemonEventView::Reloaded(Ok(n)) => DaemonActionView::LogReloaded(n),
        DaemonEventView::Reloaded(Err(e)) => DaemonActionView::LogFailure(e.message()),
        DaemonEventView::Cancelled => DaemonActionView::Stop,
    }
}

/// Reloads on every tick until cancelled. A reload that fails is logged, and
/// the daemon goes on.
pub fn daemon_step(event: DaemonEvent) -> (r: DaemonAction)
    ensures
        match event {
            DaemonEvent::Tick => r is Reload,
            DaemonEvent::Reloaded(Ok(n)) => r == DaemonAction::LogReloaded(n),
            DaemonEvent::Reloaded(Err(e)) => r matches DaemonAction::LogFailure(s) && s@
                == e@.message(),
            DaemonEvent::Cancelled => r is Stop,
        },
        r@ == next_action(event@),
{
    match event {
        DaemonEvent::Tick => DaemonAction::Reload,
        DaemonEvent::Reloaded(Ok(n)) => DaemonAction::LogReloaded(n),
        DaemonEvent::Reloaded(Err(e)) => DaemonAction::LogFailure(e.message()),
        DaemonEvent::Cancelled => DaemonAction::Stop,
    }
}

/// An interval of zero seconds, and no other, disables the daemon; any other
/// is kept to the second.
pub proof fn law_zero_alone_disables_the_daemon(reload_secs: u64)
    ensures
        period(reload_secs) is None <==> reload_secs == 0,
        period(reload_secs) matches Some(secs) ==> secs == reload_secs,
{
}

/// The daemon stops when it is cancelled and at no other time, reloads on a
/// tick and at no other time, and answers each reload with one line in the
/// log: the number of rules, or all that the error says.
pub proof fn law_daemon_goes_on_until_cancelled(event: DaemonEventView)
    ensures
        next_action(event) is Stop <==> event is Cancelled,
        next_action(event) is Reload <==> event is Tick,
        next_action(event) matches DaemonActionView::LogReloaded(n) ==> event
            == DaemonEventView::Reloaded(Ok(n)),
        event matches DaemonEventView::Reloaded(Ok(_)) ==> next_action(event) is LogReloaded,
        event matches DaemonEventView::Reloaded(Err(e)) ==> next_action(event)
            == DaemonActionView::LogFailure(e.message()),
{
}

/// The model of an event, and that of an action, is of the same kind and holds
/// the same.
pub proof fn law_model_of_the_daemon(event: DaemonEvent, action: DaemonAction)
    ensures
        event@ is Tick <==> event is Tick,
        event@ is Cancelled <==> event is Cancelled,
        event matches DaemonEvent::Reloaded(r) ==> match r {
            Ok(n) => event@ == DaemonEventView::Reloaded(Ok(n)),
            Err(e) => event@ == DaemonEventView::Reloaded(Err(e@)),
        },
        action@ is Reload <==> action is Reload,
        action@ is Stop <==> action is Stop,
        action matches DaemonAction::LogReloaded(n) ==> action@ == DaemonActionView::LogReloaded(n),
        action matches DaemonAction::LogFailure(s) ==> action@ == DaemonActionView::LogFailure(s@),
{
}

/// Without a configured key every request to reload is refused as forbidden.
pub proof fn law_reload_is_disabled_without_a_key(header: Option<Seq<u8>>)
    ensures
        authorized(None, header) == Err::<(), GateErrorView>(GateErrorView::Forbidden),
{
}

/// With a configured key, a request is refused as unauthorized or let through;
/// it is let through just where its header is text and is that very key.
pub proof fn law_only_the_key_opens(key: Seq<char>, header: Option<Seq<u8>>)
    requires
        key.len() > 0,
    ensures
        authorized(Some(key), header) is Ok <==> (header matches Some(value) && is_header_text(
            value,
        ) && value == encode_utf8(key)),
        authorized(Some(key), header) is Err ==> authorized(Some(key), header) == Err::<
            (),
            GateErrorView,
        >(GateErrorView::Unauthorized),
{
    lemma_encoding_is_not_empty(key);
}

/// Two keys that one request satisfies are the same key.
pub proof fn law_keys_are_told_apart(a: Seq<char>, b: Seq<char>, header: Option<Seq<u8>>)
    requires
        authorized(Some(a), header) is Ok,
        authorized(Some(b), header) is Ok,
    ensures
        a == b,
{
    vstd::utf8::encode_utf8_decode_utf8(a);
    vstd::utf8::encode_utf8_decode_utf8(b);
}

/// A key is compared with what the request sends, byte by byte; nothing else
/// of the request counts, and a header that is no text is as good as none.
pub proof fn law_what_is_sent_decides(key: Seq<char>, value: Seq<u8>)
    ensures
        is_header_text(value) ==> (authorized(Some(key), Some(value)) is Ok <==> value
            == encode_utf8(key)),
        !is_header_text(value) ==> authorized(Some(key), Some(value)) == authorized(
            Some(key),
            None,
        ),
        authorized(Some(key), None) == authorized(Some(key), Some(Seq::empty())),
        authorized(Some(key), None) is Ok <==> key.len() == 0,
        authorized(Some(key), Some(value)) is Err ==> authorized(Some(key), Some(value)) == Err::<
            (),
            GateErrorView,
        >(GateErrorView::Unauthorized),
{
    if key.len() > 0 {
        lemma_encoding_is_not_empty(key);
    }
    let none = Seq::<u8>::empty();
    assert(is_header_text(none));
    assert(encode_utf8(Seq::<char>::empty()) =~= none);
    if key.len() == 0 {
        assert(key =~= Seq::<char>::empty());
    }
}

/// A key of printable ASCII and tabs can be sent as it is, and lets the request
/// through.
pub proof fn law_printable_key_can_be_sent(key: Seq<char>, value: Seq<u8>)
    requires
        forall|i: int| 0 <= i < key.len() ==> ' ' <= #[trigger] key[i] <= '~' || key[i] == '\t',
        value.len() == key.len(),
        forall|i: int| 0 <= i < key.len() ==> value[i] == #[trigger] key[i] as u8,
    ensures
        authorized(Some(key), Some(value)) == Ok::<(), GateErrorView>(()),
{
    assert(vstd::utf8::is_ascii_chars(key));
    vstd::utf8::is_ascii_chars_encode_utf8(key);
    assert(value =~= encode_utf8(key));
    assert forall|i: int| 0 <= i < value.len() implies (32 <= #[trigger] value[i] < 127 || value[i]
        == 9) by {
        assert(value[i] == key[i] as u8);
    }
}

/// A header value is text just where each of its bytes is a tab or one of the
/// printable ASCII characters, space to `~`.
pub proof fn law_header_text_bytes(value: Seq<u8>)
    ensures
        is_header_text(value) <==> forall|i: int|
            0 <= i < value.len() ==> {
                ||| #[trigger] value[i] == '\t' as u8
                ||| ' ' as u8 <= value[i] <= '~' as u8
            },
{
}

/// A key that cannot stand in a header lets no request through.
pub proof fn law_key_that_cannot_be_sent_opens_nothing(key: Seq<char>, header: Option<Seq<u8>>)
    requires
        !is_header_text(encode_utf8(key)),
    ensures
        authorized(Some(key), header) == Err::<(), GateErrorView>(GateErrorView::Unauthorized),
{
}

/// What a request provides is its header's value, byte by byte.
pub proof fn law_bytes_of_a_header(header: Option<&[u8]>)
    ensures
        match header {
            Some(value) => bytes_of(header) == Some(value@),
            None => bytes_of(header) is None,
        },
{
}

/// A key that configuration accepts never lets a request through that sends
/// no key: no header, an empty one, or one that is no text.
pub proof fn law_no_key_is_no_pass(
    raw: Option<Seq<char>>,
    key: Seq<char>,
    header: Option<Seq<u8>>,
)
    requires
        config::admin_key(raw) == Ok::<Option<Seq<char>>, config::ConfigErrorView>(Some(key)),
        header matches Some(value) ==> value.len() == 0 || !is_header_text(value),
    ensures
        authorized(Some(key), header) == Err::<(), GateErrorView>(GateErrorView::Unauthorized),
{
    text::lemma_trimmed_empty(key);
    lemma_encoding_is_not_empty(key);
}

proof fn lemma_encoding_is_not_empty(s: Seq<char>)
    requires
        s.len() > 0,
    ensures
        encode_utf8(s).len() > 0,
{
    assert(vstd::utf8::encode_scalar(s[0] as u32).len() > 0);
}

} // verus!
