//! The wireless-link stack: bounded connection configuration and the
//! connect/retry state machine.
//!
//! The manager owns the modem in wireless-link mode and decides every step;
//! the driver calls themselves (start, apply configuration, request
//! connection, disconnect) are performed by the caller, which reports each
//! accepted step back as an event. Connection establishment is asynchronous:
//! a connect request returns once accepted, and the link counts as up only
//! when the driver's association event arrives ([`ConnectivityManager::link_up`]).
//!
//! No retry is built in at this layer: a refused request surfaces its error
//! to the caller, and periodic reconnection is the caller's responsibility.
use vstd::prelude::*;
use vstd::string::*;

use crate::Error;
use crate::bus::RadioModemOwnership;

verus! {

broadcast use vstd::slice::axiom_spec_len;

/// The authentication method the client configuration is applied with; fixed
/// for this board.
#[derive(Clone, Copy, Debug, PartialEq, Eq, Structural)]
pub enum AuthMethod {
    Wpa2Personal,
}

/// The SSID capacity of the driver's client configuration, in bytes.
pub const SSID_MAX_BYTES: usize = 32;

/// The passphrase capacity of the driver's client configuration, in bytes.
pub const PASSWORD_MAX_BYTES: usize = 64;

/// The bytes a bounded SSID buffer holds.
pub uninterp spec fn ssid_buf_bytes(s: heapless::String<32>) -> Seq<u8>;

/// The bytes a bounded passphrase buffer holds.
pub uninterp spec fn password_buf_bytes(s: heapless::String<64>) -> Seq<u8>;

/// Declares heapless::String, the driver's fixed-capacity string type, so
/// that configurations can hold it; its contents are spoken of only through
/// the two names above.
#[verifier::external_type_specification]
#[verifier::external_body]
pub struct ExHeaplessString<const N: usize>(heapless::String<N>);

/// Relies on heapless::String::new: a fresh bounded string is empty.
#[verifier::external_body]
fn ssid_buf_new() -> (r: heapless::String<32>)
    ensures
        ssid_buf_bytes(r) == Seq::<u8>::empty(),
{
    heapless::String::new()
}

/// Relies on heapless::String::push_str (through Vec::extend_from_slice): the
/// text is appended whole when it fits in the remaining capacity, and nothing
/// changes otherwise.
#[verifier::external_body]
fn ssid_buf_push(buf: &mut heapless::String<32>, s: &str) -> (r: Result<(), ()>)
    ensures
        ssid_buf_bytes(*old(buf)).len() + s.spec_bytes().len() <= 32 ==> r is Ok
            && ssid_buf_bytes(*final(buf)) == ssid_buf_bytes(*old(buf)) + s.spec_bytes(),
        ssid_buf_bytes(*old(buf)).len() + s.spec_bytes().len() > 32 ==> r is Err
            && ssid_buf_bytes(*final(buf)) == ssid_buf_bytes(*old(buf)),
{
    buf.push_str(s)
}

/// Relies on heapless::String::as_str: a view of exactly the stored bytes.
#[verifier::external_body]
fn ssid_buf_as_str(buf: &heapless::String<32>) -> (r: &str)
    ensures
        r.spec_bytes() == ssid_buf_bytes(*buf),
{
    buf.as_str()
}

/// Relies on heapless::String::new: a fresh bounded string is empty.
#[verifier::external_body]
fn password_buf_new() -> (r: heapless::String<64>)
    ensures
        password_buf_bytes(r) == Seq::<u8>::empty(),
{
    heapless::String::new()
}

/// Relies on heapless::String::push_str (through Vec::extend_from_slice): the
/// text is appended whole when it fits in the remaining capacity, and nothing
/// changes otherwise.
#[verifier::external_body]
fn password_buf_push(buf: &mut heapless::String<64>, s: &str) -> (r: Result<(), ()>)
    ensures
        password_buf_bytes(*old(buf)).len() + s.spec_bytes().len() <= 64 ==> r is Ok
            && password_buf_bytes(*final(buf)) == password_buf_bytes(*old(buf)) + s.spec_bytes(),
        password_buf_bytes(*old(buf)).len() + s.spec_bytes().len() > 64 ==> r is Err
            && password_buf_bytes(*final(buf)) == password_buf_bytes(*old(buf)),
{
    buf.push_str(s)
}

/// Relies on heapless::String::as_str: a view of exactly the stored bytes.
#[verifier::external_body]
fn password_buf_as_str(buf: &heapless::String<64>) -> (r: &str)
    ensures
        r.spec_bytes() == password_buf_bytes(*buf),
{
    buf.as_str()
}

/// A validated client configuration: bounded SSID and passphrase in the
/// driver's own fixed-capacity buffers, and the fixed authentication method.
pub struct ConnectionConfig {
    ssid: heapless::String<32>,
    password: heapless::String<64>,
    auth: AuthMethod,
}

impl ConnectionConfig {
    pub closed spec fn ssid_bytes(&self) -> Seq<u8> {
        ssid_buf_bytes(self.ssid)
    }

    pub closed spec fn password_bytes(&self) -> Seq<u8> {
        password_buf_bytes(self.password)
    }

    pub closed spec fn auth(&self) -> AuthMethod {
        self.auth
    }

    pub open spec fn wf(&self) -> bool {
        self.ssid_bytes().len() <= 32 && self.password_bytes().len() <= 64
    }

    /// Build a configuration from the requested credentials. Refused with
    /// [`Error::ConfigRejected`] exactly when the SSID exceeds 32 bytes or
    /// the passphrase exceeds 64 bytes; nothing is truncated.
    pub fn build(ssid: &str, password: &str) -> (r: Result<ConnectionConfig, Error>)
        ensures
            r is Ok <==> ssid.spec_bytes().len() <= 32 && password.spec_bytes().len() <= 64,
            r matches Ok(c) ==> c.wf() && c.ssid_bytes() == ssid.spec_bytes()
                && c.password_bytes() == password.spec_bytes() && c.auth()
                == AuthMethod::Wpa2Personal,
            r matches Err(e) ==> e == Error::ConfigRejected,
    {
        let ssid_raw = ssid.as_bytes();
        let password_raw = password.as_bytes();
        if ssid_raw.len() > SSID_MAX_BYTES || password_raw.len() > PASSWORD_MAX_BYTES {
            return Err(Error::ConfigRejected);
        }
        let mut s = ssid_buf_new();
        let _ = ssid_buf_push(&mut s, ssid);
        let mut p = password_buf_new();
        let _ = password_buf_push(&mut p, password);
        proof {
            assert(ssid_buf_bytes(s) =~= ssid.spec_bytes());
            assert(password_buf_bytes(p) =~= password.spec_bytes());
        }
        Ok(ConnectionConfig { ssid: s, password: p, auth: AuthMethod::Wpa2Personal })
    }

    /// The stored SSID, for handing to the driver.
    pub fn ssid_str(&self) -> (r: &str)
        ensures
            r.spec_bytes() == self.ssid_bytes(),
    {
        ssid_buf_as_str(&self.ssid)
    }

    /// The stored passphrase, for handing to the driver.
    pub fn password_str(&self) -> (r: &str)
        ensures
            r.spec_bytes() == self.password_bytes(),
    {
        password_buf_as_str(&self.password)
    }

    /// The authentication method the configuration is applied with.
    pub fn auth_method(&self) -> (r: AuthMethod)
        ensures
            r == self.auth(),
    {
        self.auth
    }
}

/// The wireless-link state machine's states.
#[derive(Clone, Copy, Debug, PartialEq, Eq, Structural)]
pub enum ConnState {
    Idle,
    Starting,
    Configuring,
    Connecting,
    Connected,
    Disconnecting,
}

/// What the caller must do after a granted connect request, in order: an
/// explicit disconnect first when flagged, then start the driver, apply the
/// current configuration, and request the connection, reporting each accepted
/// step back as an event.
#[derive(Clone, Copy, Debug, PartialEq, Eq, Structural)]
pub struct ConnectPlan {
    pub disconnect_first: bool,
}

/// The wireless-link manager. Owns the modem in wireless-link mode for the
/// process lifetime.
pub struct ConnectivityManager {
    modem: RadioModemOwnership,
    state: ConnState,
    config: Option<ConnectionConfig>,
}

impl ConnectivityManager {
    pub closed spec fn state(&self) -> ConnState {
        self.state
    }

    pub closed spec fn has_config(&self) -> bool {
        self.config is Some
    }

    pub closed spec fn config_ssid_bytes(&self) -> Seq<u8> {
        match self.config {
            Option::Some(c) => c.ssid_bytes(),
            Option::None => Seq::empty(),
        }
    }

    pub closed spec fn config_password_bytes(&self) -> Seq<u8> {
        match self.config {
            Option::Some(c) => c.password_bytes(),
            Option::None => Seq::empty(),
        }
    }

    pub closed spec fn config_auth(&self) -> AuthMethod {
        match self.config {
            Option::Some(c) => c.auth(),
            Option::None => AuthMethod::Wpa2Personal,
        }
    }

    pub closed spec fn wf(&self) -> bool {
        &&& self.modem is WirelessLink
        &&& match self.config {
            Option::Some(c) => c.wf(),
            Option::None => true,
        }
    }

    /// Claim the modem for the wireless-link stack. Refused, with the modem
    /// handed back, when the modem is not owned in wireless-link mode: the
    /// physical modem backs exactly one stack.
    pub fn start(modem: RadioModemOwnership) -> (r: Result<
        ConnectivityManager,
        (RadioModemOwnership, Error),
    >)
        ensures
            r is Ok <==> modem is WirelessLink,
            r matches Ok(m) ==> m.wf() && m.state() is Idle && !m.has_config(),
            r matches Err(p) ==> p.0 == modem && p.1 == Error::ConfigRejected,
    {
        match modem {
            RadioModemOwnership::WirelessLink(h) => Ok(
                ConnectivityManager {
                    modem: RadioModemOwnership::WirelessLink(h),
                    state: ConnState::Idle,
                    config: None,
                },
            ),
            other => Err((other, Error::ConfigRejected)),
        }
    }

    /// Request a connection with the given credentials.
    ///
    /// Refused with [`Error::ConfigRejected`], changing nothing, exactly when
    /// a credential exceeds its bounded capacity. When granted, the one
    /// configuration slot holds exactly the new credentials — a previous
    /// configuration is never layered under it — and the returned plan tells
    /// the caller to disconnect first if the link was up (the machine then
    /// waits in `Disconnecting` for [`Self::disconnect_done`] before the
    /// start/configure/connect sequence). The request is accepted here; the
    /// link is up only after [`Self::link_up`].
    pub fn connect(&mut self, ssid: &str, password: &str) -> (r: Result<ConnectPlan, Error>)
        requires
            old(self).wf(),
        ensures
            final(self).wf(),
            r is Ok <==> ssid.spec_bytes().len() <= 32 && password.spec_bytes().len() <= 64,
            r matches Ok(plan) ==> connect_accepted(
                *old(self),
                *final(self),
                ssid.spec_bytes(),
                password.spec_bytes(),
            ) && plan.disconnect_first == (old(self).state() is Connected),
            r matches Err(e) ==> e == Error::ConfigRejected && *final(self) == *old(self),
    {
        let disconnect_first = self.state == ConnState::Connected;
        match ConnectionConfig::build(ssid, password) {
            Result::Err(e) => Err(e),
            Result::Ok(cfg) => {
                self.config = Some(cfg);
                self.state = if disconnect_first {
                    ConnState::Disconnecting
                } else {
                    ConnState::Starting
                };
                Ok(ConnectPlan { disconnect_first })
            },
        }
    }

    /// The driver finished the explicit disconnect a granted reconnect asked
    /// for; the start/configure/connect sequence begins.
    pub fn disconnect_done(&mut self)
        requires
            old(self).wf(),
            old(self).state() is Disconnecting,
        ensures
            final(self).wf(),
            final(self).state() is Starting,
            config_kept(*old(self), *final(self)),
    {
        self.state = ConnState::Starting;
    }

    /// The driver accepted the start call.
    pub fn driver_started(&mut self)
        requires
            old(self).wf(),
            old(self).state() is Starting,
        ensures
            final(self).wf(),
            started_step(*old(self), *final(self)),
    {
        self.state = ConnState::Configuring;
    }

    /// The driver accepted the client configuration.
    pub fn config_applied(&mut self)
        requires
            old(self).wf(),
            old(self).state() is Configuring,
        ensures
            final(self).wf(),
            configured_step(*old(self), *final(self)),
    {
        self.state = ConnState::Connecting;
    }

    /// The driver reported association: the link is up.
    pub fn link_up(&mut self)
        requires
            old(self).wf(),
            old(self).state() is Connecting,
        ensures
            final(self).wf(),
            link_up_step(*old(self), *final(self)),
    {
        self.state = ConnState::Connected;
    }

    /// Ask for an explicit disconnect; the caller performs the driver call
    /// and reports back with [`Self::link_down`]. The configuration persists
    /// in memory.
    pub fn disconnect(&mut self)
        requires
            old(self).wf(),
        ensures
            final(self).wf(),
            final(self).state() is Disconnecting,
            config_kept(*old(self), *final(self)),
    {
        self.state = ConnState::Disconnecting;
    }

    /// The driver confirmed the link is torn down.
    pub fn link_down(&mut self)
        requires
            old(self).wf(),
        ensures
            final(self).wf(),
            final(self).state() is Idle,
            config_kept(*old(self), *final(self)),
    {
        self.state = ConnState::Idle;
    }

    /// Whether the link is currently associated.
    pub fn is_connected(&self) -> (r: bool)
        ensures
            r == (self.state() is Connected),
    {
        self.state == ConnState::Connected
    }

    /// The current configuration, for the caller's driver calls.
    pub fn current_config(&self) -> (r: Option<&ConnectionConfig>)
        ensures
            r is Some <==> self.has_config(),
            r matches Some(c) ==> c.ssid_bytes() == self.config_ssid_bytes()
                && c.password_bytes() == self.config_password_bytes() && c.auth()
                == self.config_auth(),
    {
        match &self.config {
            Some(c) => Some(c),
            None => None,
        }
    }
}

/// The configuration is carried over unchanged.
pub open spec fn config_kept(pre: ConnectivityManager, post: ConnectivityManager) -> bool {
    &&& post.has_config() == pre.has_config()
    &&& post.config_ssid_bytes() == pre.config_ssid_bytes()
    &&& post.config_password_bytes() == pre.config_password_bytes()
    &&& post.config_auth() == pre.config_auth()
}

/// A connect request with these credentials was granted: the manager holds
/// exactly the one new configuration and has begun the start/configure/connect
/// sequence.
pub open spec fn connect_accepted(
    pre: ConnectivityManager,
    post: ConnectivityManager,
    ssid: Seq<u8>,
    password: Seq<u8>,
) -> bool {
    &&& if pre.state() is Connected {
        post.state() is Disconnecting
    } else {
        post.state() is Starting
    }
    &&& post.has_config()
    &&& post.config_ssid_bytes() == ssid
    &&& post.config_password_bytes() == password
    &&& post.config_auth() == AuthMethod::Wpa2Personal
}

/// The pending explicit disconnect of a reconnect finished.
pub open spec fn disconnect_done_step(pre: ConnectivityManager, post: ConnectivityManager) -> bool {
    &&& pre.state() is Disconnecting
    &&& post.state() is Starting
    &&& config_kept(pre, post)
}

/// The start call was accepted.
pub open spec fn started_step(pre: ConnectivityManager, post: ConnectivityManager) -> bool {
    &&& pre.state() is Starting
    &&& post.state() is Configuring
    &&& config_kept(pre, post)
}

/// The configuration was applied.
pub open spec fn configured_step(pre: ConnectivityManager, post: ConnectivityManager) -> bool {
    &&& pre.state() is Configuring
    &&& post.state() is Connecting
    &&& config_kept(pre, post)
}

/// The association event arrived.
pub open spec fn link_up_step(pre: ConnectivityManager, post: ConnectivityManager) -> bool {
    &&& pre.state() is Connecting
    &&& post.state() is Connected
    &&& config_kept(pre, post)
}

/// Law: for any credentials within the (32, 64)-byte bounds, a granted
/// connect request followed by the driver's start, configure and association
/// events reaches a state where `is_connected` reports true — and at that
/// point the manager holds exactly the one configuration that was requested,
/// never a second one layered beneath it.
pub proof fn lemma_connect_then_link_up(
    pre: ConnectivityManager,
    s1: ConnectivityManager,
    s2: ConnectivityManager,
    s3: ConnectivityManager,
    s4: ConnectivityManager,
    ssid: Seq<u8>,
    password: Seq<u8>,
)
    requires
        ssid.len() <= 32,
        password.len() <= 64,
        !(pre.state() is Connected),
        connect_accepted(pre, s1, ssid, password),
        started_step(s1, s2),
        configured_step(s2, s3),
        link_up_step(s3, s4),
    ensures
        s4.state() is Connected,
        s4.has_config(),
        s4.config_ssid_bytes() == ssid,
        s4.config_password_bytes() == password,
        s4.config_auth() == AuthMethod::Wpa2Personal,
{
}

/// Law: the same, for a reconnect granted while the link was up — the
/// explicit disconnect runs first, and still only the one new configuration
/// survives to the connected state.
pub proof fn lemma_reconnect_then_link_up(
    pre: ConnectivityManager,
    s1: ConnectivityManager,
    s2: ConnectivityManager,
    s3: ConnectivityManager,
    s4: ConnectivityManager,
    s5: ConnectivityManager,
    ssid: Seq<u8>,
    password: Seq<u8>,
)
    requires
        ssid.len() <= 32,
        password.len() <= 64,
        pre.state() is Connected,
        connect_accepted(pre, s1, ssid, password),
        disconnect_done_step(s1, s2),
        started_step(s2, s3),
        configured_step(s3, s4),
        link_up_step(s4, s5),
    ensures
        s5.state() is Connected,
        s5.has_config(),
        s5.config_ssid_bytes() == ssid,
        s5.config_password_bytes() == password,
        s5.config_auth() == AuthMethod::Wpa2Personal,
{
}

} // verus!
