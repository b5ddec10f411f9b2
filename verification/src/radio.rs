//! The short-range radio GATT server: service registration, connection
//! admission over a single advertising radio, and the periodic notifier.
//!
//! The server owns the modem in short-range mode. The radio stack's callbacks
//! are modelled as explicit events ([`RadioServer::on_connect`],
//! [`RadioServer::on_disconnect`], [`RadioServer::on_write`]); the caller
//! registers thin callbacks with the stack that forward into these, and a
//! dedicated task drives [`RadioServer::notifier_tick`] once per second.
use vstd::prelude::*;
use vstd::slice::slice_to_vec;
use vstd::string::*;

use crate::Error;
use crate::bus::RadioModemOwnership;
use crate::render::{append_str_bytes, centi_bytes, centi_dec, dec_bytes, u64_dec};

verus! {

/// The build-time cap on simultaneous radio-server connections.
pub const MAX_CONNECTIONS: u32 = 3;

pub const SERVICE_UUID: u128 = 0xfafafafa_fafa_fafa_fafa_fafafafafafa;

pub const STATIC_CHAR_UUID: u128 = 0xd4e0e0d0_1a2b_11e9_ab14_d663bd873d93;

pub const NOTIFY_CHAR_UUID: u128 = 0xa3c87500_8ed3_4bdf_8a39_a01bebede295;

pub const WRITE_CHAR_UUID: u128 = 0x3c9a3f00_8ed3_4bdf_8a39_a01bebede295;

/// The name the service is advertised under.
pub fn device_name() -> (r: &'static str)
    ensures
        r@ == "ESP32-GATT-Server"@,
{
    "ESP32-GATT-Server"
}

/// The static characteristic's one-time value.
pub fn static_char_text() -> (r: &'static str)
    ensures
        r@ == "Hello World, this is static, TOTHTOT"@,
{
    "Hello World, this is static, TOTHTOT"
}

/// The notify characteristic's initial value, before the first tick.
pub fn notify_char_text() -> (r: &'static str)
    ensures
        r@ == "Hello World, this is notify, TOTHTOT"@,
{
    "Hello World, this is notify, TOTHTOT"
}

/// A characteristic's access mode.
#[derive(Clone, Copy, Debug, PartialEq, Eq, Structural)]
pub enum AccessMode {
    Read,
    ReadNotify,
    ReadWrite,
}

/// One typed data point of the service.
pub struct Characteristic {
    pub uuid: u128,
    pub access: AccessMode,
    pub value: Vec<u8>,
}

/// The one registered service: its UUID and its three characteristics.
pub struct GattService {
    pub uuid: u128,
    pub characteristics: Vec<Characteristic>,
}

/// Connection parameters negotiated on every accept, for power efficiency.
#[derive(Clone, Copy, Debug, PartialEq, Eq, Structural)]
pub struct ConnParams {
    pub min_interval: u16,
    pub max_interval: u16,
    pub latency: u16,
    pub timeout: u16,
}

/// What one notifier wake-up decided: stop for good, or push this payload as
/// the notify characteristic's new value.
pub enum NotifierStep {
    Stop,
    Notify(Vec<u8>),
}

/// The admission-control state, abstracted: how many peers are connected, the
/// cap, and whether the radio is advertising for more.
pub struct Admission {
    pub connected: int,
    pub cap: int,
    pub advertising: bool,
}

/// An admission-relevant event from the radio stack.
#[derive(Clone, Copy, Debug, PartialEq, Eq, Structural)]
pub enum RadioEvent {
    Connect,
    Disconnect,
}

pub open spec fn admission_wf(s: Admission) -> bool {
    &&& 0 <= s.connected <= s.cap
    &&& 1 <= s.cap
    &&& s.advertising ==> s.connected < s.cap
}

/// One admission step. A peer can only arrive while the radio advertises;
/// advertising afterwards is a pure function of the count against the cap.
pub open spec fn admission_step(s: Admission, e: RadioEvent) -> Admission {
    match e {
        RadioEvent::Connect => {
            if s.advertising {
                Admission { connected: s.connected + 1, cap: s.cap, advertising: s.connected + 1 < s.cap }
            } else {
                s
            }
        },
        RadioEvent::Disconnect => {
            if s.connected > 0 {
                Admission { connected: s.connected - 1, cap: s.cap, advertising: s.connected - 1 < s.cap }
            } else {
                s
            }
        },
    }
}

pub open spec fn admission_run(s: Admission, events: Seq<RadioEvent>) -> Admission
    decreases events.len(),
{
    if events.len() == 0 {
        s
    } else {
        admission_step(admission_run(s, events.drop_last()), events.last())
    }
}

/// Law: over every sequence of connect/disconnect events, the connected count
/// never exceeds the cap, and whenever it has reached the cap, advertising is
/// off — no new connection path can start.
pub proof fn lemma_admission_invariant(s: Admission, events: Seq<RadioEvent>)
    requires
        admission_wf(s),
    ensures
        admission_wf(admission_run(s, events)),
        admission_run(s, events).connected == admission_run(s, events).cap ==> !admission_run(
            s,
            events,
        ).advertising,
        admission_run(s, events).cap == s.cap,
    decreases events.len(),
{
    if events.len() > 0 {
        lemma_admission_invariant(s, events.drop_last());
    }
}

/// Law: once the count drops below the cap — that is, on any disconnect from
/// a well-formed state — advertising resumes at once.
pub proof fn lemma_advertising_resumes(s: Admission)
    requires
        admission_wf(s),
        s.connected > 0,
    ensures
        admission_step(s, RadioEvent::Disconnect).advertising,
{
}

/// The notify payload for one tick: the running counter and the current
/// temperature, as ASCII text.
pub open spec fn notify_payload(counter: u64, temperature_centi: i32) -> Seq<u8> {
    ("running:").spec_bytes() + dec_bytes(counter as nat) + (",temp:").spec_bytes()
        + centi_bytes(temperature_centi as int)
}

/// The GATT server. Holds the modem in short-range mode for the process
/// lifetime; set up once, then driven purely by events.
pub struct RadioServer {
    modem: RadioModemOwnership,
    max_connections: u32,
    connected_count: u32,
    advertising: bool,
    setup_done: bool,
    service: Option<GattService>,
    notify_counter: u64,
}

impl RadioServer {
    pub closed spec fn max_connections(&self) -> u32 {
        self.max_connections
    }

    pub closed spec fn connected_count(&self) -> u32 {
        self.connected_count
    }

    pub closed spec fn advertising(&self) -> bool {
        self.advertising
    }

    pub closed spec fn setup_done(&self) -> bool {
        self.setup_done
    }

    pub closed spec fn notify_counter(&self) -> u64 {
        self.notify_counter
    }

    /// The admission abstraction of this server.
    pub closed spec fn abs(&self) -> Admission {
        Admission {
            connected: self.connected_count as int,
            cap: self.max_connections as int,
            advertising: self.advertising,
        }
    }

    /// The registered service's characteristic at `i`: (uuid, access, value).
    pub closed spec fn char_at(&self, i: int) -> (u128, AccessMode, Seq<u8>) {
        match self.service {
            Option::Some(s) => (
                s.characteristics@[i].uuid,
                s.characteristics@[i].access,
                s.characteristics@[i].value@,
            ),
            Option::None => (0, AccessMode::Read, Seq::empty()),
        }
    }

    /// The three characteristics stand registered as the fixed layout: the
    /// static read value, the read+notify telemetry value, and the
    /// read+write inbox (initially empty).
    pub open spec fn service_registered(&self) -> bool {
        &&& self.char_at(0).0 == STATIC_CHAR_UUID
        &&& self.char_at(0).1 == AccessMode::Read
        &&& self.char_at(0).2 == ("Hello World, this is static, TOTHTOT").spec_bytes()
        &&& self.char_at(1).0 == NOTIFY_CHAR_UUID
        &&& self.char_at(1).1 == AccessMode::ReadNotify
        &&& self.char_at(2).0 == WRITE_CHAR_UUID
        &&& self.char_at(2).1 == AccessMode::ReadWrite
    }

    pub closed spec fn wf(&self) -> bool {
        &&& self.modem is ShortRangeRadio
        &&& 1 <= self.max_connections
        &&& self.connected_count <= self.max_connections
        &&& self.advertising ==> self.connected_count < self.max_connections
        &&& !self.setup_done ==> self.connected_count == 0 && !self.advertising
        &&& self.setup_done <==> self.service is Some
        &&& match self.service {
            Option::Some(s) => s.uuid == SERVICE_UUID && s.characteristics@.len() == 3,
            Option::None => true,
        }
    }

    /// Claim the modem for the short-range stack. Refused, with the modem
    /// handed back, when it is not owned in short-range mode.
    pub fn start(modem: RadioModemOwnership, max_connections: u32) -> (r: Result<
        RadioServer,
        (RadioModemOwnership, Error),
    >)
        requires
            max_connections >= 1,
        ensures
            r is Ok <==> modem is ShortRangeRadio,
            r matches Ok(s) ==> s.wf() && !s.setup_done() && s.connected_count() == 0
                && !s.advertising() && s.max_connections() == max_connections
                && s.notify_counter() == 0,
            r matches Err(p) ==> p.0 == modem && p.1 == Error::ConfigRejected,
    {
        match modem {
            RadioModemOwnership::ShortRangeRadio(h) => Ok(
                RadioServer {
                    modem: RadioModemOwnership::ShortRangeRadio(h),
                    max_connections,
                    connected_count: 0,
                    advertising: false,
                    setup_done: false,
                    service: None,
                    notify_counter: 0,
                },
            ),
            other => Err((other, Error::ConfigRejected)),
        }
    }

    /// Register the service with its three characteristics, set the
    /// advertisement payload (service UUID and device name) and start
    /// advertising. Must run exactly once: a second call would register
    /// duplicate characteristics, so it is refused with
    /// [`Error::ConfigRejected`] and changes nothing.
    pub fn setup(&mut self) -> (r: Result<(), Error>)
        requires
            old(self).wf(),
        ensures
            final(self).wf(),
            r is Ok <==> !old(self).setup_done(),
            r is Ok ==> final(self).setup_done() && final(self).service_registered()
                && final(self).advertising() && final(self).connected_count() == 0
                && final(self).char_at(1).2 == ("Hello World, this is notify, TOTHTOT").spec_bytes()
                && final(self).char_at(2).2 == Seq::<u8>::empty()
                && final(self).max_connections() == old(self).max_connections()
                && final(self).notify_counter() == old(self).notify_counter()
                && final(self).connected_count() == old(self).connected_count(),
            r matches Err(e) ==> e == Error::ConfigRejected && *final(self) == *old(self),
    {
        if self.setup_done {
            return Err(Error::ConfigRejected);
        }
        let mut static_value: Vec<u8> = Vec::new();
        append_str_bytes(&mut static_value, static_char_text());
        let mut notify_value: Vec<u8> = Vec::new();
        append_str_bytes(&mut notify_value, notify_char_text());
        let mut characteristics: Vec<Characteristic> = Vec::new();
        characteristics.push(
            Characteristic { uuid: STATIC_CHAR_UUID, access: AccessMode::Read, value: static_value },
        );
        characteristics.push(
            Characteristic {
                uuid: NOTIFY_CHAR_UUID,
                access: AccessMode::ReadNotify,
                value: notify_value,
            },
        );
        characteristics.push(
            Characteristic { uuid: WRITE_CHAR_UUID, access: AccessMode::ReadWrite, value: Vec::new() },
        );
        self.service = Some(GattService { uuid: SERVICE_UUID, characteristics });
        self.setup_done = true;
        self.advertising = true;
        proof {
            assert(("Hello World, this is static, TOTHTOT").spec_bytes() =~= Seq::<
                u8,
            >::empty() + ("Hello World, this is static, TOTHTOT").spec_bytes());
            assert(("Hello World, this is notify, TOTHTOT").spec_bytes() =~= Seq::<
                u8,
            >::empty() + ("Hello World, this is notify, TOTHTOT").spec_bytes());
        }
        Ok(())
    }

    /// A peer connected (possible only while advertising). The connection
    /// parameters returned are negotiated with the peer, and advertising is
    /// resumed exactly when the cap is not yet reached, so further clients
    /// can join.
    pub fn on_connect(&mut self) -> (r: ConnParams)
        requires
            old(self).wf(),
            old(self).setup_done(),
            old(self).advertising(),
        ensures
            final(self).wf(),
            r == (ConnParams { min_interval: 24, max_interval: 48, latency: 0, timeout: 60 }),
            final(self).abs() == admission_step(old(self).abs(), RadioEvent::Connect),
            final(self).connected_count() == old(self).connected_count() + 1,
            final(self).advertising() <==> final(self).connected_count()
                < final(self).max_connections(),
            final(self).max_connections() == old(self).max_connections(),
            final(self).setup_done(),
            final(self).service_registered() == old(self).service_registered(),
            forall|i: int| final(self).char_at(i) == old(self).char_at(i),
            final(self).notify_counter() == old(self).notify_counter(),
    {
        self.connected_count = self.connected_count + 1;
        self.advertising = self.connected_count < self.max_connections;
        ConnParams { min_interval: 24, max_interval: 48, latency: 0, timeout: 60 }
    }

    /// A peer disconnected. The count drops below the cap, so advertising is
    /// re-enabled within this very event.
    pub fn on_disconnect(&mut self)
        requires
            old(self).wf(),
            old(self).setup_done(),
            old(self).connected_count() > 0,
        ensures
            final(self).wf(),
            final(self).abs() == admission_step(old(self).abs(), RadioEvent::Disconnect),
            final(self).connected_count() == old(self).connected_count() - 1,
            final(self).advertising(),
            final(self).max_connections() == old(self).max_connections(),
            final(self).setup_done(),
            final(self).service_registered() == old(self).service_registered(),
            forall|i: int| final(self).char_at(i) == old(self).char_at(i),
            final(self).notify_counter() == old(self).notify_counter(),
    {
        self.connected_count = self.connected_count - 1;
        self.advertising = self.connected_count < self.max_connections;
    }

    /// A peer wrote to the read+write characteristic: record the bytes as its
    /// current value. Purely observational; no state machine hangs off the
    /// received bytes.
    pub fn on_write(&mut self, data: &[u8])
        requires
            old(self).wf(),
            old(self).setup_done(),
        ensures
            final(self).wf(),
            final(self).char_at(2).0 == old(self).char_at(2).0,
            final(self).char_at(2).1 == old(self).char_at(2).1,
            final(self).char_at(2).2 == data@,
            final(self).char_at(0) == old(self).char_at(0),
            final(self).char_at(1) == old(self).char_at(1),
            final(self).connected_count() == old(self).connected_count(),
            final(self).advertising() == old(self).advertising(),
            final(self).max_connections() == old(self).max_connections(),
            final(self).setup_done(),
            final(self).notify_counter() == old(self).notify_counter(),
    {
        match &mut self.service {
            Some(svc) => {
                let value = slice_to_vec(data);
                let access = svc.characteristics[2].access;
                let uuid = svc.characteristics[2].uuid;
                svc.characteristics.set(2, Characteristic { uuid, access, value });
            },
            None => {
                proof {
                    assert(false);
                }
            },
        }
    }

    /// One wake-up of the background notifier task, handed the telemetry
    /// snapshot read under the lock. When the exit flag is set, the task
    /// stops for good and nothing further is notified; otherwise the payload
    /// carries the running counter and the temperature, becomes the notify
    /// characteristic's new value, and the counter increases by one.
    pub fn notifier_tick(&mut self, temperature_centi: i32, exit: bool) -> (r: NotifierStep)
        requires
            old(self).wf(),
            old(self).setup_done(),
            old(self).notify_counter() < u64::MAX,
        ensures
            final(self).wf(),
            exit ==> r is Stop && *final(self) == *old(self),
            !exit ==> (r matches NotifierStep::Notify(payload) && payload@ == notify_payload(
                old(self).notify_counter(),
                temperature_centi,
            ) && final(self).setup_done() && final(self).notify_counter() == old(
                self,
            ).notify_counter() + 1
                && final(self).char_at(1).0 == old(self).char_at(1).0 && final(self).char_at(1).1
                == old(self).char_at(1).1 && final(self).char_at(1).2 == payload@
                && final(self).char_at(0) == old(self).char_at(0)
                && final(self).char_at(2) == old(self).char_at(2)
                && final(self).connected_count() == old(self).connected_count()
                && final(self).advertising() == old(self).advertising()
                && final(self).max_connections() == old(self).max_connections()),
    {
        if exit {
            return NotifierStep::Stop;
        }
        let mut payload: Vec<u8> = Vec::new();
        append_str_bytes(&mut payload, "running:");
        let mut digits = u64_dec(self.notify_counter);
        payload.append(&mut digits);
        append_str_bytes(&mut payload, ",temp:");
        let mut temp = centi_dec(temperature_centi);
        payload.append(&mut temp);
        proof {
            assert(payload@ =~= notify_payload(self.notify_counter, temperature_centi));
        }
        let stored = slice_to_vec(payload.as_slice());
        match &mut self.service {
            Some(svc) => {
                let access = svc.characteristics[1].access;
                let uuid = svc.characteristics[1].uuid;
                svc.characteristics.set(1, Characteristic { uuid, access, value: stored });
            },
            None => {
                proof {
                    assert(false);
                }
            },
        }
        self.notify_counter = self.notify_counter + 1;
        NotifierStep::Notify(payload)
    }

    /// The current connected-peer count.
    pub fn connected(&self) -> (r: u32)
        ensures
            r == self.connected_count(),
    {
        self.connected_count
    }

    /// How many notifications have gone out.
    pub fn notify_count(&self) -> (r: u64)
        ensures
            r == self.notify_counter(),
    {
        self.notify_counter
    }

    /// Whether the radio is advertising for further peers.
    pub fn is_advertising(&self) -> (r: bool)
        ensures
            r == self.advertising(),
    {
        self.advertising
    }

    /// The registered service's UUID.
    pub fn service_uuid(&self) -> (r: u128)
        requires
            self.wf(),
            self.setup_done(),
        ensures
            r == SERVICE_UUID,
    {
        match &self.service {
            Some(svc) => svc.uuid,
            None => {
                proof {
                    assert(false);
                }
                unreached()
            },
        }
    }

    /// The UUID and access mode of the characteristic at `i` (0 static,
    /// 1 notify, 2 write).
    pub fn char_meta(&self, i: usize) -> (r: (u128, AccessMode))
        requires
            self.wf(),
            self.setup_done(),
            i < 3,
        ensures
            r.0 == self.char_at(i as int).0,
            r.1 == self.char_at(i as int).1,
    {
        match &self.service {
            Some(svc) => {
                let c = &svc.characteristics[i];
                (c.uuid, c.access)
            },
            None => {
                proof {
                    assert(false);
                }
                unreached()
            },
        }
    }

    /// The current value of the characteristic at `i` (0 static, 1 notify,
    /// 2 write).
    pub fn char_value(&self, i: usize) -> (r: &Vec<u8>)
        requires
            self.wf(),
            self.setup_done(),
            i < 3,
        ensures
            r@ == self.char_at(i as int).2,
    {
        match &self.service {
            Some(svc) => &svc.characteristics[i].value,
            None => {
                proof {
                    assert(false);
                }
                unreached()
            },
        }
    }
}

} // verus!
