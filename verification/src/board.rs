//! The board assembly: one verified startup plan that partitions the shared
//! peripherals, and the entry points the process uses afterwards.
//!
//! Startup hands the two-wire bus to the expander, two expander lines and one
//! serial-bus chip-select to the display, and leaves the modem unclaimed for
//! whichever radio stack is started first; because the fresh arbiter holds
//! every resource, none of these acquisitions can fail. The hardware driver
//! calls themselves happen outside this crate, following the plans and
//! decisions returned here.
use vstd::prelude::*;
use vstd::pervasive::unreached;
use vstd::string::*;
use vstd::utf8::encode_utf8;

use crate::Error;
use crate::bus::{BusArbiter, RadioModemOwnership};
use crate::connectivity::{ConnectPlan, ConnectivityManager, connect_accepted};
use crate::display::{DisplayInitPlan, DisplayPipeline};
use crate::expander::{GpioExpanderPinSource, line_high};
use crate::radio::{MAX_CONNECTIONS, RadioServer};
use crate::storage::StorageMount;

verus! {

/// The serial-bus chip-select line of the display.
pub const DISPLAY_CS_PIN: u8 = 21;

/// The expander line driving the display's data/command select.
pub const DISPLAY_DC_PIN: u8 = 13;

/// The expander line driving the display's reset.
pub const DISPLAY_RST_PIN: u8 = 12;

/// The expander direction configuration: the four high lines drive outputs.
pub const EXPANDER_DIRECTION_MASK: u16 = 0b1111_0000_0000_0000;

/// The compiled-in network name.
pub fn default_wifi_ssid() -> (r: &'static str)
    ensures
        r@ == "esp32_2.4G"@,
{
    "esp32_2.4G"
}

/// The compiled-in network passphrase.
pub fn default_wifi_password() -> (r: &'static str)
    ensures
        r@ == "12345678.."@,
{
    "12345678.."
}

/// The assembled board: the bus arbiter and the components that were handed
/// their resources at startup. The wireless-link stack is started separately,
/// since the modem backs exactly one radio stack.
pub struct BspEsp32S3CoreBoard {
    pub arbiter: BusArbiter,
    pub expander: GpioExpanderPinSource,
    pub display: DisplayPipeline,
    pub storage: StorageMount,
    pub connectivity: Option<ConnectivityManager>,
    pub wifi_ssid: String,
    pub wifi_password: String,
    pub fs_init: bool,
}

impl BspEsp32S3CoreBoard {
    /// The configured network name, as characters.
    pub closed spec fn wifi_ssid_chars(&self) -> Seq<char> {
        self.wifi_ssid@
    }

    /// The configured network passphrase, as characters.
    pub closed spec fn wifi_password_chars(&self) -> Seq<char> {
        self.wifi_password@
    }

    /// The "file system came up" flag the process sets after the mount.
    pub closed spec fn fs_init_flag(&self) -> bool {
        self.fs_init
    }

    pub open spec fn wf(&self) -> bool {
        &&& self.arbiter.wf()
        &&& (self.connectivity matches Some(m) ==> m.wf())
    }

    /// Assemble the board. The fresh arbiter owns everything, so every
    /// acquisition in the fixed startup order succeeds: the exclusive
    /// two-wire handle goes to the expander, which is configured once and
    /// grants the two display control lines; the display takes the serial
    /// bus at its chip-select; storage starts un-mounted; the modem stays
    /// unclaimed. The returned plan is what the caller executes against the
    /// display controller.
    pub fn new() -> (r: (BspEsp32S3CoreBoard, DisplayInitPlan))
        ensures
            r.0.wf(),
            r.0.arbiter.i2c_taken(),
            r.0.arbiter.spi_taken(DISPLAY_CS_PIN),
            forall|cs: u8| cs != DISPLAY_CS_PIN ==> !r.0.arbiter.spi_taken(cs),
            !r.0.arbiter.modem_taken(),
            r.0.expander.configured(),
            r.0.expander.direction() == EXPANDER_DIRECTION_MASK,
            r.0.expander.line_granted(DISPLAY_DC_PIN),
            r.0.expander.line_granted(DISPLAY_RST_PIN),
            forall|pin: u8|
                pin < 16 && pin != DISPLAY_DC_PIN && pin != DISPLAY_RST_PIN
                    ==> !r.0.expander.line_granted(pin),
            r.0.display.initialized(),
            r.0.display.dc_pin() == DISPLAY_DC_PIN,
            r.0.display.rst_pin() == DISPLAY_RST_PIN,
            r.0.storage.wf() && !r.0.storage.mounted() && !r.0.storage.failed()
                && !r.0.storage.nvs_ready() && !r.0.storage.erase_used(),
            r.0.connectivity is None,
            !r.0.fs_init_flag(),
            r.0.wifi_ssid_chars() == "esp32_2.4G"@,
            r.0.wifi_password_chars() == "12345678.."@,
            r.1.spi_hz == crate::display::DISPLAY_SPI_HZ,
            r.1.panel_width == crate::display::PANEL_WIDTH,
            r.1.panel_height == crate::display::PANEL_HEIGHT,
            r.1.invert_colors && r.1.clear_to_white,
    {
        let mut arbiter = BusArbiter::new();
        let i2c = match arbiter.acquire_i2c_handle() {
            Result::Ok(h) => h,
            Result::Err(_) => unreached(),
        };
        let mut expander = GpioExpanderPinSource::new(i2c);
        let configure_result = expander.configure(EXPANDER_DIRECTION_MASK);
        proof {
            assert(configure_result is Ok);
            assert(line_high(EXPANDER_DIRECTION_MASK, DISPLAY_DC_PIN)) by (bit_vector);
            assert(line_high(EXPANDER_DIRECTION_MASK, DISPLAY_RST_PIN)) by (bit_vector);
        }
        let dc = match expander.output_pin(DISPLAY_DC_PIN) {
            Result::Ok(h) => h,
            Result::Err(_) => unreached(),
        };
        let rst = match expander.output_pin(DISPLAY_RST_PIN) {
            Result::Ok(h) => h,
            Result::Err(_) => unreached(),
        };
        let spi = match arbiter.acquire_spi_handle(DISPLAY_CS_PIN) {
            Result::Ok(h) => h,
            Result::Err(_) => unreached(),
        };
        let mut display = crate::display::new(spi, dc, rst);
        let plan = match display.init() {
            Result::Ok(p) => p,
            Result::Err(_) => unreached(),
        };
        let board = BspEsp32S3CoreBoard {
            arbiter,
            expander,
            display,
            storage: StorageMount::new(),
            connectivity: None,
            wifi_ssid: String::from_str(default_wifi_ssid()),
            wifi_password: String::from_str(default_wifi_password()),
            fs_init: false,
        };
        (board, plan)
    }

    /// Claim the modem for the wireless-link stack. Refused with
    /// [`Error::ConfigRejected`] when the modem is already spoken for or the
    /// stack is already up: ownership is established once and never moves.
    pub fn start_wireless(&mut self) -> (r: Result<(), Error>)
        requires
            old(self).wf(),
        ensures
            final(self).wf(),
            r is Ok <==> (!old(self).arbiter.modem_taken() && old(self).connectivity is None),
            r is Ok ==> final(self).arbiter.modem_taken() && (final(self).connectivity matches Some(
                m,
            ) && m.state() is Idle && !m.has_config()),
            r matches Err(e) ==> e == Error::ConfigRejected && *final(self) == *old(self),
            final(self).wifi_ssid_chars() == old(self).wifi_ssid_chars(),
            final(self).wifi_password_chars() == old(self).wifi_password_chars(),
    {
        if self.connectivity.is_some() {
            return Err(Error::ConfigRejected);
        }
        match self.arbiter.take_modem() {
            Option::None => Err(Error::ConfigRejected),
            Option::Some(m) => {
                let ownership = RadioModemOwnership::claim_wireless(m);
                match ConnectivityManager::start(ownership) {
                    Result::Ok(manager) => {
                        self.connectivity = Some(manager);
                        Ok(())
                    },
                    Result::Err(_) => unreached(),
                }
            },
        }
    }

    /// Claim the modem for the short-range stack and bring the GATT server
    /// up: service registered, advertisement set, advertising started.
    /// Refused with [`Error::ConfigRejected`] when the modem is already
    /// spoken for (for instance by the wireless-link stack).
    pub fn ble_server_start(&mut self) -> (r: Result<RadioServer, Error>)
        requires
            old(self).wf(),
        ensures
            final(self).wf(),
            r is Ok <==> !old(self).arbiter.modem_taken(),
            r matches Ok(srv) ==> srv.wf() && srv.setup_done() && srv.service_registered()
                && srv.advertising() && srv.connected_count() == 0 && srv.max_connections()
                == MAX_CONNECTIONS && final(self).arbiter.modem_taken(),
            r matches Err(e) ==> e == Error::ConfigRejected && *final(self) == *old(self),
            final(self).connectivity == old(self).connectivity,
    {
        match self.arbiter.take_modem() {
            Option::None => Err(Error::ConfigRejected),
            Option::Some(m) => {
                let ownership = RadioModemOwnership::claim_short_range(m);
                match RadioServer::start(ownership, MAX_CONNECTIONS) {
                    Result::Ok(mut srv) => {
                        match srv.setup() {
                            Result::Ok(_) => Ok(srv),
                            Result::Err(_) => unreached(),
                        }
                    },
                    Result::Err(_) => unreached(),
                }
            },
        }
    }

    /// Connect with the compiled-in credentials: the wireless-link
    /// counterpart of the per-call [`ConnectivityManager::connect`].
    /// Refused with [`Error::ConfigRejected`] when the wireless stack is not
    /// up; otherwise exactly the manager's connect contract applies to the
    /// stored credentials.
    pub fn wifi_connect(&mut self) -> (r: Result<ConnectPlan, Error>)
        requires
            old(self).wf(),
        ensures
            final(self).wf(),
            old(self).connectivity is None ==> r == Result::<ConnectPlan, Error>::Err(
                Error::ConfigRejected,
            ) && *final(self) == *old(self),
            old(self).connectivity is Some ==> (r is Ok <==> (encode_utf8(
                old(self).wifi_ssid_chars(),
            ).len() <= 32 && encode_utf8(old(self).wifi_password_chars()).len() <= 64)),
            old(self).connectivity is Some && r is Err ==> r == Result::<ConnectPlan, Error>::Err(
                Error::ConfigRejected,
            ) && *final(self) == *old(self),
            r matches Ok(plan) ==> (old(self).connectivity matches Some(m0)
                ==> (final(self).connectivity matches Some(m1) && connect_accepted(
                m0,
                m1,
                encode_utf8(old(self).wifi_ssid_chars()),
                encode_utf8(old(self).wifi_password_chars()),
            ) && plan.disconnect_first == (m0.state() is Connected))),
            final(self).wifi_ssid_chars() == old(self).wifi_ssid_chars(),
            final(self).wifi_password_chars() == old(self).wifi_password_chars(),
    {
        match &mut self.connectivity {
            Option::None => Err(Error::ConfigRejected),
            Option::Some(manager) => manager.connect(
                self.wifi_ssid.as_str(),
                self.wifi_password.as_str(),
            ),
        }
    }

    /// The configured network name.
    pub fn wifi_ssid(&self) -> (r: &str)
        ensures
            r@ == self.wifi_ssid_chars(),
    {
        self.wifi_ssid.as_str()
    }

    /// The configured network passphrase.
    pub fn wifi_password(&self) -> (r: &str)
        ensures
            r@ == self.wifi_password_chars(),
    {
        self.wifi_password.as_str()
    }

    /// Whether the file system came up at startup.
    pub fn get_fs_init(&self) -> (r: bool)
        ensures
            r == self.fs_init_flag(),
    {
        self.fs_init
    }

    /// Record whether the file system came up.
    pub fn set_fs_init(&mut self, fs_init: bool)
        ensures
            final(self).fs_init_flag() == fs_init,
            final(self).wf() == old(self).wf(),
            final(self).arbiter == old(self).arbiter,
            final(self).expander == old(self).expander,
            final(self).display == old(self).display,
            final(self).storage == old(self).storage,
            final(self).connectivity == old(self).connectivity,
            final(self).wifi_ssid_chars() == old(self).wifi_ssid_chars(),
            final(self).wifi_password_chars() == old(self).wifi_password_chars(),
    {
        self.fs_init = fs_init;
    }
}

} // verus!
