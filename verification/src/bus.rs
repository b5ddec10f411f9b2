//! Arbitration of the two physically shared buses and of the radio modem.
//!
//! The arbiter owns the serial-peripheral bus, the two-wire bus and the radio
//! modem, and issues at most one live handle per mutually exclusive resource:
//! the two-wire bus has a single owner, the serial bus may be shared across
//! *different* chip-select lines, and the modem is handed out once for the
//! process lifetime.
use vstd::prelude::*;

use crate::Error;

verus! {

broadcast use vstd::seq_lib::lemma_seq_contains_after_push;

/// A handle to one of the shared physical buses.
///
/// For the serial bus the handle also identifies the chip-select line; the
/// two-wire bus is fully exclusive, so its handle carries nothing further.
#[derive(Debug, PartialEq, Eq, Structural)]
pub enum BusHandle {
    Spi { chip_select: u8 },
    I2c,
}

/// The radio modem: an affine resource. Exactly one value exists per board,
/// issued once by [`BusArbiter::take_modem`]; it cannot be cloned, so the two
/// candidate radio stacks can never hold it at the same time.
pub struct Modem {
    _token: (),
}

impl Modem {
    pub(crate) fn issue() -> Modem {
        Modem { _token: () }
    }
}

/// Who owns the radio modem. The modem backs exactly one of the two radio
/// stacks; claiming a stack consumes the [`Modem`], so no code path can hold
/// both variants at once, and moving from one stack to the other takes a full
/// [`RadioModemOwnership::teardown`] first.
pub enum RadioModemOwnership {
    Unowned,
    WirelessLink(Modem),
    ShortRangeRadio(Modem),
}

impl RadioModemOwnership {
    /// Dedicate the modem to the long-range wireless-link stack.
    pub fn claim_wireless(modem: Modem) -> (r: RadioModemOwnership)
        ensures
            r is WirelessLink,
    {
        RadioModemOwnership::WirelessLink(modem)
    }

    /// Dedicate the modem to the short-range radio stack.
    pub fn claim_short_range(modem: Modem) -> (r: RadioModemOwnership)
        ensures
            r is ShortRangeRadio,
    {
        RadioModemOwnership::ShortRangeRadio(modem)
    }

    /// Tear the current stack down, recovering the raw modem.
    pub fn teardown(self) -> (r: Option<Modem>)
        ensures
            r is Some <==> !(self is Unowned),
    {
        match self {
            RadioModemOwnership::Unowned => None,
            RadioModemOwnership::WirelessLink(m) => Some(m),
            RadioModemOwnership::ShortRangeRadio(m) => Some(m),
        }
    }
}

/// Bookkeeping for the shared buses. The physical bus drivers themselves are
/// started lazily by whoever receives the first handle; the arbiter only
/// tracks which handles are live, and never re-initializes a bus.
pub struct BusArbiter {
    spi_live: Vec<u8>,
    i2c_live: bool,
    spi_powered: bool,
    i2c_powered: bool,
    modem_out: bool,
}

impl BusArbiter {
    /// A live serial-bus handle exists for this chip-select line.
    pub closed spec fn spi_taken(&self, chip_select: u8) -> bool {
        self.spi_live@.contains(chip_select)
    }

    /// The single two-wire-bus handle is live.
    pub closed spec fn i2c_taken(&self) -> bool {
        self.i2c_live
    }

    /// The modem has already been handed out.
    pub closed spec fn modem_taken(&self) -> bool {
        self.modem_out
    }

    /// The serial bus driver has been started (on the first acquisition).
    pub closed spec fn spi_powered(&self) -> bool {
        self.spi_powered
    }

    /// The two-wire bus driver has been started (on the first acquisition).
    pub closed spec fn i2c_powered(&self) -> bool {
        self.i2c_powered
    }

    /// Internal bookkeeping is consistent: no chip-select line is recorded
    /// twice.
    pub closed spec fn wf(&self) -> bool {
        forall|i: int, j: int|
            0 <= i < j < self.spi_live@.len() ==> self.spi_live@[i] != self.spi_live@[j]
    }

    /// A fresh arbiter: no live handles, no bus powered, modem still held.
    pub fn new() -> (r: BusArbiter)
        ensures
            r.wf(),
            forall|cs: u8| !r.spi_taken(cs),
            !r.i2c_taken(),
            !r.modem_taken(),
            !r.spi_powered(),
            !r.i2c_powered(),
    {
        BusArbiter {
            spi_live: Vec::new(),
            i2c_live: false,
            spi_powered: false,
            i2c_powered: false,
            modem_out: false,
        }
    }

    /// Acquire a serial-bus handle for one chip-select line.
    ///
    /// Fails with [`Error::BusBusy`] exactly when a live handle for the same
    /// chip-select already exists; handles for other chip-selects may coexist.
    /// On the first success the serial bus driver is started, and it is never
    /// re-initialized afterwards.
    pub fn acquire_spi_handle(&mut self, chip_select: u8) -> (r: Result<BusHandle, Error>)
        requires
            old(self).wf(),
        ensures
            final(self).wf(),
            r is Ok <==> !old(self).spi_taken(chip_select),
            r matches Ok(h) ==> h == (BusHandle::Spi { chip_select }),
            r matches Err(e) ==> e == Error::BusBusy,
            r is Ok ==> final(self).spi_taken(chip_select) && final(self).spi_powered(),
            r is Err ==> *final(self) == *old(self),
            forall|cs: u8|
                cs != chip_select ==> final(self).spi_taken(cs) == old(self).spi_taken(cs),
            final(self).i2c_taken() == old(self).i2c_taken(),
            final(self).modem_taken() == old(self).modem_taken(),
            final(self).i2c_powered() == old(self).i2c_powered(),
    {
        if self.spi_cs_is_live(chip_select) {
            Err(Error::BusBusy)
        } else {
            self.spi_live.push(chip_select);
            self.spi_powered = true;
            assert(self.spi_live@.last() == chip_select);
            assert forall|cs: u8| cs != chip_select implies self.spi_taken(cs) == old(
                self,
            ).spi_taken(cs) by {
                if old(self).spi_live@.contains(cs) {
                    let i = choose|i: int|
                        0 <= i < old(self).spi_live@.len() && old(self).spi_live@[i] == cs;
                    assert(self.spi_live@[i] == cs);
                }
                if self.spi_live@.contains(cs) {
                    let i = choose|i: int|
                        0 <= i < self.spi_live@.len() && self.spi_live@[i] == cs;
                    assert(i < old(self).spi_live@.len());
                    assert(old(self).spi_live@[i] == cs);
                }
            }
            Ok(BusHandle::Spi { chip_select })
        }
    }

    /// Acquire the single two-wire-bus handle.
    ///
    /// Fails with [`Error::BusBusy`] exactly when the handle is already live.
    /// The resulting state is `i2c_acquire_post` of the old one, whichever way
    /// the call went.
    pub fn acquire_i2c_handle(&mut self) -> (r: Result<BusHandle, Error>)
        ensures
            *final(self) == i2c_acquire_post(*old(self)),
            r is Ok <==> i2c_acquire_granted(*old(self)),
            r matches Ok(h) ==> h == BusHandle::I2c,
            r matches Err(e) ==> e == Error::BusBusy,
            old(self).wf() ==> final(self).wf(),
            final(self).i2c_taken(),
            r is Ok ==> final(self).i2c_powered(),
            r is Err ==> *final(self) == *old(self),
            forall|cs: u8| final(self).spi_taken(cs) == old(self).spi_taken(cs),
            final(self).modem_taken() == old(self).modem_taken(),
            final(self).spi_powered() == old(self).spi_powered(),
    {
        if self.i2c_live {
            Err(Error::BusBusy)
        } else {
            self.i2c_live = true;
            self.i2c_powered = true;
            Ok(BusHandle::I2c)
        }
    }

    /// Hand out the radio modem; succeeds at most once for the process
    /// lifetime.
    pub fn take_modem(&mut self) -> (r: Option<Modem>)
        ensures
            r is Some <==> !old(self).modem_taken(),
            r is None ==> *final(self) == *old(self),
            final(self).modem_taken(),
            old(self).wf() ==> final(self).wf(),
            forall|cs: u8| final(self).spi_taken(cs) == old(self).spi_taken(cs),
            final(self).i2c_taken() == old(self).i2c_taken(),
            final(self).spi_powered() == old(self).spi_powered(),
            final(self).i2c_powered() == old(self).i2c_powered(),
    {
        if self.modem_out {
            None
        } else {
            self.modem_out = true;
            Some(Modem::issue())
        }
    }

    /// Give a handle back, consuming it. After the call the corresponding
    /// resource can be acquired again; nothing else changes.
    pub fn release(&mut self, handle: BusHandle)
        requires
            old(self).wf(),
        ensures
            final(self).wf(),
            handle matches BusHandle::Spi { chip_select } ==> !final(self).spi_taken(chip_select)
                && final(self).i2c_taken() == old(self).i2c_taken() && (forall|cs: u8|
                cs != chip_select ==> final(self).spi_taken(cs) == old(self).spi_taken(cs)),
            handle is I2c ==> *final(self) == i2c_release_post(*old(self))
                && !final(self).i2c_taken() && (forall|cs: u8|
                final(self).spi_taken(cs) == old(self).spi_taken(cs)),
            final(self).modem_taken() == old(self).modem_taken(),
            final(self).spi_powered() == old(self).spi_powered(),
            final(self).i2c_powered() == old(self).i2c_powered(),
    {
        match handle {
            BusHandle::I2c => {
                self.i2c_live = false;
            },
            BusHandle::Spi { chip_select } => {
                let ghost before = self.spi_live@;
                let mut kept: Vec<u8> = Vec::new();
                let mut i: usize = 0;
                while i < self.spi_live.len()
                    invariant
                        i <= before.len(),
                        self.spi_live@ == before,
                        forall|j: int| 0 <= j < kept@.len() ==> kept@[j] != chip_select,
                        forall|cs: u8|
                            cs != chip_select ==> (kept@.contains(cs) <==> before.subrange(
                                0,
                                i as int,
                            ).contains(cs)),
                        forall|j: int, k: int|
                            0 <= j < k < kept@.len() ==> kept@[j] != kept@[k],
                        forall|j: int|
                            0 <= j < kept@.len() ==> before.subrange(0, i as int).contains(
                                kept@[j],
                            ),
                        forall|j: int, k: int|
                            0 <= j < k < before.len() ==> before[j] != before[k],
                    decreases before.len() - i,
                {
                    let c = self.spi_live[i];
                    let ghost prefix = before.subrange(0, i as int);
                    assert(before.subrange(0, i as int + 1) =~= prefix.push(c));
                    if c != chip_select {
                        assert forall|j: int| 0 <= j < kept@.len() implies kept@[j] != c by {
                            let k = choose|k: int| 0 <= k < prefix.len() && prefix[k] == kept@[j];
                            assert(before[k] == kept@[j]);
                            assert(before[i as int] == c);
                        }
                        kept.push(c);
                    }
                    i += 1;
                }
                assert(before.subrange(0, before.len() as int) =~= before);
                self.spi_live = kept;
            },
        }
    }

    fn spi_cs_is_live(&self, chip_select: u8) -> (r: bool)
        ensures
            r == self.spi_taken(chip_select),
    {
        let mut i: usize = 0;
        while i < self.spi_live.len()
            invariant
                i <= self.spi_live@.len(),
                forall|j: int| 0 <= j < i ==> self.spi_live@[j] != chip_select,
            decreases self.spi_live@.len() - i,
        {
            if self.spi_live[i] == chip_select {
                assert(self.spi_live@.contains(chip_select));
                return true;
            }
            i += 1;
        }
        false
    }
}

/// The attempt is granted exactly when the two-wire bus is free.
pub open spec fn i2c_acquire_granted(a: BusArbiter) -> bool {
    !a.i2c_taken()
}

/// The arbiter state after one `acquire_i2c_handle` call, granted or refused:
/// the two-wire bus is held afterwards either way.
pub closed spec fn i2c_acquire_post(a: BusArbiter) -> BusArbiter {
    BusArbiter { i2c_live: true, i2c_powered: a.i2c_powered || !a.i2c_live, ..a }
}

/// The arbiter state after releasing the two-wire-bus handle.
pub closed spec fn i2c_release_post(a: BusArbiter) -> BusArbiter {
    BusArbiter { i2c_live: false, ..a }
}

/// The arbiter state after `n` successive `acquire_i2c_handle` calls.
pub open spec fn i2c_acquire_iter(a: BusArbiter, n: nat) -> BusArbiter
    decreases n,
{
    if n == 0 {
        a
    } else {
        i2c_acquire_post(i2c_acquire_iter(a, (n - 1) as nat))
    }
}

/// Law: for every sequence of `acquire_i2c_handle` calls, at most one is
/// granted before the first release. After any positive number of attempts the
/// two-wire bus is held, so every further attempt is refused with `BusBusy`;
/// releasing the handle makes the next attempt grantable again.
pub proof fn lemma_i2c_at_most_one_grant(a: BusArbiter, n: nat)
    requires
        n >= 1,
    ensures
        i2c_acquire_iter(a, n).i2c_taken(),
        !i2c_acquire_granted(i2c_acquire_iter(a, n)),
        i2c_acquire_granted(i2c_release_post(i2c_acquire_iter(a, n))),
    decreases n,
{
    if n > 1 {
        lemma_i2c_at_most_one_grant(a, (n - 1) as nat);
    }
}

} // verus!
