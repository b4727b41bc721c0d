//! The real-time clock that some controllers carry.
//!
//! The clock never reads the time by itself. Whoever drives the cartridge tells it
//! the wall-clock time, in whole seconds, and the live registers move on by the
//! seconds that have passed since they were last brought up to date.
use vstd::prelude::*;

verus! {

/// Seconds in a day.
pub const SECONDS_PER_DAY: u64 = 86400;

/// The value that selects the seconds register.
pub const RTC_SECONDS: u8 = 0x08;

/// The value that selects the minutes register.
pub const RTC_MINUTES: u8 = 0x09;

/// The value that selects the hours register.
pub const RTC_HOURS: u8 = 0x0A;

/// The value that selects the low eight bits of the day counter.
pub const RTC_DAY_LOW: u8 = 0x0B;

/// The value that selects the register with the day counter's ninth bit, the halt
/// flag and the day-carry flag.
pub const RTC_DAY_HIGH: u8 = 0x0C;

/// Bytes that a stored clock takes: the register snapshot and the timestamp.
pub const RTC_SAVE_SIZE: usize = 16;

/// Whether `select` names one of the five clock registers.
pub open spec fn is_rtc_select(select: u8) -> bool {
    RTC_SECONDS <= select <= RTC_DAY_HIGH
}

/// What the bit masks of the clock registers amount to in arithmetic.
pub proof fn lemma_register_masks(value: u8)
    ensures
        value & 0x3F < 64,
        value & 0x1F < 32,
        (value & 0xC1) & 0x3E == 0,
        value & 0x3E == 0 ==> value & 0xC1 == value,
        value < 64 ==> value & 0x3F == value,
        value < 32 ==> value & 0x1F == value,
        value & 0x01 <= 1,
        value < 2 ==> value & 0x3E == 0 && value & 0x40 == 0 && value & 0x80 == 0 && value & 0x01
            == value,
        value < 2 ==> (value + 128) as u8 & 0x3E == 0 && (value + 128) as u8 & 0x40 == 0 && (value
            + 128) as u8 & 0x80 != 0 && (value + 128) as u8 & 0x01 == value,
{
    assert(value & 0x3F < 64 && value & 0x1F < 32 && (value & 0xC1) & 0x3E == 0 && (value & 0x3E
        == 0 ==> value & 0xC1 == value) && (value < 64 ==> value & 0x3F == value) && (value < 32
        ==> value & 0x1F == value) && value & 0x01 <= 1) by (bit_vector);
    assert(value < 2 ==> value & 0x3E == 0 && value & 0x40 == 0 && value & 0x80 == 0 && value
        & 0x01 == value && (value + 128) as u8 & 0x3E == 0 && (value + 128) as u8 & 0x40 == 0
        && (value + 128) as u8 & 0x80 != 0 && (value + 128) as u8 & 0x01 == value)
        by (bit_vector);
}

/// One set of the five clock registers.
#[derive(Clone, Copy, Debug, PartialEq, Eq, Structural)]
pub struct RtcRegisters {
    /// Seconds, six bits wide.
    pub seconds: u8,
    /// Minutes, six bits wide.
    pub minutes: u8,
    /// Hours, five bits wide.
    pub hours: u8,
    /// The low eight bits of the day counter.
    pub day_low: u8,
    /// Bit 0 is the day counter's ninth bit, bit 6 halts the clock, bit 7 records
    /// that the day counter has overflowed.
    pub day_high: u8,
}

impl RtcRegisters {
    /// Each register holds no bit that the hardware does not have.
    pub open spec fn wf(self) -> bool {
        &&& self.seconds < 64
        &&& self.minutes < 64
        &&& self.hours < 32
        &&& self.day_high & 0x3E == 0
    }

    /// Whether the clock is stopped.
    pub open spec fn halted(self) -> bool {
        self.day_high & 0x40 != 0
    }

    /// Whether the day counter has overflowed since the flag was last cleared.
    pub open spec fn carry(self) -> bool {
        self.day_high & 0x80 != 0
    }

    /// The nine-bit day counter.
    pub open spec fn day(self) -> int {
        self.day_low + 256 * (self.day_high & 0x01)
    }

    /// The time that the registers show, in seconds.
    pub open spec fn total_seconds(self) -> int {
        self.seconds + 60 * self.minutes + 3600 * self.hours + 86400 * self.day()
    }

    /// The registers of a running clock that shows `total` seconds, with the carry
    /// flag set where `carry` holds or the days no longer fit in nine bits.
    pub open spec fn from_total(total: int, carry: bool) -> RtcRegisters {
        let days = total / 86400;
        RtcRegisters {
            seconds: (total % 60) as u8,
            minutes: ((total / 60) % 60) as u8,
            hours: ((total / 3600) % 24) as u8,
            day_low: (days % 256) as u8,
            day_high: ((days / 256) % 2 + if carry || days >= 512 {
                128int
            } else {
                0int
            }) as u8,
        }
    }

    /// The registers after `elapsed` more seconds: unchanged while the clock is
    /// halted, and otherwise the time shown plus `elapsed`.
    pub open spec fn advance_spec(self, elapsed: nat) -> RtcRegisters {
        if self.halted() {
            self
        } else {
            Self::from_total(self.total_seconds() + elapsed, self.carry())
        }
    }

    /// The register that `select` names; `0xFF` where it names none.
    pub open spec fn register_spec(self, select: u8) -> u8 {
        if select == RTC_SECONDS {
            self.seconds
        } else if select == RTC_MINUTES {
            self.minutes
        } else if select == RTC_HOURS {
            self.hours
        } else if select == RTC_DAY_LOW {
            self.day_low
        } else if select == RTC_DAY_HIGH {
            self.day_high
        } else {
            0xFF
        }
    }

    /// The registers after `value` is written to the one that `select` names, cut
    /// to the bits that the register has; unchanged where `select` names none.
    pub open spec fn with_register_spec(self, select: u8, value: u8) -> RtcRegisters {
        if select == RTC_SECONDS {
            RtcRegisters { seconds: value & 0x3F, ..self }
        } else if select == RTC_MINUTES {
            RtcRegisters { minutes: value & 0x3F, ..self }
        } else if select == RTC_HOURS {
            RtcRegisters { hours: value & 0x1F, ..self }
        } else if select == RTC_DAY_LOW {
            RtcRegisters { day_low: value, ..self }
        } else if select == RTC_DAY_HIGH {
            RtcRegisters { day_high: value & 0xC1, ..self }
        } else {
            self
        }
    }

    /// The eight bytes that a register set is stored as: the five registers, then
    /// three zero bytes.
    pub open spec fn to_bytes_spec(self) -> Seq<u8> {
        seq![self.seconds, self.minutes, self.hours, self.day_low, self.day_high, 0u8, 0u8, 0u8]
    }

    /// The register set read back from its stored form, each register cut to the
    /// bits that it has.
    pub open spec fn from_bytes_spec(bytes: Seq<u8>) -> RtcRegisters {
        RtcRegisters {
            seconds: bytes[0] & 0x3F,
            minutes: bytes[1] & 0x3F,
            hours: bytes[2] & 0x1F,
            day_low: bytes[3],
            day_high: bytes[4] & 0xC1,
        }
    }

    /// All registers zero: day 0, midnight, running, no carry.
    pub fn new() -> (registers: RtcRegisters)
        ensures
            registers == (RtcRegisters { seconds: 0, minutes: 0, hours: 0, day_low: 0, day_high: 0 }),
            registers.wf(),
    {
        assert(0u8 & 0x3E == 0) by (bit_vector);
        RtcRegisters { seconds: 0, minutes: 0, hours: 0, day_low: 0, day_high: 0 }
    }

    /// The registers after `elapsed` more seconds.
    pub fn advance(&self, elapsed: u64) -> (registers: RtcRegisters)
        ensures
            registers == self.advance_spec(elapsed as nat),
            self.wf() || !self.halted() ==> registers.wf(),
    {
        if self.day_high & 0x40 != 0 {
            return *self;
        }
        let day: u64 = (self.day_low as u64) + 256 * ((self.day_high & 0x01) as u64);
        let seconds: u64 = self.seconds as u64;
        let minutes: u64 = self.minutes as u64;
        let hours: u64 = self.hours as u64;
        let in_day: u64 = seconds + 60 * minutes + 3600 * hours;
        let shown: u64 = in_day + SECONDS_PER_DAY * day;
        let total: u128 = (shown as u128) + (elapsed as u128);
        let days: u128 = total / 86400;
        let carry: bool = self.day_high & 0x80 != 0 || days >= 512;
        let day_top: u8 = ((days / 256) % 2) as u8;
        let day_high: u8 = if carry {
            day_top + 128
        } else {
            day_top
        };
        proof {
            lemma_register_masks(day_top);
        }
        RtcRegisters {
            seconds: (total % 60) as u8,
            minutes: ((total / 60) % 60) as u8,
            hours: ((total / 3600) % 24) as u8,
            day_low: (days % 256) as u8,
            day_high,
        }
    }

    /// The register that `select` names; `0xFF` where it names none.
    pub fn register(&self, select: u8) -> (value: u8)
        ensures
            value == self.register_spec(select),
    {
        if select == RTC_SECONDS {
            self.seconds
        } else if select == RTC_MINUTES {
            self.minutes
        } else if select == RTC_HOURS {
            self.hours
        } else if select == RTC_DAY_LOW {
            self.day_low
        } else if select == RTC_DAY_HIGH {
            self.day_high
        } else {
            0xFF
        }
    }

    /// Writes `value` to the register that `select` names.
    pub fn set_register(&mut self, select: u8, value: u8)
        ensures
            *final(self) == old(self).with_register_spec(select, value),
            old(self).wf() ==> final(self).wf(),
    {
        proof {
            lemma_register_masks(value);
        }
        if select == RTC_SECONDS {
            self.seconds = value & 0x3F;
        } else if select == RTC_MINUTES {
            self.minutes = value & 0x3F;
        } else if select == RTC_HOURS {
            self.hours = value & 0x1F;
        } else if select == RTC_DAY_LOW {
            self.day_low = value;
        } else if select == RTC_DAY_HIGH {
            self.day_high = value & 0xC1;
        }
    }
}

/// The clock of a cartridge: the live registers, the latched copy that the bus
/// reads, the state of the latch protocol, and the wall-clock time up to which
/// the live registers have been brought.
#[derive(Clone, Copy, Debug, PartialEq, Eq, Structural)]
pub struct Rtc {
    /// The running clock.
    pub live: RtcRegisters,
    /// The snapshot taken by the last completed latch sequence.
    pub latched: RtcRegisters,
    /// Whether `0x00` was the last value written to the latch register.
    pub latch_armed: bool,
    /// The wall-clock time, in seconds, at which `live` was last brought up to
    /// date.
    pub timestamp: u64,
}

impl Rtc {
    /// Both register sets are well formed.
    pub open spec fn wf(self) -> bool {
        self.live.wf() && self.latched.wf()
    }

    /// The seconds by which a clock last brought up to date at `timestamp` is
    /// behind `now`; none where `now` is not later.
    pub open spec fn elapsed_spec(timestamp: u64, now: u64) -> nat {
        if now >= timestamp {
            (now - timestamp) as nat
        } else {
            0
        }
    }

    /// The clock brought up to date at wall-clock time `now`: the live registers
    /// move on by the seconds that have passed, the latched ones stay.
    pub open spec fn sync_spec(self, now: u64) -> Rtc {
        Rtc {
            live: self.live.advance_spec(Self::elapsed_spec(self.timestamp, now)),
            timestamp: now,
            ..self
        }
    }

    /// The clock told to count from wall-clock time `now`: the registers stay, and
    /// the seconds before `now` will never be counted.
    pub open spec fn start_spec(self, now: u64) -> Rtc {
        Rtc { timestamp: now, ..self }
    }

    /// The clock after `value` is written to the latch register: `0x00` arms the
    /// latch, `0x01` on an armed latch copies the live registers into the latched
    /// ones, and every value but `0x00` disarms it.
    pub open spec fn latch_write_spec(self, value: u8) -> Rtc {
        if value == 0x00 {
            Rtc { latch_armed: true, ..self }
        } else if value == 0x01 && self.latch_armed {
            Rtc { latched: self.live, latch_armed: false, ..self }
        } else {
            Rtc { latch_armed: false, ..self }
        }
    }

    /// A clock at day 0, midnight, running, nothing latched, last brought up to
    /// date at wall-clock time 0.
    pub fn new() -> (rtc: Rtc)
        ensures
            rtc == (Rtc {
                live: RtcRegisters { seconds: 0, minutes: 0, hours: 0, day_low: 0, day_high: 0 },
                latched: RtcRegisters { seconds: 0, minutes: 0, hours: 0, day_low: 0, day_high: 0 },
                latch_armed: false,
                timestamp: 0,
            }),
            rtc.wf(),
    {
        Rtc { live: RtcRegisters::new(), latched: RtcRegisters::new(), latch_armed: false, timestamp: 0 }
    }

    /// Tells the clock to count from wall-clock time `now`, without moving the
    /// registers.
    pub fn start(&mut self, now: u64)
        ensures
            *final(self) == old(self).start_spec(now),
    {
        self.timestamp = now;
    }

    /// Brings the live registers up to date at wall-clock time `now`.
    pub fn sync(&mut self, now: u64)
        ensures
            *final(self) == old(self).sync_spec(now),
            old(self).wf() ==> final(self).wf(),
    {
        let elapsed: u64 = if now >= self.timestamp {
            now - self.timestamp
        } else {
            0
        };
        self.live = self.live.advance(elapsed);
        self.timestamp = now;
    }

    /// Handles a write of `value` to the latch register.
    pub fn latch_write(&mut self, value: u8)
        ensures
            *final(self) == old(self).latch_write_spec(value),
            old(self).wf() ==> final(self).wf(),
    {
        if value == 0x00 {
            self.latch_armed = true;
        } else if value == 0x01 && self.latch_armed {
            self.latched = self.live;
            self.latch_armed = false;
        } else {
            self.latch_armed = false;
        }
    }
}

} // verus!
