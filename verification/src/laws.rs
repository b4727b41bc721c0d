//! What holds of every cartridge, stated over the views and proved.
use vstd::prelude::*;
use vstd::arithmetic::div_mod::{
    lemma_hoist_over_denominator, lemma_mod_multiples_vanish, lemma_small_mod,
};
use vstd::bytes::{lemma_auto_spec_u64_to_from_le_bytes, spec_u64_to_le_bytes};
use crate::cartridge::CartridgeView;
use crate::error::{CartridgeError, RomLoadError};
use crate::header::parse_spec;
use crate::kind::{mapper_kind_spec, MapperKind};
use crate::model::{
    in_ram_window, in_rom_window, lemma_bank_masks, BankingMode, MapperView, Variant, OPEN_BUS,
    RAM_ENABLE,
};
use crate::rom::HEADER_END;
use crate::rtc::{is_rtc_select, lemma_register_masks, RtcRegisters};
use crate::sizes::{declared_rom_length, lemma_declared_sizes, MAX_ROM_SIZE_CODE};

verus! {

/// A controller that is built satisfies the controller's invariant.
pub proof fn law_built_mapper_is_well_formed(kind: MapperKind, rom_size_code: u8, ram_size_code: u8)
    ensures
        MapperView::build_spec(kind, rom_size_code, ram_size_code) matches Ok(mapper)
            ==> mapper.wf(),
{
    lemma_declared_sizes(rom_size_code);
    lemma_declared_sizes(ram_size_code);
    assert(0u8 & 0x3E == 0) by (bit_vector);
}

/// A cartridge that is loaded satisfies the cartridge's invariant, and holds the
/// image as it was given.
pub proof fn law_loaded_cartridge_is_well_formed(bytes: Seq<u8>)
    ensures
        CartridgeView::load_spec(bytes) matches Ok(cartridge) ==> cartridge.wf() && cartridge.rom
            == bytes,
{
    let header = parse_spec(bytes);
    lemma_declared_sizes(header.rom_size_code);
    law_built_mapper_is_well_formed(
        mapper_kind_spec(header.cartridge_type),
        header.rom_size_code,
        header.ram_size_code,
    );
}

/// The length that a ROM size code from 0 to 8 declares is 32 KiB shifted left by
/// the code, and no image of another length is loaded: with a whole header and a
/// type byte for which a controller can be built, such an image is a
/// `SizeMismatch`.
pub proof fn law_declared_length_is_enforced(bytes: Seq<u8>)
    ensures
        forall|code: u8|
            code <= MAX_ROM_SIZE_CODE ==> #[trigger] declared_rom_length(code) == Some(
                (0x8000u32 << code) as nat,
            ),
        CartridgeView::load_spec(bytes) matches Ok(cartridge) ==> declared_rom_length(
            parse_spec(bytes).rom_size_code,
        ) == Some(bytes.len()),
        ({
            let header = parse_spec(bytes);
            &&& bytes.len() >= HEADER_END
            &&& mapper_kind_spec(header.cartridge_type).buildable()
            &&& declared_rom_length(header.rom_size_code) matches Some(length)
            &&& bytes.len() != length
        }) ==> CartridgeView::load_spec(bytes) == Err::<CartridgeView, CartridgeError>(
            CartridgeError::RomLoad(RomLoadError::SizeMismatch),
        ),
{
}

/// A type byte that names no known controller builds nothing: loading an image
/// with a whole header and such a type byte fails with
/// `UnsupportedCartridgeType`, and so does building a controller for it. `0xFF`
/// is such a byte.
pub proof fn law_unsupported_type_builds_nothing(bytes: Seq<u8>, rom_size_code: u8, ram_size_code: u8)
    requires
        bytes.len() >= HEADER_END,
        mapper_kind_spec(parse_spec(bytes).cartridge_type) == MapperKind::Unsupported,
    ensures
        CartridgeView::load_spec(bytes) == Err::<CartridgeView, CartridgeError>(
            CartridgeError::UnsupportedCartridgeType,
        ),
        MapperView::build_spec(MapperKind::Unsupported, rom_size_code, ram_size_code) == Err::<
            MapperView,
            CartridgeError,
        >(CartridgeError::UnsupportedCartridgeType),
        mapper_kind_spec(0xFF) == MapperKind::Unsupported,
{
}

/// Every offset that the ROM windows show lies in the image.
pub proof fn law_rom_offset_in_image(cartridge: CartridgeView, address: u16)
    requires
        cartridge.wf(),
        in_rom_window(address),
    ensures
        0 <= cartridge.mapper.rom_offset(address) < cartridge.rom.len(),
{
}

/// A write keeps the cartridge's invariant, and never changes the image.
pub proof fn law_write_keeps_invariant(cartridge: CartridgeView, address: u16, value: u8)
    requires
        cartridge.wf(),
    ensures
        cartridge.write(address, value).wf(),
        cartridge.write(address, value).rom == cartridge.rom,
{
    lemma_bank_masks(value);
    lemma_register_masks(value);
}

/// Telling the time, handing in the tilt and restoring stored state keep the
/// cartridge's invariant, and none of them changes the image.
pub proof fn law_events_keep_invariant(
    cartridge: CartridgeView,
    now: u64,
    x: i16,
    y: i16,
    buffer: Seq<u8>,
)
    requires
        cartridge.wf(),
    ensures
        cartridge.sync_clock(now).wf() && cartridge.sync_clock(now).rom == cartridge.rom,
        cartridge.start_clock(now).wf() && cartridge.start_clock(now).rom == cartridge.rom,
        cartridge.set_tilt(x, y).wf() && cartridge.set_tilt(x, y).rom == cartridge.rom,
        cartridge.restore(buffer) matches Some(restored) ==> restored.wf() && restored.rom
            == cartridge.rom,
{
    match cartridge.mapper.variant {
        Variant::Mbc3 { rtc } => {
            lemma_advance_well_formed(rtc.live, crate::rtc::Rtc::elapsed_spec(rtc.timestamp, now));
            if buffer.len() == cartridge.mapper.save_len() {
                let n = cartridge.mapper.ram.len() as int;
                let stored = buffer.subrange(n, n + 8);
                lemma_register_masks(stored[0]);
                lemma_register_masks(stored[1]);
                lemma_register_masks(stored[2]);
                lemma_register_masks(stored[4]);
            }
        },
        _ => {},
    }
}

/// Well-formed clock registers stay well formed as time passes.
pub proof fn lemma_advance_well_formed(registers: RtcRegisters, elapsed: nat)
    requires
        registers.wf(),
    ensures
        registers.advance_spec(elapsed).wf(),
{
    if !registers.halted() {
        let total = registers.total_seconds() + elapsed;
        let top = ((total / 86400) / 256) % 2;
        lemma_register_masks(top as u8);
    }
}

/// The seconds, minutes and hours of a total make up its seconds within the day.
proof fn lemma_time_of_day(total: int)
    requires
        0 <= total,
    ensures
        total % 60 + 60 * ((total / 60) % 60) + 3600 * ((total / 3600) % 24) == total % 86400,
{
    assert((total / 60) / 60 == total / 3600);
    assert((total / 3600) / 24 == total / 86400);
}

/// The two parts of the day counter make up the days within 512.
proof fn lemma_day_counter(days: int)
    requires
        0 <= days,
    ensures
        days % 256 + 256 * ((days / 256) % 2) == days % 512,
{
    assert((days / 256) / 2 == days / 512);
}

/// The seconds within the day and the days within 512 make up the total within
/// 512 days, which are 44236800 seconds.
proof fn lemma_period(total: int)
    requires
        0 <= total,
    ensures
        total % 86400 + 86400 * ((total / 86400) % 512) == total % 44236800,
        (total / 86400) / 512 == total / 44236800,
{
}

/// The registers made from a total show that total within 512 days, on a running
/// clock, with the carry flag set where it was set before or the days did not
/// fit.
pub proof fn lemma_from_total_shows_total(total: int, carry: bool)
    requires
        0 <= total,
    ensures
        RtcRegisters::from_total(total, carry).total_seconds() == total % 44236800,
        RtcRegisters::from_total(total, carry).carry() == (carry || total / 86400 >= 512),
        !RtcRegisters::from_total(total, carry).halted(),
        RtcRegisters::from_total(total, carry).wf(),
{
    let days = total / 86400;
    lemma_register_masks(((days / 256) % 2) as u8);
    lemma_time_of_day(total);
    lemma_day_counter(days);
    lemma_period(total);
}

/// Adding whole periods of 512 days to a total changes no register.
proof fn lemma_periods_vanish(later: int, periods: int)
    requires
        0 <= later,
        0 <= periods,
    ensures
        ({
            let whole = later + 44236800 * periods;
            &&& whole % 60 == later % 60
            &&& (whole / 60) % 60 == (later / 60) % 60
            &&& (whole / 3600) % 24 == (later / 3600) % 24
            &&& whole / 86400 == later / 86400 + 512 * periods
            &&& (whole / 86400) % 256 == (later / 86400) % 256
            &&& ((whole / 86400) / 256) % 2 == ((later / 86400) / 256) % 2
        }),
{
    let days = later / 86400;
    lemma_hoist_over_denominator(later, 737280 * periods, 60);
    lemma_hoist_over_denominator(later, 12288 * periods, 3600);
    lemma_hoist_over_denominator(later, 512 * periods, 86400);
    lemma_hoist_over_denominator(days, 2 * periods, 256);
    lemma_mod_multiples_vanish(737280 * periods, later, 60);
    lemma_mod_multiples_vanish(12288 * periods, later / 60, 60);
    lemma_mod_multiples_vanish(512 * periods, later / 3600, 24);
    lemma_mod_multiples_vanish(2 * periods, days, 256);
    lemma_mod_multiples_vanish(periods, days / 256, 2);
}

/// The clock does not depend on how often it is brought up to date: moving on by
/// `first` seconds and then by `second` seconds shows what moving on by their sum
/// shows.
pub proof fn law_clock_advance_composes(registers: RtcRegisters, first: nat, second: nat)
    ensures
        registers.advance_spec(first).advance_spec(second) == registers.advance_spec(
            first + second,
        ),
{
    if !registers.halted() {
        let total = registers.total_seconds() + first;
        lemma_from_total_shows_total(total, registers.carry());
        lemma_period(total);
        lemma_periods_vanish(total % 44236800 + second, total / 44236800);
    }
}

/// Bringing the clock up to date at one time and then at a later one shows what
/// bringing it up to date at the later time alone shows: the clock runs with the
/// wall clock, however fast the console is driven.
pub proof fn law_clock_independent_of_sync_steps(cartridge: CartridgeView, middle: u64, now: u64)
    requires
        cartridge.mapper.rtc() matches Some(rtc) ==> rtc.timestamp <= middle <= now,
    ensures
        cartridge.sync_clock(middle).sync_clock(now) == cartridge.sync_clock(now),
{
    if cartridge.mapper.rtc() is Some {
        let rtc = cartridge.mapper.rtc()->0;
        law_clock_advance_composes(
            rtc.live,
            (middle - rtc.timestamp) as nat,
            (now - middle) as nat,
        );
    }
}

/// A running clock that is told to count from one time and is then brought up to
/// date at a later one has moved on by the seconds in between, and by no others.
pub proof fn law_started_clock_counts_from_start(cartridge: CartridgeView, start: u64, now: u64)
    requires
        cartridge.mapper.rtc() is Some,
        start <= now,
    ensures
        cartridge.start_clock(start).sync_clock(now).mapper.rtc()->0.live
            == cartridge.mapper.rtc()->0.live.advance_spec((now - start) as nat),
{
}

/// MBC1 zero-bank aliasing: a write to the ROM bank register whose low five bits
/// are zero, as those of `0x00` are, selects bank 1. The high ROM window then
/// shows the image from `0x4000` on, and not bank 0.
pub proof fn law_mbc1_zero_bank_alias(cartridge: CartridgeView, address: u16, value: u8)
    requires
        cartridge.wf(),
        cartridge.mapper.variant is Mbc1,
        0x2000 <= address < 0x4000,
        value & 0x1F == 0,
    ensures
        cartridge.write(address, value).mapper.rom_bank_number == 1,
        forall|high: u16|
            0x4000 <= high < 0x8000 ==> #[trigger] cartridge.write(address, value).read(high)
                == cartridge.rom[high as int],
        0x00u8 & 0x1F == 0,
{
    assert(0x00u8 & 0x1F == 0) by (bit_vector);
    let after = cartridge.write(address, value);
    assert forall|high: u16| 0x4000 <= high < 0x8000 implies #[trigger] after.read(high)
        == cartridge.rom[high as int] by {
        lemma_small_mod(1, after.mapper.rom_banks);
    }
}

/// MBC1 in simple mode: the low ROM window shows bank 0 whatever the secondary
/// register holds, and a write to the secondary register does not change that.
pub proof fn law_mbc1_simple_mode_low_window(cartridge: CartridgeView, address: u16, value: u8)
    requires
        cartridge.mapper.variant == (Variant::Mbc1 { mode: BankingMode::Simple }),
        0x4000 <= address < 0x6000,
    ensures
        forall|low: u16| low < 0x4000 ==> #[trigger] cartridge.read(low) == cartridge.rom[low as int],
        cartridge.write(address, value).mapper.ram_bank_number == value & 0x03,
        forall|low: u16|
            low < 0x4000 ==> #[trigger] cartridge.write(address, value).read(low)
                == cartridge.rom[low as int],
{
}

/// MBC1 in advanced mode: after a write of a non-zero value to the secondary
/// register the low ROM window shows the bank that is 32 times the value, modulo
/// the number of banks. Where that bank is not bank 0, which needs a ROM of more
/// than 32 banks, the window no longer shows the start of the image.
pub proof fn law_mbc1_advanced_mode_low_window(cartridge: CartridgeView, address: u16, value: u8)
    requires
        cartridge.wf(),
        cartridge.mapper.variant == (Variant::Mbc1 { mode: BankingMode::Advanced }),
        0x4000 <= address < 0x6000,
        value & 0x03 != 0,
        (32 * (value & 0x03)) % (cartridge.mapper.rom_banks as int) != 0,
    ensures
        ({
            let bank = (32 * (value & 0x03)) % (cartridge.mapper.rom_banks as int);
            &&& 0 < bank < cartridge.mapper.rom_banks
            &&& forall|low: u16|
                low < 0x4000 ==> #[trigger] cartridge.write(address, value).read(low)
                    == cartridge.rom[bank * 0x4000 + low]
        }),
        cartridge.mapper.rom_banks > 32,
{
    lemma_bank_masks(value);
    let banks = cartridge.mapper.rom_banks as int;
    if banks <= 32 {
        assert(32int % banks == 0 && 64int % banks == 0 && 96int % banks == 0);
    }
}

/// Telling the cartridge the time changes nothing that a read returns. The bus
/// reads the latched clock registers, so what it reads stays frozen while the
/// wall clock goes on.
pub proof fn law_reads_frozen_as_time_passes(cartridge: CartridgeView, now: u64, address: u16)
    ensures
        cartridge.sync_clock(now).read(address) == cartridge.read(address),
        cartridge.start_clock(now).read(address) == cartridge.read(address),
{
}

/// The latch sequence: `0x00` and then `0x01` written to the latch register copy
/// the live clock registers into the latched ones. A read of the selected clock
/// register then returns the value the live one had, however far the wall clock
/// goes on afterwards.
pub proof fn law_latch_freezes_clock(
    cartridge: CartridgeView,
    first: u16,
    second: u16,
    now: u64,
    address: u16,
)
    requires
        cartridge.mapper.variant is Mbc3,
        0x6000 <= first < 0x8000,
        0x6000 <= second < 0x8000,
        in_ram_window(address),
    ensures
        ({
            let latched = cartridge.write(first, 0x00).write(second, 0x01);
            let select = cartridge.mapper.ram_bank_number;
            &&& latched.mapper.rtc()->0.latched == cartridge.mapper.rtc()->0.live
            &&& cartridge.mapper.ram_enabled && is_rtc_select(select) ==> latched.sync_clock(
                now,
            ).read(address) == cartridge.mapper.rtc()->0.live.register_spec(select)
        }),
{
}

/// The latched clock registers change by nothing but a completed latch sequence:
/// a write other than `0x01` to the latch register of an armed latch keeps them,
/// and so do telling the time, handing in the tilt and restoring stored state.
pub proof fn law_latched_registers_change_by_latch_only(
    cartridge: CartridgeView,
    address: u16,
    value: u8,
    now: u64,
    x: i16,
    y: i16,
    buffer: Seq<u8>,
)
    requires
        cartridge.mapper.rtc() matches Some(rtc) && !(0x6000 <= address < 0x8000 && value == 0x01
            && rtc.latch_armed),
    ensures
        cartridge.write(address, value).mapper.rtc()->0.latched
            == cartridge.mapper.rtc()->0.latched,
        cartridge.sync_clock(now).mapper.rtc()->0.latched == cartridge.mapper.rtc()->0.latched,
        cartridge.start_clock(now).mapper.rtc()->0.latched == cartridge.mapper.rtc()->0.latched,
        cartridge.set_tilt(x, y).mapper.rtc()->0.latched == cartridge.mapper.rtc()->0.latched,
        cartridge.restore(buffer) matches Some(restored) ==> restored.mapper.rtc()->0.latched
            == cartridge.mapper.rtc()->0.latched,
{
}

/// The RAM changes by nothing but a write to a cell and a restore: telling the
/// time and handing in the tilt keep it, as a write to the control registers
/// does.
pub proof fn law_events_keep_ram(cartridge: CartridgeView, now: u64, x: i16, y: i16)
    ensures
        cartridge.sync_clock(now).mapper.ram == cartridge.mapper.ram,
        cartridge.start_clock(now).mapper.ram == cartridge.mapper.ram,
        cartridge.set_tilt(x, y).mapper.ram == cartridge.mapper.ram,
{
}

/// Storing and restoring gives the cartridge back as it was.
pub proof fn law_persist_restore_round_trip(cartridge: CartridgeView)
    requires
        cartridge.wf(),
    ensures
        cartridge.restore(cartridge.persist()) == Some(cartridge),
{
    let buffer = cartridge.persist();
    let n = cartridge.mapper.ram.len() as int;
    match cartridge.mapper.variant {
        Variant::Mbc3 { rtc } => {
            lemma_auto_spec_u64_to_from_le_bytes();
            let stamp = spec_u64_to_le_bytes(rtc.timestamp);
            assert(buffer.subrange(0, n) =~= cartridge.mapper.ram);
            assert(buffer.subrange(n + 8, n + 16) =~= stamp);
            lemma_register_masks(rtc.live.seconds);
            lemma_register_masks(rtc.live.minutes);
            lemma_register_masks(rtc.live.hours);
            lemma_register_masks(rtc.live.day_high);
        },
        _ => {},
    }
}

/// Clock drift across a gap: state stored by one cartridge and restored into
/// another of the same family and RAM size carries the RAM, the live clock
/// registers and their timestamp over. Told the time afterwards, the second
/// clock shows what the first would show: the stored registers moved on by the
/// seconds between the stored timestamp and now.
pub proof fn law_restored_clock_keeps_drift(source: CartridgeView, target: CartridgeView, now: u64)
    requires
        source.wf(),
        target.wf(),
        source.mapper.variant is Mbc3,
        target.mapper.variant is Mbc3,
        source.mapper.ram.len() == target.mapper.ram.len(),
    ensures
        target.restore(source.persist()) matches Some(restored) && {
            &&& restored.mapper.ram == source.mapper.ram
            &&& restored.mapper.rtc()->0.live == source.mapper.rtc()->0.live
            &&& restored.mapper.rtc()->0.timestamp == source.mapper.rtc()->0.timestamp
            &&& restored.sync_clock(now).mapper.rtc()->0.live == source.sync_clock(
                now,
            ).mapper.rtc()->0.live
        },
{
    law_persist_restore_round_trip(source);
}

/// A byte written to a RAM cell is read back from it: as written, but on an MBC2,
/// which keeps the low nibble and reads it under a high nibble of ones. No other
/// cell changes, and no register.
pub proof fn law_ram_write_then_read(cartridge: CartridgeView, address: u16, value: u8)
    requires
        cartridge.mapper.ram_offset(address) is Some,
    ensures
        ({
            let after = cartridge.write(address, value);
            let offset = cartridge.mapper.ram_offset(address)->0;
            &&& after.read(address) == (if cartridge.mapper.variant is Mbc2 {
                0xF0u8 | (value & 0x0F)
            } else {
                value
            })
            &&& after.mapper.ram == cartridge.mapper.ram.update(
                offset,
                cartridge.mapper.cell_write(value),
            )
            &&& after == CartridgeView {
                mapper: MapperView { ram: after.mapper.ram, ..cartridge.mapper },
                ..cartridge
            }
        }),
{
    assert((value & 0x0F) & 0x0F == value & 0x0F) by (bit_vector);
}

/// While RAM is disabled, a read in the RAM window returns `OPEN_BUS` and a write
/// there changes nothing.
pub proof fn law_disabled_ram_is_open_bus(cartridge: CartridgeView, address: u16, value: u8)
    requires
        !cartridge.mapper.ram_enabled,
        in_ram_window(address),
    ensures
        cartridge.read(address) == OPEN_BUS,
        cartridge.write(address, value) == cartridge,
{
}

/// A cartridge without RAM answers every read in the RAM window with `OPEN_BUS`,
/// unless a clock register or the sensor is shown there.
pub proof fn law_missing_ram_is_open_bus(cartridge: CartridgeView, address: u16)
    requires
        cartridge.mapper.ram.len() == 0,
        in_ram_window(address),
        !cartridge.mapper.shows_clock(address),
        !cartridge.mapper.shows_sensor(address),
    ensures
        cartridge.read(address) == OPEN_BUS,
{
}

/// A write to the control registers never touches the RAM.
pub proof fn law_control_write_keeps_ram(cartridge: CartridgeView, address: u16, value: u8)
    requires
        in_rom_window(address),
    ensures
        cartridge.write(address, value).mapper.ram == cartridge.mapper.ram,
{
}

/// Disabling RAM and enabling it again gives the cartridge back as it was while
/// RAM was enabled: every cell reads as before. In between, nothing is read from
/// the RAM, and the RAM is kept as it is.
pub proof fn law_ram_survives_disable_enable(
    cartridge: CartridgeView,
    first: u16,
    off: u8,
    second: u16,
    on: u8,
    address: u16,
)
    requires
        cartridge.mapper.ram_enabled,
        cartridge.mapper.is_ram_enable_address(first),
        cartridge.mapper.is_ram_enable_address(second),
        off & 0x0F != RAM_ENABLE,
        on & 0x0F == RAM_ENABLE,
    ensures
        !cartridge.write(first, off).mapper.ram_enabled,
        cartridge.write(first, off).mapper.ram == cartridge.mapper.ram,
        in_ram_window(address) ==> cartridge.write(first, off).read(address) == OPEN_BUS,
        cartridge.write(first, off).write(second, on) == cartridge,
        cartridge.write(first, off).write(second, on).read(address) == cartridge.read(address),
{
}

} // verus!
