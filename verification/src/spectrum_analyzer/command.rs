//! The commands a host sends to a spectrum analyzer.
//!
//! A command is `#`, one byte that holds the length of the whole command,
//! and the command's text. Nothing ends it: the length byte tells where it
//! stops.

use vstd::prelude::*;
use crate::common::fields::{
    all_digits,
    conforms,
    decimal,
    is_line_ending,
    pow10,
    signed_decimal,
    slot_accepts,
    lemma_pow10_values,
};
use crate::common::frequency::Frequency;
use crate::spectrum_analyzer::config::{short_config, Config, SHORT_PATTERN};
use crate::spectrum_analyzer::kinds::{CalcMode, DspMode, InputStage, WifiBand};
use crate::spectrum_analyzer::model::MAX_WIRE_KHZ;

verus! {

#[derive(Debug, Copy, Clone, PartialEq, Eq, Structural)]
pub enum Command {
    /// Asks the device to send its configuration and setup frames.
    RequestConfig,
    /// Asks the device to send its serial number.
    RequestSerialNumber,
    SetConfig { start: Frequency, stop: Frequency, min_amp_dbm: i16, max_amp_dbm: i16 },
    SwitchModuleMain,
    SwitchModuleExp,
    StartTracking { start: Frequency, step: Frequency },
    StartWifiAnalyzer(WifiBand),
    StopWifiAnalyzer,
    SetCalcMode(CalcMode),
    TrackingStep(u16),
    SetDsp(DspMode),
    SetOffsetDB(i8),
    SetInputStage(InputStage),
    SetSweepPointsExt(u16),
    SetSweepPointsLarge(u16),
}

/// `value` as `width` decimal digits, padded with zeros on the left. Of a
/// value that takes more digits, the lowest `width` are written.
pub open spec fn digits(value: nat, width: nat) -> Seq<u8>
    decreases width,
{
    if width == 0 {
        Seq::<u8>::empty()
    } else {
        digits(value / 10, (width - 1) as nat).push((48 + value % 10) as u8)
    }
}

/// A signed value as a sign and `width` digits.
pub open spec fn signed_digits(value: int, width: nat) -> Seq<u8> {
    if value < 0 {
        seq![45u8] + digits((-value) as nat, width)
    } else {
        seq![43u8] + digits(value as nat, width)
    }
}

/// A signed byte as the unsigned byte with the same bits.
pub open spec fn twos_complement(value: i8) -> u8 {
    if value >= 0 {
        value as u8
    } else {
        (256 + value) as u8
    }
}

pub proof fn lemma_digits_len(value: nat, width: nat)
    ensures
        digits(value, width).len() == width,
        all_digits(digits(value, width)),
    decreases width,
{
    if width > 0 {
        lemma_digits_len(value / 10, (width - 1) as nat);
    }
}

/// Reading back what was written gives the value, where the field is wide
/// enough for it.
pub proof fn lemma_digits_decimal(value: nat, width: nat)
    requires
        value < pow10(width),
    ensures
        decimal(digits(value, width)) == value,
    decreases width,
{
    if width > 0 {
        let rest = digits(value / 10, (width - 1) as nat);
        assert(digits(value, width).drop_last() =~= rest);
        lemma_digits_decimal(value / 10, (width - 1) as nat);
    }
}

impl Command {
    /// Whether every value fits the field that carries it: frequencies in
    /// seven digits of kHz, amplitudes in three digits, the points of the
    /// short sweep-point command in four.
    pub open spec fn fits(self) -> bool {
        match self {
            Command::SetConfig { start, stop, min_amp_dbm, max_amp_dbm } => {
                &&& start.hz / 1_000 <= MAX_WIRE_KHZ
                &&& stop.hz / 1_000 <= MAX_WIRE_KHZ
                &&& -999 <= min_amp_dbm <= 999
                &&& -999 <= max_amp_dbm <= 999
            },
            Command::StartTracking { start, step } => {
                &&& start.hz / 1_000 <= MAX_WIRE_KHZ
                &&& step.hz / 1_000 <= MAX_WIRE_KHZ
            },
            Command::SetSweepPointsExt(points) => points <= 9_999,
            _ => true,
        }
    }

    /// The text of the command: what follows `#` and the length byte.
    pub open spec fn spec_text(self) -> Seq<u8> {
        match self {
            Command::RequestConfig => seq![67u8, 48u8],
            Command::RequestSerialNumber => seq![67u8, 110u8],
            Command::SetConfig { start, stop, min_amp_dbm, max_amp_dbm } => seq![
                67u8,
                50u8,
                45u8,
                70u8,
                58u8,
            ] + digits((start.hz / 1_000) as nat, 7) + seq![44u8] + digits(
                (stop.hz / 1_000) as nat,
                7,
            ) + seq![44u8] + signed_digits(max_amp_dbm as int, 3) + seq![44u8] + signed_digits(
                min_amp_dbm as int,
                3,
            ),
            Command::SwitchModuleMain => seq![67u8, 77u8, 0u8],
            Command::SwitchModuleExp => seq![67u8, 77u8, 1u8],
            Command::StartTracking { start, step } => seq![67u8, 51u8, 45u8, 75u8, 58u8] + digits(
                (start.hz / 1_000) as nat,
                7,
            ) + seq![44u8] + digits((step.hz / 1_000) as nat, 7),
            Command::StartWifiAnalyzer(band) => seq![67u8, 87u8, band.spec_byte()],
            Command::StopWifiAnalyzer => seq![67u8, 87u8, 0u8],
            Command::SetCalcMode(mode) => seq![67u8, 43u8, mode.spec_byte()],
            Command::TrackingStep(step) => seq![107u8, (step / 256) as u8, (step % 256) as u8],
            Command::SetDsp(mode) => seq![67u8, 112u8, mode.spec_byte()],
            Command::SetOffsetDB(offset) => seq![67u8, 79u8, twos_complement(offset)],
            Command::SetInputStage(stage) => seq![97u8, stage.spec_byte()],
            Command::SetSweepPointsExt(points) => seq![67u8, 74u8] + digits(points as nat, 4),
            Command::SetSweepPointsLarge(points) => seq![67u8, 75u8] + digits(points as nat, 5),
        }
    }

    /// The bytes of the command: `#`, the length of the whole command, the
    /// text.
    pub open spec fn spec_bytes(self) -> Seq<u8> {
        seq![35u8, (self.spec_text().len() + 2) as u8] + self.spec_text()
    }

    /// Tells whether every value fits the field that carries it.
    pub fn is_encodable(self) -> (r: bool)
        ensures
            r == self.fits(),
    {
        match self {
            Command::SetConfig { start, stop, min_amp_dbm, max_amp_dbm } => {
                start.hz / 1_000 <= MAX_WIRE_KHZ && stop.hz / 1_000 <= MAX_WIRE_KHZ && -999
                    <= min_amp_dbm && min_amp_dbm <= 999 && -999 <= max_amp_dbm && max_amp_dbm
                    <= 999
            },
            Command::StartTracking { start, step } => {
                start.hz / 1_000 <= MAX_WIRE_KHZ && step.hz / 1_000 <= MAX_WIRE_KHZ
            },
            Command::SetSweepPointsExt(points) => points <= 9_999,
            _ => true,
        }
    }

    /// The bytes to write to the device, where every value fits its field.
    pub fn encode(self) -> (bytes: Option<Vec<u8>>)
        ensures
            match bytes {
                Some(bytes) => self.fits() && bytes@ == self.spec_bytes(),
                None => !self.fits(),
            },
    {
        if self.is_encodable() {
            Some(self.to_bytes())
        } else {
            None
        }
    }

    /// The bytes to write to the device.
    pub fn to_bytes(self) -> (bytes: Vec<u8>)
        requires
            self.fits(),
        ensures
            bytes@ == self.spec_bytes(),
    {
        let mut text: Vec<u8> = Vec::new();
        match self {
            Command::RequestConfig => {
                text.push(67);
                text.push(48);
            },
            Command::RequestSerialNumber => {
                text.push(67);
                text.push(110);
            },
            Command::SetConfig { start, stop, min_amp_dbm, max_amp_dbm } => {
                text.push(67);
                text.push(50);
                text.push(45);
                text.push(70);
                text.push(58);
                push_decimal(&mut text, start.hz / 1_000, 7);
                text.push(44);
                push_decimal(&mut text, stop.hz / 1_000, 7);
                text.push(44);
                push_signed(&mut text, max_amp_dbm, 3);
                text.push(44);
                push_signed(&mut text, min_amp_dbm, 3);
            },
            Command::SwitchModuleMain => {
                text.push(67);
                text.push(77);
                text.push(0);
            },
            Command::SwitchModuleExp => {
                text.push(67);
                text.push(77);
                text.push(1);
            },
            Command::StartTracking { start, step } => {
                text.push(67);
                text.push(51);
                text.push(45);
                text.push(75);
                text.push(58);
                push_decimal(&mut text, start.hz / 1_000, 7);
                text.push(44);
                push_decimal(&mut text, step.hz / 1_000, 7);
            },
            Command::StartWifiAnalyzer(band) => {
                text.push(67);
                text.push(87);
                text.push(band.byte());
            },
            Command::StopWifiAnalyzer => {
                text.push(67);
                text.push(87);
                text.push(0);
            },
            Command::SetCalcMode(mode) => {
                text.push(67);
                text.push(43);
                text.push(mode.byte());
            },
            Command::TrackingStep(step) => {
                text.push(107);
                text.push((step / 256) as u8);
                text.push((step % 256) as u8);
            },
            Command::SetDsp(mode) => {
                text.push(67);
                text.push(112);
                text.push(mode.byte());
            },
            Command::SetOffsetDB(offset) => {
                text.push(67);
                text.push(79);
                let byte: u8 = if offset >= 0 {
                    offset as u8
                } else {
                    (256 + offset as i16) as u8
                };
                text.push(byte);
            },
            Command::SetInputStage(stage) => {
                text.push(97);
                text.push(stage.byte());
            },
            Command::SetSweepPointsExt(points) => {
                text.push(67);
                text.push(74);
                push_decimal(&mut text, points as u64, 4);
            },
            Command::SetSweepPointsLarge(points) => {
                text.push(67);
                text.push(75);
                push_decimal(&mut text, points as u64, 5);
            },
        }
        proof {
            lemma_digits_len((self->SetConfig_start.hz / 1_000) as nat, 7);
            lemma_digits_len((self->SetConfig_stop.hz / 1_000) as nat, 7);
            lemma_digits_len((self->StartTracking_start.hz / 1_000) as nat, 7);
            lemma_digits_len((self->StartTracking_step.hz / 1_000) as nat, 7);
            if self is SetConfig {
                let a = self->max_amp_dbm as int;
                let b = self->min_amp_dbm as int;
                lemma_digits_len((if a < 0 { -a } else { a }) as nat, 3);
                lemma_digits_len((if b < 0 { -b } else { b }) as nat, 3);
            }
            lemma_digits_len(self->SetSweepPointsExt_0 as nat, 4);
            lemma_digits_len(self->SetSweepPointsLarge_0 as nat, 5);
            assert(text@ =~= self.spec_text());
        }
        let mut bytes: Vec<u8> = Vec::new();
        bytes.push(35);
        bytes.push((text.len() + 2) as u8);
        let ghost head = bytes@;
        let mut i: usize = 0;
        while i < text.len()
            invariant
                i <= text.len(),
                bytes@ == head + text@.take(i as int),
            decreases text.len() - i,
        {
            bytes.push(text[i]);
            assert(text@.take(i + 1) =~= text@.take(i as int).push(text@[i as int]));
            assert(head + text@.take(i + 1) =~= (head + text@.take(i as int)).push(text@[i as int]));
            i += 1;
        }
        assert(text@.take(text@.len() as int) =~= text@);
        assert(head =~= seq![35u8, (self.spec_text().len() + 2) as u8]);
        bytes
    }
}

/// Appends `value` as `width` decimal digits.
pub fn push_decimal(out: &mut Vec<u8>, value: u64, width: usize)
    ensures
        final(out)@ == old(out)@ + digits(value as nat, width as nat),
    decreases width,
{
    if width == 0 {
        assert(out@ =~= out@ + digits(value as nat, 0));
    } else {
        let ghost before = out@;
        push_decimal(out, value / 10, width - 1);
        out.push(48 + (value % 10) as u8);
        assert(out@ =~= before + digits(value as nat, width as nat));
    }
}

/// Appends `value` as a sign and `width` decimal digits.
pub fn push_signed(out: &mut Vec<u8>, value: i16, width: usize)
    ensures
        final(out)@ == old(out)@ + signed_digits(value as int, width as nat),
{
    let ghost before = out@;
    if value < 0 {
        out.push(45);
        push_decimal(out, (-(value as i32)) as u64, width);
    } else {
        out.push(43);
        push_decimal(out, value as u64, width);
    }
    assert(out@ =~= before + signed_digits(value as int, width as nat));
}

/// Reading back a signed field gives the value, where the field is wide
/// enough for it.
pub proof fn lemma_signed_digits_decimal(value: int, width: nat)
    requires
        -pow10(width) < value < pow10(width),
    ensures
        signed_decimal(signed_digits(value, width)) == value,
{
    let magnitude = (if value < 0 {
        -value
    } else {
        value
    }) as nat;
    let field = signed_digits(value, width);
    lemma_digits_decimal(magnitude, width);
    assert(field.skip(1) =~= digits(magnitude, width));
}

/// The frame in which a device reports the range and the amplitude bounds
/// that a `SetConfig` command has asked for: `#`, then the text of the
/// command.
pub open spec fn config_echo(
    start: Frequency,
    stop: Frequency,
    min_amp_dbm: i16,
    max_amp_dbm: i16,
) -> Seq<u8> {
    seq![35u8] + (Command::SetConfig { start, stop, min_amp_dbm, max_amp_dbm }).spec_text()
}

/// What is written is what is read: when the device reports what a
/// `SetConfig` command has asked for, the configuration that is decoded from
/// its frame is the one that the request waits for.
pub proof fn lemma_config_echo(
    start: Frequency,
    stop: Frequency,
    min_amp_dbm: i16,
    max_amp_dbm: i16,
)
    requires
        (Command::SetConfig { start, stop, min_amp_dbm, max_amp_dbm }).fits(),
    ensures
        crate::spectrum_analyzer::config::spec_decode(
            config_echo(start, stop, min_amp_dbm, max_amp_dbm),
        ) matches Ok(config) && config.spec_contains_start_stop_amp_range(
            start,
            stop,
            min_amp_dbm,
            max_amp_dbm,
        ),
        config_echo(start, stop, min_amp_dbm, max_amp_dbm).len() == 31,
        conforms(config_echo(start, stop, min_amp_dbm, max_amp_dbm), SHORT_PATTERN@),
        short_config(config_echo(start, stop, min_amp_dbm, max_amp_dbm)) == (Config {
            start: Frequency { hz: (start.hz / 1_000 * 1_000) as u64 },
            stop: Frequency { hz: (stop.hz / 1_000 * 1_000) as u64 },
            min_amp_dbm,
            max_amp_dbm,
            ..short_config(config_echo(start, stop, min_amp_dbm, max_amp_dbm))
        }),
{
    let frame = config_echo(start, stop, min_amp_dbm, max_amp_dbm);
    let s = (start.hz / 1_000) as nat;
    let e = (stop.hz / 1_000) as nat;
    let top = signed_digits(max_amp_dbm as int, 3);
    let bottom = signed_digits(min_amp_dbm as int, 3);
    let top_magnitude = (if max_amp_dbm < 0 {
        -max_amp_dbm
    } else {
        max_amp_dbm as int
    }) as nat;
    let bottom_magnitude = (if min_amp_dbm < 0 {
        -min_amp_dbm
    } else {
        min_amp_dbm as int
    }) as nat;
    lemma_pow10_values();
    lemma_digits_len(s, 7);
    lemma_digits_len(e, 7);
    lemma_digits_len(top_magnitude, 3);
    lemma_digits_len(bottom_magnitude, 3);
    lemma_digits_decimal(s, 7);
    lemma_digits_decimal(e, 7);
    lemma_signed_digits_decimal(max_amp_dbm as int, 3);
    lemma_signed_digits_decimal(min_amp_dbm as int, 3);
    assert(top.len() == 4 && bottom.len() == 4);
    assert(frame.len() == 31);
    assert(frame.subrange(6, 13) =~= digits(s, 7));
    assert(frame.subrange(14, 21) =~= digits(e, 7));
    assert(frame.subrange(22, 26) =~= top);
    assert(frame.subrange(27, 31) =~= bottom);
    assert(conforms(frame, SHORT_PATTERN@)) by {
        assert forall|i: int| 0 <= i < 31 implies slot_accepts(SHORT_PATTERN@[i], frame[i]) by {
            if 6 <= i < 13 {
                assert(frame[i] == digits(s, 7)[i - 6]);
            } else if 14 <= i < 21 {
                assert(frame[i] == digits(e, 7)[i - 14]);
            } else if 22 <= i < 26 {
                assert(frame[i] == top[i - 22]);
                if i > 22 {
                    assert(top[i - 22] == digits(top_magnitude, 3)[i - 23]);
                }
            } else if 27 <= i < 31 {
                assert(frame[i] == bottom[i - 27]);
                if i > 27 {
                    assert(bottom[i - 27] == digits(bottom_magnitude, 3)[i - 28]);
                }
            }
        }
    }
    assert(frame.skip(31) =~= Seq::<u8>::empty());
    assert(is_line_ending(frame.skip(31)));
    let config = short_config(frame);
    assert(config.start.hz == s * 1_000);
    assert(config.stop.hz == e * 1_000);
}

} // verus!
