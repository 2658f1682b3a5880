//! Sound channel registers.
//!
//! The bus stores what the program writes to the sound registers in the
//! channel structures below. When a channel is triggered, [`update`] takes a
//! snapshot of its parameters as a [`Wave`]; turning the snapshot into samples
//! is left to whoever owns the sound device.
//!
//! [`update`]: AudioSquareChannel::update
use vstd::prelude::*;

verus! {

/// The number of leading high samples of the square pattern of `duty`.
pub open spec fn spec_duty_high_len(duty: u8) -> int
    recommends
        duty < 4,
{
    if duty == 0 {
        28
    } else if duty == 1 {
        24
    } else if duty == 2 {
        16
    } else {
        8
    }
}

/// The 32-sample square pattern of `duty`: high samples first, then low.
pub open spec fn spec_square_wave_pattern(duty: u8) -> Seq<u8>
    recommends
        duty < 4,
{
    Seq::new(
        32,
        |i: int|
            if i < spec_duty_high_len(duty) {
                0xfu8
            } else {
                0u8
            },
    )
}

/// The 32-sample square pattern of `duty`.
pub fn square_wave_pattern(duty: u8) -> (pattern: [u8; 32])
    requires
        duty < 4,
    ensures
        pattern@ == spec_square_wave_pattern(duty),
{
    let high: usize = if duty == 0 {
        28
    } else if duty == 1 {
        24
    } else if duty == 2 {
        16
    } else {
        8
    };
    let mut pattern: [u8; 32] = [0;32];
    let mut i: usize = 0;
    while i < high
        invariant
            i <= high,
            high == spec_duty_high_len(duty),
            high <= 32,
            forall|j: int| 0 <= j < i ==> pattern@[j] == 0xf,
            forall|j: int| i <= j < 32 ==> pattern@[j] == 0,
        decreases high - i,
    {
        pattern[i] = 0xf;
        i += 1;
    }
    assert(pattern@ =~= spec_square_wave_pattern(duty));
    pattern
}

/// A snapshot of one channel's parameters, as a mathematical value.
pub struct WaveView {
    pub period_value: u16,
    pub num_sample: usize,
    pub wave_pattern: Seq<u8>,
    pub length_timer: u8,
    pub length_timer_enabled: bool,
    pub env_initial_volume: u8,
    pub env_direction: u8,
    pub env_sweep_pace: u8,
    pub period_sweep_pace: u8,
    pub period_sweep_direction: u8,
    pub period_sweep_slope: u8,
}

/// A snapshot of one channel's parameters, taken when the channel is
/// triggered. `num_sample` counts the samples produced from it so far.
#[derive(Clone, Copy, Debug)]
pub struct Wave {
    pub period_value: u16,
    pub num_sample: usize,
    pub wave_pattern: [u8; 32],
    pub length_timer: u8,
    pub length_timer_enabled: bool,
    pub env_initial_volume: u8,
    pub env_direction: u8,
    pub env_sweep_pace: u8,
    pub period_sweep_pace: u8,
    pub period_sweep_direction: u8,
    pub period_sweep_slope: u8,
}

impl View for Wave {
    type V = WaveView;

    open spec fn view(&self) -> WaveView {
        WaveView {
            period_value: self.period_value,
            num_sample: self.num_sample,
            wave_pattern: self.wave_pattern@,
            length_timer: self.length_timer,
            length_timer_enabled: self.length_timer_enabled,
            env_initial_volume: self.env_initial_volume,
            env_direction: self.env_direction,
            env_sweep_pace: self.env_sweep_pace,
            period_sweep_pace: self.period_sweep_pace,
            period_sweep_direction: self.period_sweep_direction,
            period_sweep_slope: self.period_sweep_slope,
        }
    }
}

impl Wave {
    /// A fresh snapshot of the given parameters, with no sample produced yet.
    pub fn new(
        period_value: u16,
        wave_pattern: [u8; 32],
        env_initial_volume: u8,
        env_direction: u8,
        env_sweep_pace: u8,
        length_timer: u8,
        length_timer_enabled: bool,
        period_sweep_pace: u8,
        period_sweep_direction: u8,
        period_sweep_slope: u8,
    ) -> (wave: Wave)
        ensures
            wave@ == (WaveView {
                period_value,
                num_sample: 0,
                wave_pattern: wave_pattern@,
                length_timer,
                length_timer_enabled,
                env_initial_volume,
                env_direction,
                env_sweep_pace,
                period_sweep_pace,
                period_sweep_direction,
                period_sweep_slope,
            }),
    {
        Wave {
            period_value,
            num_sample: 0,
            wave_pattern,
            env_initial_volume,
            env_direction,
            env_sweep_pace,
            length_timer,
            length_timer_enabled,
            period_sweep_pace,
            period_sweep_direction,
            period_sweep_slope,
        }
    }
}

/// The view of an optional snapshot.
pub open spec fn wave_option_view(wave: Option<Wave>) -> Option<WaveView> {
    match wave {
        Some(w) => Some(w@),
        None => None,
    }
}

/// A square channel as a mathematical value.
pub struct SquareChannelView {
    pub wave: Option<WaveView>,
    pub pending: bool,
    pub length_timer: u8,
    pub length_timer_enabled: bool,
    pub on: bool,
    pub period_value: u16,
    pub duty: u8,
    pub initial_volume: u8,
    pub env_direction: u8,
    pub sweep: u8,
    pub period_sweep_pace: u8,
    pub period_sweep_direction: u8,
    pub period_sweep_slope: u8,
}

impl SquareChannelView {
    /// Whether a snapshot can be taken: the duty selects one of the four
    /// patterns and the period is within its eleven bits.
    pub open spec fn can_update(self) -> bool {
        self.duty < 4 && self.period_value <= 2048
    }

    /// The snapshot that a trigger takes of this channel.
    pub open spec fn snapshot(self) -> WaveView {
        WaveView {
            period_value: (2048 - self.period_value) as u16,
            num_sample: 0,
            wave_pattern: spec_square_wave_pattern(self.duty),
            length_timer: self.length_timer,
            length_timer_enabled: self.length_timer_enabled,
            env_initial_volume: self.initial_volume,
            env_direction: self.env_direction,
            env_sweep_pace: self.sweep,
            period_sweep_pace: self.period_sweep_pace,
            period_sweep_direction: self.period_sweep_direction,
            period_sweep_slope: self.period_sweep_slope,
        }
    }

    /// The channel after a trigger: a fresh snapshot if the channel is on,
    /// none if it is off, and in both cases marked as pending.
    pub open spec fn update(self) -> SquareChannelView {
        SquareChannelView {
            wave: if self.on {
                Some(self.snapshot())
            } else {
                None
            },
            pending: true,
            ..self
        }
    }

    /// The channel after a write to its duty and length register: the two
    /// high bits select the duty, the six low bits the length, and a length
    /// of zero switches the length timer off.
    pub open spec fn write_duty_length(self, value: u8) -> SquareChannelView {
        SquareChannelView {
            duty: value / 64,
            length_timer: value % 64,
            length_timer_enabled: value % 64 != 0,
            ..self
        }
    }

    /// The channel after a write to its envelope register: volume in the
    /// high nibble, then the direction bit, then the three bits of the pace.
    pub open spec fn write_envelope(self, value: u8) -> SquareChannelView {
        SquareChannelView {
            initial_volume: value / 16,
            env_direction: (value % 16) / 8,
            sweep: value % 8,
            ..self
        }
    }

    /// The channel after a write to the low byte of its period.
    pub open spec fn write_period_low(self, value: u8) -> SquareChannelView {
        SquareChannelView {
            period_value: ((self.period_value / 256) * 256 + value) as u16,
            ..self
        }
    }

    /// The channel after a write to its control register: the three low
    /// bits become the high bits of the period, and bit 7 triggers the
    /// channel, provided a snapshot can be taken.
    pub open spec fn write_period_high(self, value: u8) -> SquareChannelView {
        let c = SquareChannelView {
            period_value: (self.period_value % 256 + (value % 8) * 256) as u16,
            ..self
        };
        if value >= 128 && c.can_update() {
            c.update()
        } else {
            c
        }
    }

    /// The channel at power-on.
    pub open spec fn power_on() -> SquareChannelView {
        SquareChannelView {
            wave: None,
            pending: false,
            length_timer: 0,
            length_timer_enabled: false,
            on: true,
            period_value: 0,
            duty: 0,
            initial_volume: 0,
            env_direction: 0,
            sweep: 0,
            period_sweep_pace: 0,
            period_sweep_direction: 0,
            period_sweep_slope: 0,
        }
    }
}

/// One of the two square channels.
pub struct AudioSquareChannel {
    /// The latest snapshot taken by a trigger.
    pub wave: Option<Wave>,
    /// Set by a trigger; cleared by whoever forwards the snapshot.
    pub pending: bool,
    pub length_timer: u8,
    pub length_timer_enabled: bool,
    pub on: bool,
    pub period_value: u16,
    pub duty: u8,
    pub initial_volume: u8,
    pub env_direction: u8,
    pub sweep: u8,
    pub period_sweep_pace: u8,
    pub period_sweep_direction: u8,
    pub period_sweep_slope: u8,
}

impl View for AudioSquareChannel {
    type V = SquareChannelView;

    open spec fn view(&self) -> SquareChannelView {
        SquareChannelView {
            wave: wave_option_view(self.wave),
            pending: self.pending,
            length_timer: self.length_timer,
            length_timer_enabled: self.length_timer_enabled,
            on: self.on,
            period_value: self.period_value,
            duty: self.duty,
            initial_volume: self.initial_volume,
            env_direction: self.env_direction,
            sweep: self.sweep,
            period_sweep_pace: self.period_sweep_pace,
            period_sweep_direction: self.period_sweep_direction,
            period_sweep_slope: self.period_sweep_slope,
        }
    }
}

impl AudioSquareChannel {
    /// A square channel at power-on.
    pub fn new() -> (channel: AudioSquareChannel)
        ensures
            channel@ == SquareChannelView::power_on(),
    {
        AudioSquareChannel {
            wave: None,
            pending: false,
            on: true,
            period_value: 0,
            duty: 0,
            initial_volume: 0,
            env_direction: 0,
            sweep: 0,
            length_timer: 0,
            length_timer_enabled: false,
            period_sweep_pace: 0,
            period_sweep_direction: 0,
            period_sweep_slope: 0,
        }
    }

    /// Triggers the channel.
    pub fn update(&mut self)
        requires
            old(self)@.can_update(),
        ensures
            final(self)@ == old(self)@.update(),
    {
        if self.on {
            self.wave = Some(
                Wave::new(
                    2048 - self.period_value,
                    square_wave_pattern(self.duty),
                    self.initial_volume,
                    self.env_direction,
                    self.sweep,
                    self.length_timer,
                    self.length_timer_enabled,
                    self.period_sweep_pace,
                    self.period_sweep_direction,
                    self.period_sweep_slope,
                ),
            );
        } else {
            self.wave = None;
        }
        self.pending = true;
    }
    /// Stores a write to the duty and length register.
    pub fn write_duty_length(&mut self, value: u8)
        ensures
            final(self)@ == old(self)@.write_duty_length(value),
    {
        self.duty = value / 64;
        self.length_timer = value % 64;
        self.length_timer_enabled = value % 64 != 0;
    }

    /// Stores a write to the envelope register.
    pub fn write_envelope(&mut self, value: u8)
        ensures
            final(self)@ == old(self)@.write_envelope(value),
    {
        self.initial_volume = value / 16;
        self.env_direction = (value % 16) / 8;
        self.sweep = value % 8;
    }

    /// Stores a write to the low byte of the period.
    pub fn write_period_low(&mut self, value: u8)
        ensures
            final(self)@ == old(self)@.write_period_low(value),
    {
        self.period_value = (self.period_value / 256) * 256 + value as u16;
    }

    /// Stores a write to the control register and triggers the channel if
    /// bit 7 asks for it.
    pub fn write_period_high(&mut self, value: u8)
        ensures
            final(self)@ == old(self)@.write_period_high(value),
    {
        self.period_value = self.period_value % 256 + (value % 8) as u16 * 256;
        if value >= 128 && self.duty < 4 {
            self.update();
        }
    }
}

/// The wave channel as a mathematical value.
pub struct CustomChannelView {
    pub wave: Option<WaveView>,
    pub pending: bool,
    pub length_timer: u8,
    pub length_timer_enabled: bool,
    pub wave_pattern: Seq<u8>,
    pub on: bool,
    pub period_value: u16,
    pub duty: u8,
    pub initial_volume: u8,
    pub env_direction: u8,
    pub sweep: u8,
}

impl CustomChannelView {
    /// The pattern holds 32 samples.
    pub open spec fn wf(self) -> bool {
        self.wave_pattern.len() == 32
    }

    /// Whether a snapshot can be taken: the halved period is within range.
    pub open spec fn can_update(self) -> bool {
        self.period_value <= 1024
    }

    /// The snapshot that a trigger takes of this channel.
    pub open spec fn snapshot(self) -> WaveView {
        WaveView {
            period_value: (2 * (2048 - self.period_value * 2)) as u16,
            num_sample: 0,
            wave_pattern: self.wave_pattern,
            length_timer: self.length_timer,
            length_timer_enabled: self.length_timer_enabled,
            env_initial_volume: self.initial_volume,
            env_direction: self.env_direction,
            env_sweep_pace: self.sweep,
            period_sweep_pace: 0,
            period_sweep_direction: 0,
            period_sweep_slope: 0,
        }
    }

    /// The channel after a trigger: a fresh snapshot if the channel is on,
    /// none if it is off, and in both cases marked as pending.
    pub open spec fn update(self) -> CustomChannelView {
        CustomChannelView {
            wave: if self.on {
                Some(self.snapshot())
            } else {
                None
            },
            pending: true,
            ..self
        }
    }

    /// The channel after sample-memory byte `i` is written with `value`:
    /// the high nibble becomes sample `2 * i`, the low nibble the next.
    pub open spec fn set_samples(self, i: int, value: u8) -> CustomChannelView
        recommends
            0 <= i < 16,
    {
        CustomChannelView {
            wave_pattern: self.wave_pattern.update(i * 2, value / 16).update(
                i * 2 + 1,
                value % 16,
            ),
            ..self
        }
    }

    /// The channel after a write to its length register: a value below 64
    /// is the length, any other switches the length timer off.
    pub open spec fn write_length(self, value: u8) -> CustomChannelView {
        if value < 64 {
            CustomChannelView { length_timer: value, length_timer_enabled: true, ..self }
        } else {
            CustomChannelView { length_timer: 0, length_timer_enabled: false, ..self }
        }
    }

    /// The volume that the two-bit output level `level` selects: mute, full,
    /// half, quarter.
    pub open spec fn level_volume(level: u8) -> u8 {
        if level == 0 {
            0
        } else if level == 1 {
            15
        } else if level == 2 {
            7
        } else {
            3
        }
    }

    /// The channel after a write to its output level register, whose bits
    /// 5 and 6 hold the level.
    pub open spec fn write_volume(self, value: u8) -> CustomChannelView {
        CustomChannelView { initial_volume: Self::level_volume((value / 32) % 4), ..self }
    }

    /// The channel after a write to the low byte of its period.
    pub open spec fn write_period_low(self, value: u8) -> CustomChannelView {
        CustomChannelView {
            period_value: ((self.period_value / 256) * 256 + value) as u16,
            ..self
        }
    }

    /// The channel after a write to its control register: the three low
    /// bits become the high bits of the period, the period is halved, and
    /// bit 7 triggers the channel.
    pub open spec fn write_period_high(self, value: u8) -> CustomChannelView {
        let c = CustomChannelView {
            period_value: ((self.period_value % 256 + (value % 8) * 256) / 2) as u16,
            ..self
        };
        if value >= 128 {
            c.update()
        } else {
            c
        }
    }

    /// The channel at power-on.
    pub open spec fn power_on() -> CustomChannelView {
        CustomChannelView {
            wave: None,
            pending: false,
            length_timer: 0,
            length_timer_enabled: false,
            wave_pattern: Seq::new(32, |i: int| 0u8),
            on: true,
            period_value: 0,
            duty: 0,
            initial_volume: 0,
            env_direction: 0,
            sweep: 0,
        }
    }
}

/// The wave channel, which plays the 32 samples held in `wave_pattern`.
pub struct AudioCustomChannel {
    /// The latest snapshot taken by a trigger.
    pub wave: Option<Wave>,
    /// Set by a trigger; cleared by whoever forwards the snapshot.
    pub pending: bool,
    pub length_timer: u8,
    pub length_timer_enabled: bool,
    pub wave_pattern: [u8; 32],
    pub on: bool,
    pub period_value: u16,
    pub duty: u8,
    pub initial_volume: u8,
    pub env_direction: u8,
    pub sweep: u8,
}

impl View for AudioCustomChannel {
    type V = CustomChannelView;

    open spec fn view(&self) -> CustomChannelView {
        CustomChannelView {
            wave: wave_option_view(self.wave),
            pending: self.pending,
            length_timer: self.length_timer,
            length_timer_enabled: self.length_timer_enabled,
            wave_pattern: self.wave_pattern@,
            on: self.on,
            period_value: self.period_value,
            duty: self.duty,
            initial_volume: self.initial_volume,
            env_direction: self.env_direction,
            sweep: self.sweep,
        }
    }
}

impl AudioCustomChannel {
    /// The wave channel at power-on.
    pub fn new() -> (channel: AudioCustomChannel)
        ensures
            channel@ == CustomChannelView::power_on(),
    {
        let channel = AudioCustomChannel {
            wave: None,
            pending: false,
            wave_pattern: [0;32],
            on: true,
            period_value: 0,
            duty: 0,
            initial_volume: 0,
            env_direction: 0,
            sweep: 0,
            length_timer: 0,
            length_timer_enabled: false,
        };
        assert(channel.wave_pattern@ =~= Seq::new(32, |i: int| 0u8));
        channel
    }

    /// Triggers the channel.
    pub fn update(&mut self)
        requires
            old(self)@.can_update(),
        ensures
            final(self)@ == old(self)@.update(),
    {
        if self.on {
            self.wave = Some(
                Wave::new(
                    2 * (2048 - (self.period_value * 2)),
                    self.wave_pattern,
                    self.initial_volume,
                    self.env_direction,
                    self.sweep,
                    self.length_timer,
                    self.length_timer_enabled,
                    0,
                    0,
                    0,
                ),
            );
        } else {
            self.wave = None;
        }
        self.pending = true;
    }
    /// Stores a write to the length register.
    pub fn write_length(&mut self, value: u8)
        ensures
            final(self)@ == old(self)@.write_length(value),
    {
        if value < 64 {
            self.length_timer = value;
            self.length_timer_enabled = true;
        } else {
            self.length_timer = 0;
            self.length_timer_enabled = false;
        }
    }

    /// Stores a write to the output level register.
    pub fn write_volume(&mut self, value: u8)
        ensures
            final(self)@ == old(self)@.write_volume(value),
    {
        let level: u8 = (value / 32) % 4;
        self.initial_volume = if level == 0 {
            0
        } else if level == 1 {
            15
        } else if level == 2 {
            7
        } else {
            3
        };
    }

    /// Stores a write to the low byte of the period.
    pub fn write_period_low(&mut self, value: u8)
        ensures
            final(self)@ == old(self)@.write_period_low(value),
    {
        self.period_value = (self.period_value / 256) * 256 + value as u16;
    }

    /// Stores a write to the control register and triggers the channel if
    /// bit 7 asks for it.
    pub fn write_period_high(&mut self, value: u8)
        ensures
            final(self)@ == old(self)@.write_period_high(value),
    {
        self.period_value = (self.period_value % 256 + (value % 8) as u16 * 256) / 2;
        if value >= 128 {
            self.update();
        }
    }

    /// Stores a write to byte `i` of the sample memory.
    pub fn set_samples(&mut self, i: usize, value: u8)
        requires
            i < 16,
        ensures
            final(self)@ == old(self)@.set_samples(i as int, value),
    {
        self.wave_pattern[i * 2] = value / 16;
        self.wave_pattern[i * 2 + 1] = value % 16;
    }
}

/// The three channels as a mathematical value.
pub struct AudioView {
    pub ch1: SquareChannelView,
    pub ch2: SquareChannelView,
    pub ch3: CustomChannelView,
}

impl AudioView {
    /// The sample memory of the wave channel has its fixed size.
    pub open spec fn wf(self) -> bool {
        self.ch3.wf()
    }

    /// The channels at power-on.
    pub open spec fn power_on() -> AudioView {
        AudioView {
            ch1: SquareChannelView::power_on(),
            ch2: SquareChannelView::power_on(),
            ch3: CustomChannelView::power_on(),
        }
    }
}

/// The sound registers of the three channels.
pub struct Audio {
    pub ch1: AudioSquareChannel,
    pub ch2: AudioSquareChannel,
    pub ch3: AudioCustomChannel,
}

impl View for Audio {
    type V = AudioView;

    open spec fn view(&self) -> AudioView {
        AudioView { ch1: self.ch1@, ch2: self.ch2@, ch3: self.ch3@ }
    }
}

impl Audio {
    /// The channels at power-on.
    pub fn new() -> (audio: Audio)
        ensures
            audio@ == AudioView::power_on(),
    {
        Audio {
            ch1: AudioSquareChannel::new(),
            ch2: AudioSquareChannel::new(),
            ch3: AudioCustomChannel::new(),
        }
    }
}

} // verus!
