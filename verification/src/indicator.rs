use vstd::prelude::*;
use crate::breath::{breath_table, spec_breath_level, BREATH_FRAMES};
use crate::color::{Grb, LightEffect};
use crate::frame::{encode, spec_frame, SEQ_LEN, WRESET};

verus! {

/// Period of the update loop, in milliseconds.
pub const POLL_INTERVAL_MS: u32 = 100;

/// Period of the update loop once every pixel has settled dark, in
/// milliseconds: the idle tick.
pub const IDLE_POLL_INTERVAL_MS: u32 = 1000;

/// Frames that one idle update covers.
pub const IDLE_FRAMES: u32 = IDLE_POLL_INTERVAL_MS / POLL_INTERVAL_MS;

/// Milliseconds to let the LED rail settle after powering it up.
pub const RAIL_SETTLE_MS: u64 = 5;

/// Milliseconds to wait for a started sequence to finish sending.
pub const FRAME_SEND_MS: u64 = 1;

/// Frames in one low-battery blink pattern.
pub const LOW_BLINK_PERIOD: u32 = 12;

/// Frames that a connection or profile notice stays lit (3 s).
pub const NOTICE_FRAMES: u32 = 3_000 / POLL_INTERVAL_MS;

/// Frames that advertising or a missing split link keeps breathing (60 s).
pub const ACTIVITY_FRAMES: u32 = 60_000 / POLL_INTERVAL_MS;

/// Frames that one low-battery alert lasts (5 s).
pub const LOW_ALERT_FRAMES: u32 = 5_000 / POLL_INTERVAL_MS;

/// Frames between the end of one low-battery alert and the next (5 min).
pub const LOW_REMINDER_FRAMES: u32 = 5 * 60_000 / POLL_INTERVAL_MS;

/// Frames between two battery samples (30 s).
pub const BATTERY_SAMPLE_FRAMES: u32 = 30_000 / POLL_INTERVAL_MS;

/// Battery percentage at or below which the battery counts as low.
pub const BATTERY_LOW: u8 = 20;

/// Battery percentage at or above which a charging battery counts as full.
pub const BATTERY_FULL: u8 = 95;

/// Resistance below the ADC tap of the battery divider.
pub const ADC_DIVIDER_MEASURED: i32 = 2000;

/// Total resistance of the battery divider.
pub const ADC_DIVIDER_TOTAL: i32 = 2806;

/// Which half of the split keyboard this indicator sits on.
#[derive(Clone, Copy, Debug, PartialEq, Eq, Structural)]
pub enum Role {
    Central,
    Peripheral,
}

/// State of the BLE link to the host.
#[derive(Clone, Copy, Debug, PartialEq, Eq, Structural)]
pub enum BleState {
    Idle,
    Advertising,
    Connected,
}

/// The controller events that the indicator reacts to; `Other` stands for
/// every event that it ignores.
#[derive(Clone, Copy, Debug, PartialEq, Eq, Structural)]
pub enum ControllerEvent {
    Battery(u8),
    ChargingState(bool),
    SplitPeripheral(usize, bool),
    SplitCentral(bool),
    BleState(u8, BleState),
    BleProfile(u8),
    Sleep(bool),
    Other,
}

/// `a / b` rounded towards zero, as integer division does in Rust.
pub open spec fn trunc_div(a: int, b: int) -> int {
    if a >= 0 {
        a / b
    } else {
        -((-a) / b)
    }
}

/// ADC reading of a full battery (4.755 V behind the divider).
pub open spec fn adc_full() -> int {
    4755 * (ADC_DIVIDER_MEASURED as int) / (ADC_DIVIDER_TOTAL as int)
}

/// ADC reading of an empty battery (4.055 V behind the divider).
pub open spec fn adc_empty() -> int {
    4055 * (ADC_DIVIDER_MEASURED as int) / (ADC_DIVIDER_TOTAL as int)
}

/// Battery percentage for an ADC reading: 100 above the full reading, 0
/// below the empty one, else one percent per 7 units of the undivided
/// reading above 4055.
pub open spec fn spec_battery_percent(val: int) -> int {
    if val > adc_full() {
        100
    } else if val < adc_empty() {
        0
    } else {
        trunc_div(val * (ADC_DIVIDER_TOTAL as int) / (ADC_DIVIDER_MEASURED as int) - 4055, 7)
    }
}

/// The sequence and power-rail steps that bring a new frame to the pixels.
pub struct RenderPlan {
    /// Power the LED rail up (and let it settle for `RAIL_SETTLE_MS`)
    /// before sending.
    pub rail_up: bool,
    /// The PWM sequence to send once (it takes `FRAME_SEND_MS`).
    pub frame: [u16; SEQ_LEN],
    /// Power the LED rail down after sending.
    pub rail_down: bool,
}

/// The indicator's state as plain values.
#[derive(Clone, Copy, Debug)]
pub struct IndicatorView {
    pub role: Role,
    pub battery: Option<u8>,
    pub charging: bool,
    pub ble_profile: u8,
    pub ble_connected: bool,
    pub ble_advertising: bool,
    pub peer_connected: bool,
    pub sleeping: bool,
    pub tick: u32,
    pub ble_frame: u32,
    pub peer_frame: u32,
    pub charge_frame: u32,
    pub low_alert_frame: u32,
    pub low_reminder_frame: u32,
    pub battery_sample_frame: u32,
    pub rail_on: bool,
    pub last: Option<(Grb, Grb)>,
    pub inner_breath: Option<(Grb, u32)>,
    pub outer_breath: Option<(Grb, u32)>,
}

/// The phase of the breath a pixel is in: 0 when it is not breathing.
pub open spec fn breath_phase(breath: Option<(Grb, u32)>) -> u32 {
    match breath {
        Some((_, phase)) => phase,
        None => 0,
    }
}

/// `color` at the brightness of breath phase `phase`: each lit channel
/// takes the breath level, each dark one stays dark.
pub open spec fn breath_color(color: Grb, phase: u32) -> Grb {
    let level = spec_breath_level((phase % (BREATH_FRAMES as u32)) as int) as u8;
    Grb {
        g: if color.g > 0 { level } else { 0 },
        r: if color.r > 0 { level } else { 0 },
        b: if color.b > 0 { level } else { 0 },
    }
}

/// Whether an update covering `frames` frames from sample-cycle position
/// `counter` covers the start of a sample cycle.
pub open spec fn sample_due(counter: u32, frames: u32) -> bool {
    counter == 0 || counter + frames > BATTERY_SAMPLE_FRAMES
}

impl IndicatorView {
    /// The state of a fresh indicator.
    pub open spec fn initial(role: Role) -> Self {
        IndicatorView {
            role,
            battery: None,
            charging: false,
            ble_profile: 0,
            ble_connected: false,
            ble_advertising: false,
            peer_connected: false,
            sleeping: false,
            tick: 0,
            ble_frame: 0,
            peer_frame: 0,
            charge_frame: 0,
            low_alert_frame: LOW_ALERT_FRAMES,
            low_reminder_frame: 0,
            battery_sample_frame: 0,
            rail_on: false,
            last: None,
            inner_breath: None,
            outer_breath: None,
        }
    }

    /// The counters stay in their ranges, a reminder only counts once the
    /// alert is over, and the LED rail is powered exactly when the last frame
    /// sent lights a pixel.
    pub open spec fn wf(self) -> bool {
        &&& self.low_alert_frame <= LOW_ALERT_FRAMES
        &&& self.low_reminder_frame < LOW_REMINDER_FRAMES
        &&& (self.low_reminder_frame > 0 ==> self.low_alert_frame == LOW_ALERT_FRAMES)
        &&& self.battery_sample_frame < BATTERY_SAMPLE_FRAMES
        &&& match self.last {
            Some((inner, outer)) => self.rail_on == (inner.is_lit() || outer.is_lit()),
            None => !self.rail_on,
        }
        &&& breath_phase(self.inner_breath) < BREATH_FRAMES
        &&& breath_phase(self.outer_breath) < BREATH_FRAMES
    }

    pub open spec fn battery_at_least(self, threshold: u8) -> bool {
        match self.battery {
            Some(level) => level >= threshold,
            None => false,
        }
    }

    pub open spec fn battery_at_most(self, threshold: u8) -> bool {
        match self.battery {
            Some(level) => level <= threshold,
            None => false,
        }
    }

    /// Colour of the active BLE profile: red, green, blue, then blue for
    /// every further profile.
    pub open spec fn profile_color(self) -> Grb {
        if self.ble_profile == 0 {
            Grb::red()
        } else if self.ble_profile == 1 {
            Grb::green()
        } else {
            Grb::blue()
        }
    }

    /// The low-battery blink is lit in frames 0, 1, 4 and 5 of every
    /// 12-frame period: two short double flashes.
    pub open spec fn low_blink_on(self) -> bool {
        let phase = self.tick % LOW_BLINK_PERIOD;
        phase < 2 || (4 <= phase && phase < 6)
    }

    /// The colour an effect shows in the current frame, a breath at breath
    /// phase `phase`.
    pub open spec fn effect_color(self, effect: LightEffect, phase: u32) -> Grb {
        match effect {
            LightEffect::Off => Grb::off(),
            LightEffect::Solid(color) => color,
            LightEffect::Breath(color) => breath_color(color, phase),
            LightEffect::LowBattery => if self.low_blink_on() {
                Grb::red()
            } else {
                Grb::off()
            },
        }
    }

    /// The low-battery blink while an alert is running on a low battery.
    pub open spec fn low_battery_effect(self) -> Option<LightEffect> {
        if self.battery_at_most(BATTERY_LOW) && self.low_alert_frame < LOW_ALERT_FRAMES {
            Some(LightEffect::LowBattery)
        } else {
            None
        }
    }

    /// The inner pixel: charging first (steady green notice once full,
    /// green breath before), then a low-battery alert, then on the central
    /// half the split link (blue breath while it is missing, blue notice
    /// once it is up).
    pub open spec fn inner_effect(self) -> LightEffect {
        if self.charging {
            if self.battery_at_least(BATTERY_FULL) {
                if self.charge_frame < NOTICE_FRAMES {
                    LightEffect::Solid(Grb::green())
                } else {
                    LightEffect::Off
                }
            } else {
                LightEffect::Breath(Grb::green())
            }
        } else if self.low_battery_effect() is Some {
            self.low_battery_effect().unwrap()
        } else if self.role == Role::Central && !self.peer_connected {
            if self.peer_frame < ACTIVITY_FRAMES {
                LightEffect::Breath(Grb::blue())
            } else {
                LightEffect::Off
            }
        } else if self.role == Role::Central && self.peer_frame < NOTICE_FRAMES {
            LightEffect::Solid(Grb::blue())
        } else {
            LightEffect::Off
        }
    }

    /// The outer pixel: on the central half the host link in the profile
    /// colour (notice once connected, breath while advertising); on the
    /// peripheral half the split link in blue (notice once connected,
    /// breath while it is missing).
    pub open spec fn outer_effect(self) -> LightEffect {
        match self.role {
            Role::Central => if self.ble_connected {
                if self.ble_frame < NOTICE_FRAMES {
                    LightEffect::Solid(self.profile_color())
                } else {
                    LightEffect::Off
                }
            } else if self.ble_advertising && self.ble_frame < ACTIVITY_FRAMES {
                LightEffect::Breath(self.profile_color())
            } else {
                LightEffect::Off
            },
            Role::Peripheral => if self.peer_connected {
                if self.peer_frame < NOTICE_FRAMES {
                    LightEffect::Solid(Grb::blue())
                } else {
                    LightEffect::Off
                }
            } else if self.peer_frame < ACTIVITY_FRAMES {
                LightEffect::Breath(Grb::blue())
            } else {
                LightEffect::Off
            },
        }
    }

    /// What a pixel whose effect is `target` and whose breath state is
    /// `breath` shows, and its next breath state. A breath starts at phase 0
    /// and moves one phase per frame. A breathing pixel whose effect turns
    /// off finishes its breath: it keeps breathing its colour until the
    /// phase comes round to 0, and only then goes dark. Any other effect
    /// shows at once and ends the breath.
    pub open spec fn pixel(self, target: LightEffect, breath: Option<(Grb, u32)>) -> (Grb, Option<(Grb, u32)>) {
        let phase = breath_phase(breath);
        let next = ((phase + 1) % (BREATH_FRAMES as int)) as u32;
        match target {
            LightEffect::Breath(color) => (breath_color(color, phase), Some((color, next))),
            LightEffect::Off => match breath {
                Some((color, p)) => if p != 0 {
                    (breath_color(color, p), Some((color, next)))
                } else {
                    (Grb::off(), None)
                },
                None => (Grb::off(), None),
            },
            _ => (self.effect_color(target, 0), None),
        }
    }

    /// The colours of the inner and outer pixel in the current frame.
    pub open spec fn frame_colors(self) -> (Grb, Grb) {
        (
            self.pixel(self.inner_effect(), self.inner_breath).0,
            self.pixel(self.outer_effect(), self.outer_breath).0,
        )
    }

    /// The breath states after showing the current frame.
    pub open spec fn breaths_stepped(self) -> Self {
        IndicatorView {
            inner_breath: self.pixel(self.inner_effect(), self.inner_breath).1,
            outer_breath: self.pixel(self.outer_effect(), self.outer_breath).1,
            ..self
        }
    }

    /// Everything has settled dark: both effects are off, no pixel is
    /// finishing a breath, and no low-battery alert is pending.
    pub open spec fn settled(self) -> bool {
        &&& self.inner_effect() == LightEffect::Off
        &&& self.outer_effect() == LightEffect::Off
        &&& self.inner_breath is None
        &&& self.outer_breath is None
        &&& !self.battery_at_most(BATTERY_LOW)
    }

    /// Frames that the next update covers: the idle tick once settled,
    /// else one.
    pub open spec fn frames_per_update(self) -> u32 {
        if self.settled() { IDLE_FRAMES } else { 1 }
    }

    /// Milliseconds until the next update: the idle tick while asleep or
    /// settled, else the active period.
    pub open spec fn next_poll_ms(self) -> u32 {
        if self.sleeping || self.settled() { IDLE_POLL_INTERVAL_MS } else { POLL_INTERVAL_MS }
    }

    pub open spec fn with_charging(self, charging: bool) -> Self {
        if charging != self.charging {
            IndicatorView { charging, charge_frame: 0, ..self }
        } else {
            self
        }
    }

    pub open spec fn with_low_alert_reset(self) -> Self {
        IndicatorView { low_alert_frame: 0, low_reminder_frame: 0, ..self }
    }

    /// A new battery reading: entering the low range starts an alert at
    /// once, leaving it stops alerts, and reaching full while charging
    /// restarts the green notice.
    pub open spec fn with_battery_level(self, level: u8) -> Self {
        let was_low = self.battery_at_most(BATTERY_LOW);
        let was_full = self.battery_at_least(BATTERY_FULL);
        let s1 = IndicatorView { battery: Some(level), ..self };
        let s2 = if level <= BATTERY_LOW && !was_low {
            s1.with_low_alert_reset()
        } else if level > BATTERY_LOW {
            IndicatorView { low_alert_frame: LOW_ALERT_FRAMES, low_reminder_frame: 0, ..s1 }
        } else {
            s1
        };
        if s2.charging && level >= BATTERY_FULL && !was_full {
            IndicatorView { charge_frame: 0, ..s2 }
        } else {
            s2
        }
    }

    pub open spec fn with_peer_connected(self, connected: bool) -> Self {
        IndicatorView {
            peer_connected: connected,
            peer_frame: if connected != self.peer_connected { 0 } else { self.peer_frame },
            ..self
        }
    }

    /// A BLE state report; any change of link state or profile restarts
    /// the outer pixel's timer.
    pub open spec fn with_ble_state(self, profile: u8, state: BleState) -> Self {
        let connected = state == BleState::Connected;
        let advertising = state == BleState::Advertising;
        let changed = connected != self.ble_connected || advertising != self.ble_advertising
            || profile != self.ble_profile;
        IndicatorView {
            ble_profile: profile,
            ble_connected: connected,
            ble_advertising: advertising,
            ble_frame: if changed { 0 } else { self.ble_frame },
            ..self
        }
    }

    pub open spec fn with_ble_profile(self, profile: u8) -> Self {
        if profile != self.ble_profile {
            IndicatorView { ble_profile: profile, ble_frame: 0, ..self }
        } else {
            self
        }
    }

    /// Waking up restarts both link timers so that the links show again.
    pub open spec fn with_sleeping(self, sleeping: bool) -> Self {
        if self.sleeping != sleeping && !sleeping {
            IndicatorView { sleeping, ble_frame: 0, peer_frame: 0, ..self }
        } else {
            IndicatorView { sleeping, ..self }
        }
    }

    /// One frame of the low-battery timers: outside the low range they rest;
    /// inside, the alert runs out, then the reminder counts up to the next
    /// alert.
    pub open spec fn low_battery_timers_advanced(self) -> Self {
        if !self.battery_at_most(BATTERY_LOW) {
            IndicatorView { low_alert_frame: LOW_ALERT_FRAMES, low_reminder_frame: 0, ..self }
        } else if self.low_alert_frame < LOW_ALERT_FRAMES {
            IndicatorView { low_alert_frame: (self.low_alert_frame + 1) as u32, ..self }
        } else {
            let reminder = self.low_reminder_frame.saturating_add(1);
            if reminder >= LOW_REMINDER_FRAMES {
                self.with_low_alert_reset()
            } else {
                IndicatorView { low_reminder_frame: reminder, ..self }
            }
        }
    }

    /// `frames` frames pass. The low-battery timers take one step: they run
    /// only while the battery is low, and then every update covers one
    /// frame.
    pub open spec fn advanced(self, frames: u32) -> Self {
        IndicatorView {
            tick: self.tick.wrapping_add(frames),
            ble_frame: self.ble_frame.saturating_add(frames),
            peer_frame: self.peer_frame.saturating_add(frames),
            charge_frame: self.charge_frame.saturating_add(frames),
            battery_sample_frame: ((self.battery_sample_frame + frames) % (BATTERY_SAMPLE_FRAMES as int)) as u32,
            ..self
        }.low_battery_timers_advanced()
    }

    /// The state after a controller event; link events that belong to the
    /// other half are ignored.
    pub open spec fn after_event(self, event: ControllerEvent) -> Self {
        match event {
            ControllerEvent::Battery(level) => self.with_battery_level(level),
            ControllerEvent::ChargingState(charging) => self.with_charging(charging),
            ControllerEvent::SplitPeripheral(_, connected) => if self.role == Role::Central {
                self.with_peer_connected(connected)
            } else {
                self
            },
            ControllerEvent::SplitCentral(connected) => if self.role == Role::Peripheral {
                self.with_peer_connected(connected)
            } else {
                self
            },
            ControllerEvent::BleState(profile, state) => if self.role == Role::Central {
                self.with_ble_state(profile, state)
            } else {
                self
            },
            ControllerEvent::BleProfile(profile) => if self.role == Role::Central {
                self.with_ble_profile(profile)
            } else {
                self
            },
            ControllerEvent::Sleep(sleeping) => self.with_sleeping(sleeping),
            ControllerEvent::Other => self,
        }
    }

    /// The state after showing `inner` and `outer`: nothing changes when
    /// they were the last frame shown; else they become the last frame and
    /// the rail is powered exactly when one of them is lit.
    pub open spec fn rendered(self, inner: Grb, outer: Grb) -> Self {
        if self.last == Some((inner, outer)) {
            self
        } else {
            IndicatorView {
                last: Some((inner, outer)),
                rail_on: inner.is_lit() || outer.is_lit(),
                ..self
            }
        }
    }

    /// What showing `inner` and `outer` asks of the hardware: nothing when
    /// they were the last frame shown; else the frame, preceded by powering
    /// the rail up when something is lit and the rail is down, and followed
    /// by powering it down when nothing is lit.
    pub open spec fn plan_matches(self, inner: Grb, outer: Grb, plan: Option<RenderPlan>) -> bool {
        let lit = inner.is_lit() || outer.is_lit();
        if self.last == Some((inner, outer)) {
            plan is None
        } else {
            &&& plan is Some
            &&& plan.unwrap().rail_up == (lit && !self.rail_on)
            &&& plan.unwrap().rail_down == !lit
            &&& plan.unwrap().frame@ == spec_frame(inner, outer)
        }
    }

    /// A battery sample is taken by an update of `frames` frames that covers
    /// the start of a sample cycle, when a sample was available.
    pub open spec fn with_battery_sample(self, sample: Option<i16>, frames: u32) -> Self {
        match sample {
            Some(val) => if sample_due(self.battery_sample_frame, frames) {
                self.with_battery_level(spec_battery_percent(val as int) as u8)
            } else {
                self
            },
            None => self,
        }
    }

    /// The state at which the frame of an update is chosen: charging state
    /// and battery sample taken in.
    pub open spec fn update_inputs(self, usb_present: bool, sample: Option<i16>) -> Self {
        self.with_charging(usb_present).with_battery_sample(sample, self.frames_per_update())
    }

    /// One update: asleep, both pixels go dark at once, breaths end and no
    /// frame passes; awake, the inputs are taken in (the battery sample
    /// window spans the frames since the last update), the frame is shown
    /// and frames pass: `IDLE_FRAMES` when everything is still settled dark
    /// after the inputs, else one, so anything the inputs start counts from
    /// its first frame.
    pub open spec fn updated(self, usb_present: bool, sample: Option<i16>) -> Self {
        if self.sleeping {
            IndicatorView { inner_breath: None, outer_breath: None, ..self }.rendered(Grb::off(), Grb::off())
        } else {
            let s = self.update_inputs(usb_present, sample);
            s.breaths_stepped().rendered(s.frame_colors().0, s.frame_colors().1).advanced(
                s.frames_per_update(),
            )
        }
    }
}

/// The status-LED controller of one keyboard half.
pub struct Ws2812Indicator {
    role: Role,
    battery: Option<u8>,
    charging: bool,
    ble_profile: u8,
    ble_connected: bool,
    ble_advertising: bool,
    peer_connected: bool,
    sleeping: bool,
    tick: u32,
    ble_frame: u32,
    peer_frame: u32,
    charge_frame: u32,
    low_alert_frame: u32,
    low_reminder_frame: u32,
    battery_sample_frame: u32,
    rail_on: bool,
    last: Option<(Grb, Grb)>,
    inner_breath: Option<(Grb, u32)>,
    outer_breath: Option<(Grb, u32)>,
    breath: [u8; BREATH_FRAMES],
}

impl View for Ws2812Indicator {
    type V = IndicatorView;

    closed spec fn view(&self) -> IndicatorView {
        IndicatorView {
            role: self.role,
            battery: self.battery,
            charging: self.charging,
            ble_profile: self.ble_profile,
            ble_connected: self.ble_connected,
            ble_advertising: self.ble_advertising,
            peer_connected: self.peer_connected,
            sleeping: self.sleeping,
            tick: self.tick,
            ble_frame: self.ble_frame,
            peer_frame: self.peer_frame,
            charge_frame: self.charge_frame,
            low_alert_frame: self.low_alert_frame,
            low_reminder_frame: self.low_reminder_frame,
            battery_sample_frame: self.battery_sample_frame,
            rail_on: self.rail_on,
            last: self.last,
            inner_breath: self.inner_breath,
            outer_breath: self.outer_breath,
        }
    }
}

impl Ws2812Indicator {
    /// The state is well formed and the breath table holds the breath curve.
    pub closed spec fn wf(&self) -> bool {
        &&& self@.wf()
        &&& forall|i: int| 0 <= i < BREATH_FRAMES ==> self.breath@[i] == spec_breath_level(i)
    }

    /// A fresh indicator: nothing known of battery or links, all timers at
    /// their start, LEDs dark and their rail off.
    pub fn new(role: Role) -> (s: Self)
        ensures
            s.wf(),
            s@ == IndicatorView::initial(role),
    {
        Ws2812Indicator {
            role,
            battery: None,
            charging: false,
            ble_profile: 0,
            ble_connected: false,
            ble_advertising: false,
            peer_connected: false,
            sleeping: false,
            tick: 0,
            ble_frame: 0,
            peer_frame: 0,
            charge_frame: 0,
            low_alert_frame: LOW_ALERT_FRAMES,
            low_reminder_frame: 0,
            battery_sample_frame: 0,
            rail_on: false,
            last: None,
            inner_breath: None,
            outer_breath: None,
            breath: breath_table(),
        }
    }

    /// The state as plain values.
    pub fn state(&self) -> (v: IndicatorView)
        ensures
            v == self@,
    {
        IndicatorView {
            role: self.role,
            battery: self.battery,
            charging: self.charging,
            ble_profile: self.ble_profile,
            ble_connected: self.ble_connected,
            ble_advertising: self.ble_advertising,
            peer_connected: self.peer_connected,
            sleeping: self.sleeping,
            tick: self.tick,
            ble_frame: self.ble_frame,
            peer_frame: self.peer_frame,
            charge_frame: self.charge_frame,
            low_alert_frame: self.low_alert_frame,
            low_reminder_frame: self.low_reminder_frame,
            battery_sample_frame: self.battery_sample_frame,
            rail_on: self.rail_on,
            last: self.last,
            inner_breath: self.inner_breath,
            outer_breath: self.outer_breath,
        }
    }

    /// A well-formed indicator has a well-formed state.
    pub proof fn lemma_view_wf(&self)
        requires
            self.wf(),
        ensures
            self@.wf(),
    {
    }

    /// Records whether the battery charges; a change restarts the charge notice.
    pub fn set_charging(&mut self, charging: bool)
        requires
            old(self).wf(),
        ensures
            final(self).wf(),
            final(self)@ == old(self)@.with_charging(charging),
    {
        if charging != self.charging {
            self.charging = charging;
            self.charge_frame = 0;
        }
    }

    /// Records a battery percentage (see `IndicatorView::with_battery_level`).
    pub fn set_battery_level(&mut self, level: u8)
        requires
            old(self).wf(),
        ensures
            final(self).wf(),
            final(self)@ == old(self)@.with_battery_level(level),
    {
        let was_low = self.battery_at_most(BATTERY_LOW);
        let was_full = self.battery_at_least(BATTERY_FULL);

        self.battery = Some(level);

        if level <= BATTERY_LOW && !was_low {
            self.reset_low_alert();
        } else if level > BATTERY_LOW {
            self.low_alert_frame = LOW_ALERT_FRAMES;
            self.low_reminder_frame = 0;
        }

        if self.charging && level >= BATTERY_FULL && !was_full {
            self.charge_frame = 0;
        }
    }

    /// Records the split link; a change restarts its timer.
    pub fn set_peer_connected(&mut self, connected: bool)
        requires
            old(self).wf(),
        ensures
            final(self).wf(),
            final(self)@ == old(self)@.with_peer_connected(connected),
    {
        if connected != self.peer_connected {
            self.peer_frame = 0;
        }
        self.peer_connected = connected;
    }

    /// Records the host link and profile (see `IndicatorView::with_ble_state`).
    pub fn set_ble_state(&mut self, profile: u8, state: BleState)
        requires
            old(self).wf(),
        ensures
            final(self).wf(),
            final(self)@ == old(self)@.with_ble_state(profile, state),
    {
        let connected = match state {
            BleState::Connected => true,
            _ => false,
        };
        let advertising = match state {
            BleState::Advertising => true,
            _ => false,
        };
        let changed = connected != self.ble_connected || advertising != self.ble_advertising
            || profile != self.ble_profile;

        if changed {
            self.ble_frame = 0;
        }

        self.ble_profile = profile;
        self.ble_connected = connected;
        self.ble_advertising = advertising;
    }

    /// Records the active BLE profile; a change restarts the outer timer.
    pub fn set_ble_profile(&mut self, profile: u8)
        requires
            old(self).wf(),
        ensures
            final(self).wf(),
            final(self)@ == old(self)@.with_ble_profile(profile),
    {
        if profile != self.ble_profile {
            self.ble_profile = profile;
            self.ble_frame = 0;
        }
    }

    /// Records sleep; waking restarts both link timers.
    pub fn set_sleeping(&mut self, sleeping: bool)
        requires
            old(self).wf(),
        ensures
            final(self).wf(),
            final(self)@ == old(self)@.with_sleeping(sleeping),
    {
        if self.sleeping != sleeping && !sleeping {
            self.ble_frame = 0;
            self.peer_frame = 0;
        }
        self.sleeping = sleeping;
    }

    /// Starts a low-battery alert now.
    pub fn reset_low_alert(&mut self)
        requires
            old(self).wf(),
        ensures
            final(self)@ == old(self)@.with_low_alert_reset(),
            final(self).wf(),
    {
        self.low_alert_frame = 0;
        self.low_reminder_frame = 0;
    }

    /// Colour of the active BLE profile.
    pub fn profile_color(&self) -> (c: Grb)
        ensures
            c == self@.profile_color(),
    {
        match self.ble_profile {
            0 => Grb::red(),
            1 => Grb::green(),
            2 => Grb::blue(),
            _ => Grb::blue(),
        }
    }

    /// Whether the low-battery blink is lit in the current frame.
    pub fn low_blink_on(&self) -> (on: bool)
        ensures
            on == self@.low_blink_on(),
    {
        let phase = self.tick % LOW_BLINK_PERIOD;
        phase < 2 || (4 <= phase && phase < 6)
    }

    /// `color` at the brightness of breath phase `phase`.
    pub fn breath_color(&self, color: Grb, phase: u32) -> (c: Grb)
        requires
            self.wf(),
        ensures
            c == breath_color(color, phase),
    {
        let level = self.breath[(phase % (BREATH_FRAMES as u32)) as usize];
        Grb {
            g: if color.g > 0 { level } else { 0 },
            r: if color.r > 0 { level } else { 0 },
            b: if color.b > 0 { level } else { 0 },
        }
    }

    /// The colour an effect shows in the current frame, a breath at breath
    /// phase `phase`.
    pub fn effect_color(&self, effect: LightEffect, phase: u32) -> (c: Grb)
        requires
            self.wf(),
        ensures
            c == self@.effect_color(effect, phase),
    {
        match effect {
            LightEffect::Off => Grb::off(),
            LightEffect::Solid(color) => color,
            LightEffect::Breath(color) => self.breath_color(color, phase),
            LightEffect::LowBattery => {
                if self.low_blink_on() {
                    Grb::red()
                } else {
                    Grb::off()
                }
            },
        }
    }

    /// What a pixel with effect `target` and breath state `breath` shows,
    /// and its next breath state (see `IndicatorView::pixel`).
    pub fn pixel(&self, target: LightEffect, breath: Option<(Grb, u32)>) -> (r: (Grb, Option<(Grb, u32)>))
        requires
            self.wf(),
            breath_phase(breath) < BREATH_FRAMES,
        ensures
            r == self@.pixel(target, breath),
    {
        let phase: u32 = match breath {
            Some((_, p)) => p,
            None => 0,
        };
        let next: u32 = (phase + 1) % (BREATH_FRAMES as u32);
        match target {
            LightEffect::Breath(color) => (self.breath_color(color, phase), Some((color, next))),
            LightEffect::Off => match breath {
                Some((color, p)) => {
                    if p != 0 {
                        (self.breath_color(color, p), Some((color, next)))
                    } else {
                        (Grb::off(), None)
                    }
                },
                None => (Grb::off(), None),
            },
            _ => (self.effect_color(target, 0), None),
        }
    }

    /// Whether a battery level is known and at least `threshold`.
    pub fn battery_at_least(&self, threshold: u8) -> (b: bool)
        ensures
            b == self@.battery_at_least(threshold),
    {
        match self.battery {
            Some(level) => level >= threshold,
            None => false,
        }
    }

    /// Whether a battery level is known and at most `threshold`.
    pub fn battery_at_most(&self, threshold: u8) -> (b: bool)
        ensures
            b == self@.battery_at_most(threshold),
    {
        match self.battery {
            Some(level) => level <= threshold,
            None => false,
        }
    }

    /// The low-battery blink while an alert runs on a low battery.
    pub fn low_battery_effect(&self) -> (e: Option<LightEffect>)
        ensures
            e == self@.low_battery_effect(),
    {
        if self.battery_at_most(BATTERY_LOW) && self.low_alert_frame < LOW_ALERT_FRAMES {
            Some(LightEffect::LowBattery)
        } else {
            None
        }
    }

    /// What the inner pixel shows (see `IndicatorView::inner_effect`).
    pub fn inner_effect(&self) -> (e: LightEffect)
        ensures
            e == self@.inner_effect(),
    {
        if self.charging {
            if self.battery_at_least(BATTERY_FULL) {
                return if self.charge_frame < NOTICE_FRAMES {
                    LightEffect::Solid(Grb::green())
                } else {
                    LightEffect::Off
                };
            }
            return LightEffect::Breath(Grb::green());
        }
        if let Some(effect) = self.low_battery_effect() {
            return effect;
        }
        if self.role == Role::Central {
            if !self.peer_connected {
                return if self.peer_frame < ACTIVITY_FRAMES {
                    LightEffect::Breath(Grb::blue())
                } else {
                    LightEffect::Off
                };
            }
            if self.peer_frame < NOTICE_FRAMES {
                return LightEffect::Solid(Grb::blue());
            }
        }
        LightEffect::Off
    }

    /// What the outer pixel shows (see `IndicatorView::outer_effect`).
    pub fn outer_effect(&self) -> (e: LightEffect)
        ensures
            e == self@.outer_effect(),
    {
        match self.role {
            Role::Central => {
                if self.ble_connected {
                    if self.ble_frame < NOTICE_FRAMES {
                        LightEffect::Solid(self.profile_color())
                    } else {
                        LightEffect::Off
                    }
                } else if self.ble_advertising && self.ble_frame < ACTIVITY_FRAMES {
                    LightEffect::Breath(self.profile_color())
                } else {
                    LightEffect::Off
                }
            },
            Role::Peripheral => {
                if self.peer_connected {
                    if self.peer_frame < NOTICE_FRAMES {
                        LightEffect::Solid(Grb::blue())
                    } else {
                        LightEffect::Off
                    }
                } else if self.peer_frame < ACTIVITY_FRAMES {
                    LightEffect::Breath(Grb::blue())
                } else {
                    LightEffect::Off
                }
            },
        }
    }

    /// The colours of the inner and outer pixel in the current frame.
    pub fn frame_colors(&self) -> (c: (Grb, Grb))
        requires
            self.wf(),
        ensures
            c == self@.frame_colors(),
    {
        (self.pixel(self.inner_effect(), self.inner_breath).0, self.pixel(self.outer_effect(), self.outer_breath).0)
    }

    /// Whether everything has settled dark (see `IndicatorView::settled`).
    pub fn settled(&self) -> (b: bool)
        ensures
            b == self@.settled(),
    {
        let inner_off = match self.inner_effect() {
            LightEffect::Off => true,
            _ => false,
        };
        let outer_off = match self.outer_effect() {
            LightEffect::Off => true,
            _ => false,
        };
        inner_off && outer_off && self.inner_breath.is_none() && self.outer_breath.is_none()
            && !self.battery_at_most(BATTERY_LOW)
    }

    /// Frames that the next update covers.
    pub fn frames_per_update(&self) -> (n: u32)
        ensures
            n == self@.frames_per_update(),
    {
        if self.settled() { IDLE_FRAMES } else { 1 }
    }

    /// Milliseconds to wait before the next update: the slow idle tick
    /// while asleep or settled dark, else the active period.
    pub fn next_poll_ms(&self) -> (ms: u32)
        ensures
            ms == self@.next_poll_ms(),
    {
        if self.sleeping || self.settled() { IDLE_POLL_INTERVAL_MS } else { POLL_INTERVAL_MS }
    }

    /// Battery percentage for a reading of the battery ADC.
    pub fn battery_percent_from_adc(val: i16) -> (p: u8)
        ensures
            p as int == spec_battery_percent(val as int),
            p <= 100,
    {
        let val = val as i32;
        let full = 4755 * ADC_DIVIDER_MEASURED / ADC_DIVIDER_TOTAL;
        let empty = 4055 * ADC_DIVIDER_MEASURED / ADC_DIVIDER_TOTAL;

        if val > full {
            100
        } else if val < empty {
            0
        } else {
            assert(2890 <= val <= 3389);
            let percent = (val * ADC_DIVIDER_TOTAL / ADC_DIVIDER_MEASURED - 4055) / 7;
            assert(0 <= percent <= 100);
            percent as u8
        }
    }

    /// Whether the next update takes a battery sample: the indicator is
    /// awake and the sample counter has come round.
    pub fn wants_battery_sample(&self) -> (b: bool)
        requires
            self.wf(),
        ensures
            b == (!self@.sleeping && sample_due(self@.battery_sample_frame, self@.frames_per_update())),
    {
        let frames = self.frames_per_update();
        !self.sleeping && (self.battery_sample_frame == 0 || self.battery_sample_frame + frames > BATTERY_SAMPLE_FRAMES)
    }

    /// One frame of the low-battery alert and reminder timers.
    pub fn update_low_battery_timers(&mut self)
        requires
            old(self).wf(),
        ensures
            final(self).wf(),
            final(self)@ == old(self)@.low_battery_timers_advanced(),
    {
        if !self.battery_at_most(BATTERY_LOW) {
            self.low_alert_frame = LOW_ALERT_FRAMES;
            self.low_reminder_frame = 0;
            return;
        }
        if self.low_alert_frame < LOW_ALERT_FRAMES {
            self.low_alert_frame += 1;
        } else {
            let reminder = self.low_reminder_frame.saturating_add(1);
            if reminder >= LOW_REMINDER_FRAMES {
                self.reset_low_alert();
            } else {
                self.low_reminder_frame = reminder;
            }
        }
    }

    /// Lets one frame pass: the tick and every timer move on.
    pub fn advance_frames(&mut self)
        requires
            old(self).wf(),
        ensures
            final(self).wf(),
            final(self)@ == old(self)@.advanced(1),
    {
        self.advance_frames_by(1);
    }

    /// Lets `frames` frames pass at once, as an idle update does. The
    /// low-battery timers take one step per call: they only run while the
    /// battery is low, and then updates cover one frame each.
    pub fn advance_frames_by(&mut self, frames: u32)
        requires
            old(self).wf(),
        ensures
            final(self).wf(),
            final(self)@ == old(self)@.advanced(frames),
    {
        self.tick = self.tick.wrapping_add(frames);
        self.ble_frame = self.ble_frame.saturating_add(frames);
        self.peer_frame = self.peer_frame.saturating_add(frames);
        self.charge_frame = self.charge_frame.saturating_add(frames);
        self.battery_sample_frame =
            ((self.battery_sample_frame as u64 + frames as u64) % (BATTERY_SAMPLE_FRAMES as u64)) as u32;
        self.update_low_battery_timers();
    }

    /// Takes in a controller event.
    pub fn process_event(&mut self, event: ControllerEvent)
        requires
            old(self).wf(),
        ensures
            final(self).wf(),
            final(self)@ == old(self)@.after_event(event),
    {
        match event {
            ControllerEvent::Battery(level) => self.set_battery_level(level),
            ControllerEvent::ChargingState(charging) => self.set_charging(charging),
            ControllerEvent::SplitPeripheral(_, connected) if self.role == Role::Central => {
                self.set_peer_connected(connected);
            },
            ControllerEvent::SplitCentral(connected) if self.role == Role::Peripheral => {
                self.set_peer_connected(connected);
            },
            ControllerEvent::BleState(profile, state) if self.role == Role::Central => {
                self.set_ble_state(profile, state);
            },
            ControllerEvent::BleProfile(profile) if self.role == Role::Central => {
                self.set_ble_profile(profile);
            },
            ControllerEvent::Sleep(sleeping) => self.set_sleeping(sleeping),
            _ => {},
        }
    }

    /// Decides how to show `inner` and `outer` and records them as shown.
    pub fn plan_render(&mut self, inner: Grb, outer: Grb) -> (plan: Option<RenderPlan>)
        requires
            old(self).wf(),
        ensures
            final(self).wf(),
            final(self)@ == old(self)@.rendered(inner, outer),
            old(self)@.plan_matches(inner, outer, plan),
    {
        let same = match self.last {
            Some((i, o)) => i == inner && o == outer,
            None => false,
        };
        if same {
            return None;
        }
        self.last = Some((inner, outer));

        let any_on = inner.is_lit() || outer.is_lit();
        let rail_up = any_on && !self.rail_on;
        if rail_up {
            self.rail_on = true;
        }

        let mut frame: [u16; SEQ_LEN] = [WRESET; SEQ_LEN];
        encode(&mut frame, inner, outer);

        if !any_on {
            self.rail_on = false;
        }
        Some(RenderPlan { rail_up, frame, rail_down: !any_on })
    }

    /// Takes in USB power and, when an update of `frames` frames covers the
    /// start of a sample cycle, the battery reading.
    fn take_inputs(&mut self, usb_present: bool, battery_sample: Option<i16>, frames: u32)
        requires
            old(self).wf(),
            frames <= IDLE_FRAMES,
        ensures
            final(self).wf(),
            final(self)@ == old(self)@.with_charging(usb_present).with_battery_sample(battery_sample, frames),
    {
        let due = self.battery_sample_frame == 0 || self.battery_sample_frame + frames > BATTERY_SAMPLE_FRAMES;
        self.set_charging(usb_present);
        if due {
            if let Some(val) = battery_sample {
                self.set_battery_level(Self::battery_percent_from_adc(val));
            }
        }
    }

    /// Moves both breath states on by the current frame and returns the
    /// frame's colours.
    fn step_breaths(&mut self) -> (c: (Grb, Grb))
        requires
            old(self).wf(),
        ensures
            final(self).wf(),
            final(self)@ == old(self)@.breaths_stepped(),
            c == old(self)@.frame_colors(),
    {
        let inner_target = self.inner_effect();
        let outer_target = self.outer_effect();
        let (inner, inner_breath) = self.pixel(inner_target, self.inner_breath);
        let (outer, outer_breath) = self.pixel(outer_target, self.outer_breath);
        self.inner_breath = inner_breath;
        self.outer_breath = outer_breath;
        (inner, outer)
    }

    /// One poll of the indicator. Asleep, it plans a dark frame, ends any
    /// breath and nothing else; awake, it takes in whether USB power is
    /// present and the battery reading (used only when the update covers the
    /// start of a sample cycle), plans the current frame, steps the breaths
    /// and lets frames pass: `IDLE_FRAMES` when everything is still settled
    /// dark after the inputs, else one.
    pub fn update(&mut self, usb_present: bool, battery_sample: Option<i16>) -> (plan: Option<RenderPlan>)
        requires
            old(self).wf(),
        ensures
            final(self).wf(),
            final(self)@ == old(self)@.updated(usb_present, battery_sample),
            old(self)@.sleeping ==> old(self)@.plan_matches(Grb::off(), Grb::off(), plan),
            !old(self)@.sleeping ==> ({
                let s = old(self)@.update_inputs(usb_present, battery_sample);
                s.plan_matches(s.frame_colors().0, s.frame_colors().1, plan)
            }),
    {
        if self.sleeping {
            self.inner_breath = None;
            self.outer_breath = None;
            return self.plan_render(Grb::off(), Grb::off());
        }
        let window = self.frames_per_update();
        self.take_inputs(usb_present, battery_sample, window);
        let frames = self.frames_per_update();
        let (inner, outer) = self.step_breaths();
        let plan = self.plan_render(inner, outer);
        self.advance_frames_by(frames);
        plan
    }
}

} // verus!
