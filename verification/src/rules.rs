use vstd::prelude::*;
use crate::breath::{spec_breath_level, BREATH_FRAMES};
use crate::color::{Grb, LightEffect, LEVEL};
use crate::frame::{decode_frame, spec_frame};
use crate::laws::lemma_battery_percent_range;
use crate::indicator::{
    spec_battery_percent, RenderPlan, ADC_DIVIDER_MEASURED, ADC_DIVIDER_TOTAL, breath_phase, BleState, ControllerEvent, IndicatorView, Role, ACTIVITY_FRAMES, BATTERY_FULL,
    BATTERY_LOW, BATTERY_SAMPLE_FRAMES, LOW_ALERT_FRAMES, NOTICE_FRAMES,
};

verus! {

/// Whether a battery level is known and at least `threshold`.
pub open spec fn level_at_least(battery: Option<u8>, threshold: u8) -> bool {
    match battery {
        Some(level) => level >= threshold,
        None => false,
    }
}

/// Whether a battery level is known and at most `threshold`.
pub open spec fn level_at_most(battery: Option<u8>, threshold: u8) -> bool {
    match battery {
        Some(level) => level <= threshold,
        None => false,
    }
}

/// The low-battery blink is lit in frames 0, 1, 4 and 5 of every 12.
pub open spec fn blink_lit(tick: u32) -> bool {
    let phase = tick % 12;
    phase == 0 || phase == 1 || phase == 4 || phase == 5
}

/// Inner pixel, charging first: while the battery charges and is below full
/// (or not yet known), the inner pixel breathes green whatever the
/// low-battery alert or the split link say; once full it shows steady green
/// for the first `NOTICE_FRAMES` frames of the charge timer, then nothing.
pub proof fn law_inner_charging(s: IndicatorView)
    ensures
        s.charging && !level_at_least(s.battery, BATTERY_FULL) ==> s.inner_effect()
            == LightEffect::Breath(Grb { g: LEVEL, r: 0, b: 0 }),
        s.charging && level_at_least(s.battery, BATTERY_FULL) && s.charge_frame < NOTICE_FRAMES
            ==> s.inner_effect() == LightEffect::Solid(Grb { g: LEVEL, r: 0, b: 0 }),
        s.charging && level_at_least(s.battery, BATTERY_FULL) && s.charge_frame >= NOTICE_FRAMES
            ==> s.inner_effect() == LightEffect::Off,
{
}

/// Inner pixel without USB power: a low battery (at most `BATTERY_LOW`)
/// with its alert running blinks; otherwise the peripheral half's inner
/// pixel is dark, and the central half's shows the split link: blue breath
/// for `ACTIVITY_FRAMES` frames while it is missing, steady blue for
/// `NOTICE_FRAMES` frames once it is up, dark after.
pub proof fn law_inner_not_charging(s: IndicatorView)
    ensures
        !s.charging && level_at_most(s.battery, BATTERY_LOW) && s.low_alert_frame < LOW_ALERT_FRAMES
            ==> s.inner_effect() == LightEffect::LowBattery,
        ({
            let alert = level_at_most(s.battery, BATTERY_LOW) && s.low_alert_frame < LOW_ALERT_FRAMES;
            let blue = Grb { g: 0, r: 0, b: LEVEL };
            &&& (!s.charging && !alert && s.role == Role::Peripheral ==> s.inner_effect() == LightEffect::Off)
            &&& (!s.charging && !alert && s.role == Role::Central && !s.peer_connected ==> s.inner_effect() == if s.peer_frame < ACTIVITY_FRAMES {
                LightEffect::Breath(blue)
            } else {
                LightEffect::Off
            })
            &&& (!s.charging && !alert && s.role == Role::Central && s.peer_connected ==> s.inner_effect() == if s.peer_frame < NOTICE_FRAMES {
                LightEffect::Solid(blue)
            } else {
                LightEffect::Off
            })
        }),
{
}

/// Outer pixel. On the central half it shows the host link in the profile
/// colour (red, green, then blue for every further profile): steady for
/// `NOTICE_FRAMES` frames once connected, breathing for `ACTIVITY_FRAMES`
/// frames while advertising, else dark. On the peripheral half it shows the
/// split link in blue: steady for `NOTICE_FRAMES` frames once up, breathing
/// for `ACTIVITY_FRAMES` frames while it is missing.
pub proof fn law_outer(s: IndicatorView)
    ensures
        ({
            let profile = if s.ble_profile == 0 {
                Grb { g: 0, r: LEVEL, b: 0 }
            } else if s.ble_profile == 1 {
                Grb { g: LEVEL, r: 0, b: 0 }
            } else {
                Grb { g: 0, r: 0, b: LEVEL }
            };
            let blue = Grb { g: 0, r: 0, b: LEVEL };
            &&& s.profile_color() == profile
            &&& (s.role == Role::Central && s.ble_connected ==> s.outer_effect() == if s.ble_frame < NOTICE_FRAMES {
                LightEffect::Solid(profile)
            } else {
                LightEffect::Off
            })
            &&& (s.role == Role::Central && !s.ble_connected && s.ble_advertising ==> s.outer_effect() == if s.ble_frame < ACTIVITY_FRAMES {
                LightEffect::Breath(profile)
            } else {
                LightEffect::Off
            })
            &&& (s.role == Role::Central && !s.ble_connected && !s.ble_advertising ==> s.outer_effect() == LightEffect::Off)
            &&& (s.role == Role::Peripheral && s.peer_connected ==> s.outer_effect() == if s.peer_frame < NOTICE_FRAMES {
                LightEffect::Solid(blue)
            } else {
                LightEffect::Off
            })
            &&& (s.role == Role::Peripheral && !s.peer_connected ==> s.outer_effect() == if s.peer_frame < ACTIVITY_FRAMES {
                LightEffect::Breath(blue)
            } else {
                LightEffect::Off
            })
        }),
{
}

/// The outer pixel does not depend on charging, the battery or its timers.
pub proof fn law_outer_ignores_battery(s: IndicatorView, t: IndicatorView)
    requires
        t.role == s.role,
        t.ble_connected == s.ble_connected,
        t.ble_advertising == s.ble_advertising,
        t.ble_profile == s.ble_profile,
        t.peer_connected == s.peer_connected,
        t.ble_frame == s.ble_frame,
        t.peer_frame == s.peer_frame,
    ensures
        t.outer_effect() == s.outer_effect(),
{
}

/// What a pixel shows for each effect: a steady colour shows as it is and
/// the red blink shows red in its lit frames and dark in the others, both
/// ending any breath; a breath shows its colour's lit channels at the curve
/// level of the breath's phase and moves the phase on by one, starting from
/// phase 0 (dark) when the pixel was not breathing; an off pixel that is not
/// breathing is dark.
pub proof fn law_pixel(s: IndicatorView, breath: Option<(Grb, u32)>, color: Grb)
    requires
        breath_phase(breath) < BREATH_FRAMES,
    ensures
        s.pixel(LightEffect::Solid(color), breath) == (color, None::<(Grb, u32)>),
        s.pixel(LightEffect::LowBattery, breath) == (if blink_lit(s.tick) {
            Grb { g: 0, r: LEVEL, b: 0 }
        } else {
            Grb { g: 0, r: 0, b: 0 }
        }, None::<(Grb, u32)>),
        s.pixel(LightEffect::Off, None) == (Grb { g: 0, r: 0, b: 0 }, None::<(Grb, u32)>),
        s.pixel(LightEffect::Breath(color), None) == (Grb { g: 0, r: 0, b: 0 }, Some((color, 1u32))),
        ({
            let p = breath_phase(breath);
            let level = spec_breath_level(p as int);
            let shown = s.pixel(LightEffect::Breath(color), breath);
            &&& shown.1 == Some((color, ((p + 1) % (BREATH_FRAMES as int)) as u32))
            &&& shown.0.g == (if color.g > 0 { level } else { 0 })
            &&& shown.0.r == (if color.r > 0 { level } else { 0 })
            &&& shown.0.b == (if color.b > 0 { level } else { 0 })
        }),
{
    assert(0int * 0int / 7 == 0) by (nonlinear_arith);
    let p = breath_phase(breath);
    assert(p % 30 == p);
    assert(0 <= spec_breath_level(p as int) <= 32) by {
        let up: int = if p <= 15 { p as int } else { 30 - p };
        assert(0 <= up * up / 7 <= 32) by (nonlinear_arith)
            requires 0 <= up <= 15;
    }
}

/// What the frame shows follows the effects: the inner pixel shows the red
/// blink during a low-battery alert, a steady colour as it is, and dark
/// when its effect is off and it is not finishing a breath; likewise the
/// outer pixel.
pub proof fn law_frame_follows_effects(s: IndicatorView, color: Grb)
    ensures
        s.inner_effect() == LightEffect::LowBattery ==> s.frame_colors().0 == (if blink_lit(s.tick) {
            Grb { g: 0, r: LEVEL, b: 0 }
        } else {
            Grb { g: 0, r: 0, b: 0 }
        }),
        s.inner_effect() == LightEffect::Solid(color) ==> s.frame_colors().0 == color,
        s.inner_effect() == LightEffect::Off && s.inner_breath is None ==> s.frame_colors().0 == (Grb { g: 0, r: 0, b: 0 }),
        s.outer_effect() == LightEffect::Solid(color) ==> s.frame_colors().1 == color,
        s.outer_effect() == LightEffect::Off && s.outer_breath is None ==> s.frame_colors().1 == (Grb { g: 0, r: 0, b: 0 }),
{
}

/// Split-link events: the half that owns the link records its new state,
/// and any change of it restarts the link timer (so a link that comes up
/// shows its notice and a link that drops breathes again); a report of the
/// same state changes nothing; the other half ignores the event.
pub proof fn law_split_link_events(s: IndicatorView, id: usize, connected: bool)
    ensures
        ({
            let t = if s.role == Role::Peripheral {
                s.after_event(ControllerEvent::SplitCentral(connected))
            } else {
                s.after_event(ControllerEvent::SplitPeripheral(id, connected))
            };
            &&& t.peer_connected == connected
            &&& (connected != s.peer_connected ==> t.peer_frame == 0)
            &&& (connected == s.peer_connected ==> t == s)
            &&& t.ble_frame == s.ble_frame && t.role == s.role && t.battery == s.battery
        }),
        s.role == Role::Peripheral ==> s.after_event(ControllerEvent::SplitPeripheral(id, connected)) == s,
        s.role == Role::Central ==> s.after_event(ControllerEvent::SplitCentral(connected)) == s,
{
}

/// Host-link events on the central half record the link state and profile;
/// any change of them restarts the outer timer, a repeat changes nothing.
/// The peripheral half ignores them.
pub proof fn law_host_link_events(s: IndicatorView, profile: u8, state: BleState)
    ensures
        s.role == Role::Central ==> ({
            let t = s.after_event(ControllerEvent::BleState(profile, state));
            let connected = state == BleState::Connected;
            let advertising = state == BleState::Advertising;
            &&& t.ble_connected == connected
            &&& t.ble_advertising == advertising
            &&& t.ble_profile == profile
            &&& ((connected != s.ble_connected || advertising != s.ble_advertising || profile != s.ble_profile) ==> t.ble_frame == 0)
            &&& ((connected == s.ble_connected && advertising == s.ble_advertising && profile == s.ble_profile) ==> t == s)
            &&& t.peer_frame == s.peer_frame && t.peer_connected == s.peer_connected
        }),
        s.role == Role::Central ==> ({
            let t = s.after_event(ControllerEvent::BleProfile(profile));
            &&& t.ble_profile == profile
            &&& (profile != s.ble_profile ==> t.ble_frame == 0)
            &&& (profile == s.ble_profile ==> t == s)
        }),
        s.role == Role::Peripheral ==> s.after_event(ControllerEvent::BleState(profile, state)) == s,
        s.role == Role::Peripheral ==> s.after_event(ControllerEvent::BleProfile(profile)) == s,
{
}

/// Charging and sleep events: a change of charging restarts the charge
/// timer; waking up restarts both link timers; going to sleep, or a repeat,
/// only records the state.
pub proof fn law_charging_and_sleep_events(s: IndicatorView, charging: bool, sleeping: bool)
    ensures
        ({
            let t = s.after_event(ControllerEvent::ChargingState(charging));
            &&& t.charging == charging
            &&& (charging != s.charging ==> t.charge_frame == 0)
            &&& (charging == s.charging ==> t == s)
        }),
        ({
            let t = s.after_event(ControllerEvent::Sleep(sleeping));
            &&& t.sleeping == sleeping
            &&& (s.sleeping && !sleeping ==> t.ble_frame == 0 && t.peer_frame == 0)
            &&& (!(s.sleeping && !sleeping) ==> t.ble_frame == s.ble_frame && t.peer_frame == s.peer_frame)
            &&& t.charging == s.charging && t.battery == s.battery && t.ble_connected == s.ble_connected
        }),
        s.after_event(ControllerEvent::Other) == s,
{
}

/// Battery events record the level. Falling into the low range starts an
/// alert at once; a level above it ends any alert; a low level reported
/// again leaves the alert timers alone. Reaching full while charging
/// restarts the full-charge notice.
pub proof fn law_battery_events(s: IndicatorView, level: u8)
    ensures
        ({
            let t = s.after_event(ControllerEvent::Battery(level));
            &&& t.battery == Some(level)
            &&& (level <= BATTERY_LOW && !level_at_most(s.battery, BATTERY_LOW) ==> t.low_alert_frame == 0 && t.low_reminder_frame == 0)
            &&& (level > BATTERY_LOW ==> t.low_alert_frame == LOW_ALERT_FRAMES && t.low_reminder_frame == 0)
            &&& (level <= BATTERY_LOW && level_at_most(s.battery, BATTERY_LOW) ==> t.low_alert_frame == s.low_alert_frame && t.low_reminder_frame == s.low_reminder_frame)
            &&& (s.charging && level >= BATTERY_FULL && !level_at_least(s.battery, BATTERY_FULL) ==> t.charge_frame == 0)
            &&& (!(s.charging && level >= BATTERY_FULL && !level_at_least(s.battery, BATTERY_FULL)) ==> t.charge_frame == s.charge_frame)
            &&& t.charging == s.charging && t.role == s.role && t.ble_frame == s.ble_frame && t.peer_frame == s.peer_frame
        }),
{
}

/// Frames passing: the tick wraps round, the link and charge timers
/// saturate, the sample counter goes round its cycle, the link state stays;
/// outside the low range the alert timers rest.
pub proof fn law_frames_pass(s: IndicatorView, frames: u32)
    ensures
        ({
            let t = s.advanced(frames);
            &&& t.tick as int == (s.tick + frames) % 0x1_0000_0000
            &&& t.ble_frame as int == if s.ble_frame + frames > u32::MAX { u32::MAX as int } else { s.ble_frame + frames }
            &&& t.peer_frame as int == if s.peer_frame + frames > u32::MAX { u32::MAX as int } else { s.peer_frame + frames }
            &&& t.charge_frame as int == if s.charge_frame + frames > u32::MAX { u32::MAX as int } else { s.charge_frame + frames }
            &&& t.battery_sample_frame == (s.battery_sample_frame + frames) % (BATTERY_SAMPLE_FRAMES as int)
            &&& t.role == s.role && t.battery == s.battery && t.charging == s.charging
            &&& t.ble_connected == s.ble_connected && t.peer_connected == s.peer_connected
            &&& (!level_at_most(s.battery, BATTERY_LOW) ==> t.low_alert_frame == LOW_ALERT_FRAMES && t.low_reminder_frame == 0)
        }),
{
    assert(s.tick.wrapping_add(frames) as int == (s.tick + frames) % 0x1_0000_0000) by {
        if s.tick + frames > u32::MAX {
            assert((s.tick + frames) % 0x1_0000_0000 == s.tick + frames - 0x1_0000_0000);
        }
    }
}

/// The battery gauge: above the full reading (4.755 V behind the divider)
/// it reads 100; below the empty one (4.055 V) it reads 0; in between it is
/// one percent per 7 millivolts of the undivided voltage above 4.055 V,
/// rounded down, and never negative.
pub proof fn law_battery_percent(val: int)
    ensures
        val * (ADC_DIVIDER_TOTAL as int) > 4755 * (ADC_DIVIDER_MEASURED as int) + (ADC_DIVIDER_TOTAL as int) - 1
            ==> spec_battery_percent(val) == 100,
        val * (ADC_DIVIDER_TOTAL as int) < 4055 * (ADC_DIVIDER_MEASURED as int) - (ADC_DIVIDER_TOTAL as int)
            ==> spec_battery_percent(val) == 0,
        ({
            let mv = val * (ADC_DIVIDER_TOTAL as int) / (ADC_DIVIDER_MEASURED as int);
            let p = spec_battery_percent(val);
            &&& 2890 <= val <= 3389 && mv < 4055 ==> p == 0
            &&& 2890 <= val <= 3389 && mv >= 4055 ==> 7 * p <= mv - 4055 < 7 * (p + 1)
        }),
        0 <= spec_battery_percent(val) <= 100,
{
    lemma_battery_percent_range(val);
    assert(4755 * 2000 / 2806 == 3389);
    assert(4055 * 2000 / 2806 == 2890);
    if val * 2806 > 4755 * 2000 + 2805 {
        assert(val > 3389) by (nonlinear_arith)
            requires val * 2806 > 4755 * 2000 + 2805;
    }
    if val * 2806 < 4055 * 2000 - 2806 {
        assert(val < 2890) by (nonlinear_arith)
            requires val * 2806 < 4055 * 2000 - 2806;
    }
}

/// What a render plan asks of the hardware: a frame equal to the last one
/// shown is not sent; any other frame is sent, decodes to the two colours,
/// is preceded by powering the rail up exactly when something is lit and
/// the rail was down, and followed by powering it down exactly when nothing
/// is lit; afterwards the rail is on exactly when something is lit.
pub proof fn law_render_plan(s: IndicatorView, inner: Grb, outer: Grb, plan: Option<RenderPlan>)
    requires
        s.plan_matches(inner, outer, plan),
    ensures
        ({
            let lit = inner.g != 0 || inner.r != 0 || inner.b != 0 || outer.g != 0 || outer.r != 0 || outer.b != 0;
            &&& (s.last == Some((inner, outer)) ==> plan is None)
            &&& (s.last != Some((inner, outer)) ==> {
                &&& plan is Some
                &&& decode_frame(plan.unwrap().frame@) == (inner, outer)
                &&& plan.unwrap().rail_up == (lit && !s.rail_on)
                &&& plan.unwrap().rail_down == !lit
                &&& s.rendered(inner, outer).rail_on == lit
                &&& s.rendered(inner, outer).last == Some((inner, outer))
            })
        }),
{
    crate::frame::lemma_frame_round_trip(inner, outer);
}

} // verus!
