use vstd::prelude::*;
use crate::breath::{lemma_breath_shape, spec_breath_level, BREATH_FRAMES};
use crate::color::{Grb, LightEffect};
use crate::indicator::{
    adc_empty, adc_full, breath_color, breath_phase, sample_due, spec_battery_percent, trunc_div,
    ControllerEvent, IndicatorView, Role, ACTIVITY_FRAMES, BATTERY_FULL, BATTERY_LOW, BATTERY_SAMPLE_FRAMES,
    IDLE_FRAMES, IDLE_POLL_INTERVAL_MS, LOW_ALERT_FRAMES, LOW_REMINDER_FRAMES, NOTICE_FRAMES,
    POLL_INTERVAL_MS,
};

verus! {

/// The state after a run of updates, each given whether USB power is present
/// and the battery reading on offer.
pub open spec fn updated_seq(s: IndicatorView, inputs: Seq<(bool, Option<i16>)>) -> IndicatorView
    decreases inputs.len(),
{
    if inputs.len() == 0 {
        s
    } else {
        updated_seq(s.updated(inputs[0].0, inputs[0].1), inputs.drop_first())
    }
}

/// The state after `n` single frames.
pub open spec fn advanced_n(s: IndicatorView, n: nat) -> IndicatorView
    decreases n,
{
    if n == 0 {
        s
    } else {
        advanced_n(s.advanced(1), (n - 1) as nat)
    }
}

/// The state after `n` steps of the low-battery timers.
pub open spec fn low_timers_n(s: IndicatorView, n: nat) -> IndicatorView
    decreases n,
{
    if n == 0 {
        s
    } else {
        low_timers_n(s.low_battery_timers_advanced(), (n - 1) as nat)
    }
}

/// Where a low battery stands in its alert cycle: the alert runs over
/// phases `0 .. LOW_ALERT_FRAMES`, the wait for the next one over the rest.
pub open spec fn low_phase(s: IndicatorView) -> int {
    s.low_alert_frame + s.low_reminder_frame
}

/// Length of one low-battery cycle: the alert and the wait after it.
pub open spec fn low_cycle() -> int {
    LOW_ALERT_FRAMES + LOW_REMINDER_FRAMES
}

/// A battery reading, if any, that keeps the battery in the low range.
pub open spec fn keeps_low(sample: Option<i16>) -> bool {
    match sample {
        Some(v) => spec_battery_percent(v as int) <= BATTERY_LOW,
        None => true,
    }
}

/// `t` has the link state, role and sleep state of `s`.
pub open spec fn same_links(s: IndicatorView, t: IndicatorView) -> bool {
    &&& t.role == s.role
    &&& t.sleeping == s.sleeping
    &&& t.ble_connected == s.ble_connected
    &&& t.ble_advertising == s.ble_advertising
    &&& t.ble_profile == s.ble_profile
    &&& t.peer_connected == s.peer_connected
}

/// The timer that drives the outer pixel: the host link's on the central
/// half, the split link's on the peripheral half.
pub open spec fn outer_counter(s: IndicatorView) -> u32 {
    match s.role {
        Role::Central => s.ble_frame,
        Role::Peripheral => s.peer_frame,
    }
}

/// Every operation keeps a well-formed state well formed.
pub proof fn lemma_wf_preserved(
    s: IndicatorView,
    event: ControllerEvent,
    usb_present: bool,
    sample: Option<i16>,
    inner: Grb,
    outer: Grb,
    frames: u32,
)
    requires
        s.wf(),
    ensures
        s.after_event(event).wf(),
        s.advanced(frames).wf(),
        s.rendered(inner, outer).wf(),
        s.breaths_stepped().wf(),
        s.updated(usb_present, sample).wf(),
{
    let u = s.update_inputs(usb_present, sample);
    assert(u.wf());
    let b = u.breaths_stepped();
    assert(b.wf());
    let r = b.rendered(u.frame_colors().0, u.frame_colors().1);
    assert(r.wf());
    assert(r.advanced(u.frames_per_update()).wf());
}

/// The battery percentage never leaves 0 ..= 100.
pub proof fn lemma_battery_percent_range(val: int)
    ensures
        0 <= spec_battery_percent(val) <= 100,
{
    assert(adc_full() == 3389);
    assert(adc_empty() == 2890);
    if adc_empty() <= val <= adc_full() {
        let x = val * 2806 / 2000;
        assert(4054 <= x <= 4754) by (nonlinear_arith)
            requires 2890 <= val <= 3389, x == val * 2806 / 2000;
    }
}

/// A higher battery reading never gives a lower percentage.
pub proof fn lemma_battery_percent_monotonic(a: int, b: int)
    requires
        a <= b,
    ensures
        spec_battery_percent(a) <= spec_battery_percent(b),
{
    lemma_battery_percent_range(a);
    lemma_battery_percent_range(b);
    assert(adc_full() == 3389);
    assert(adc_empty() == 2890);
    if adc_empty() <= a && b <= adc_full() {
        let x = a * 2806 / 2000;
        let y = b * 2806 / 2000;
        assert(x <= y) by (nonlinear_arith)
            requires a <= b, x == a * 2806 / 2000, y == b * 2806 / 2000;
        assert(4054 <= x) by (nonlinear_arith)
            requires 2890 <= a, x == a * 2806 / 2000;
        if x - 4055 >= 0 {
            assert((x - 4055) / 7 <= (y - 4055) / 7) by (nonlinear_arith)
                requires 0 <= x - 4055 <= y - 4055;
        }
        assert(trunc_div(x - 4055, 7) <= trunc_div(y - 4055, 7));
    }
}

/// Taking in USB power and a battery reading touches neither the links nor
/// the outer pixel nor the link timers.
pub proof fn lemma_inputs_keep_outer(s: IndicatorView, usb_present: bool, sample: Option<i16>)
    requires
        s.wf(),
    ensures
        ({
            let u = s.update_inputs(usb_present, sample);
            &&& u.wf()
            &&& same_links(s, u)
            &&& u.ble_frame == s.ble_frame
            &&& u.peer_frame == s.peer_frame
            &&& u.tick == s.tick
            &&& u.battery_sample_frame == s.battery_sample_frame
            &&& u.outer_effect() == s.outer_effect()
            &&& u.outer_breath == s.outer_breath
            &&& u.frame_colors().1 == s.frame_colors().1
            &&& u.pixel(u.outer_effect(), u.outer_breath) == s.pixel(s.outer_effect(), s.outer_breath)
        }),
{
    lemma_wf_preserved(s, ControllerEvent::Other, usb_present, sample, Grb::off(), Grb::off(), 1);
}

/// One awake update keeps the link state and the outer pixel's effect and
/// breath, moves every frame counter on by the frames it covers (one unless
/// everything is still settled dark once the inputs are in), and moves a low
/// battery that the reading keeps low one step round its alert cycle.
pub proof fn lemma_update_step(s: IndicatorView, usb_present: bool, sample: Option<i16>)
    requires
        s.wf(),
        !s.sleeping,
    ensures
        ({
            let t = s.updated(usb_present, sample);
            let u = s.update_inputs(usb_present, sample);
            let k = u.frames_per_update();
            &&& t.wf()
            &&& same_links(s, t)
            &&& u.outer_effect() == s.outer_effect()
            &&& u.outer_breath == s.outer_breath
            &&& u.frame_colors().1 == s.frame_colors().1
            &&& (!u.settled() ==> k == 1)
            &&& (u.outer_effect() != LightEffect::Off ==> k == 1)
            &&& t.outer_breath == s.pixel(s.outer_effect(), s.outer_breath).1
            &&& t.ble_frame == s.ble_frame.saturating_add(k)
            &&& t.peer_frame == s.peer_frame.saturating_add(k)
            &&& t.battery_sample_frame == (s.battery_sample_frame + k) % (BATTERY_SAMPLE_FRAMES as int)
            &&& (s.battery_at_most(BATTERY_LOW) && keeps_low(sample)) ==> {
                &&& t.battery_at_most(BATTERY_LOW)
                &&& low_phase(t) == (low_phase(s) + 1) % low_cycle()
            }
        }),
{
    lemma_wf_preserved(s, ControllerEvent::Other, usb_present, sample, Grb::off(), Grb::off(), 1);
    lemma_inputs_keep_outer(s, usb_present, sample);
    let u = s.update_inputs(usb_present, sample);
    let k = u.frames_per_update();
    match sample {
        Some(v) => lemma_battery_percent_range(v as int),
        None => {},
    }
    if s.battery_at_most(BATTERY_LOW) && keeps_low(sample) {
        assert(low_cycle() == 3050);
        assert(k == 1);
        assert(u.battery_at_most(BATTERY_LOW));
        assert(u.low_alert_frame == s.low_alert_frame && u.low_reminder_frame == s.low_reminder_frame);
        let r = u.breaths_stepped().rendered(u.frame_colors().0, u.frame_colors().1);
        let t = s.updated(usb_present, sample);
        assert(t == r.advanced(1));
        assert(r.low_alert_frame == s.low_alert_frame && r.low_reminder_frame == s.low_reminder_frame);
        if s.low_alert_frame < LOW_ALERT_FRAMES {
            assert(s.low_reminder_frame == 0);
            assert(low_phase(t) == low_phase(s) + 1);
            assert(0 <= low_phase(s) + 1 < low_cycle());
        } else if s.low_reminder_frame + 1 >= LOW_REMINDER_FRAMES {
            assert(low_phase(t) == 0);
            assert(low_phase(s) + 1 == low_cycle());
        } else {
            assert(low_phase(t) == low_phase(s) + 1);
            assert(0 <= low_phase(s) + 1 < low_cycle());
        }
    }
}

/// A run of awake updates keeps the link state. While the outer pixel's
/// effect is not off, updates cover one frame each, so its timer counts the
/// updates exactly up to `limit`, and stays at or past `limit` after.
pub proof fn lemma_outer_run(s: IndicatorView, inputs: Seq<(bool, Option<i16>)>, limit: u32)
    requires
        s.wf(),
        !s.sleeping,
        limit <= ACTIVITY_FRAMES,
        forall|t: IndicatorView|
            same_links(s, t) && outer_counter(t) < limit ==> #[trigger] t.outer_effect() != LightEffect::Off,
    ensures
        ({
            let t = updated_seq(s, inputs);
            &&& t.wf()
            &&& same_links(s, t)
            &&& (outer_counter(s) + inputs.len() <= limit ==> outer_counter(t) == outer_counter(s) + inputs.len())
            &&& (outer_counter(s) + inputs.len() >= limit ==> outer_counter(t) >= limit)
        }),
    decreases inputs.len(),
{
    if inputs.len() > 0 {
        let s1 = s.updated(inputs[0].0, inputs[0].1);
        lemma_update_step(s, inputs[0].0, inputs[0].1);
        if outer_counter(s) < limit {
            assert(s.outer_effect() != LightEffect::Off);
            assert(outer_counter(s1) == outer_counter(s) + 1);
        } else {
            assert(outer_counter(s1) >= limit);
        }
        assert forall|t: IndicatorView|
            same_links(s1, t) && outer_counter(t) < limit implies #[trigger] t.outer_effect() != LightEffect::Off by {
            assert(same_links(s, t));
        }
        lemma_outer_run(s1, inputs.drop_first(), limit);
    }
}

/// The central half shows a new host connection in the profile colour for
/// `NOTICE_FRAMES` updates (3 s), then goes dark, whatever the inputs.
pub proof fn lemma_host_connection_notice(s: IndicatorView, inputs: Seq<(bool, Option<i16>)>)
    requires
        s.wf(),
        !s.sleeping,
        s.role == Role::Central,
        s.ble_connected,
        s.ble_frame == 0,
    ensures
        updated_seq(s, inputs).outer_effect() == if inputs.len() < NOTICE_FRAMES {
            LightEffect::Solid(s.profile_color())
        } else {
            LightEffect::Off
        },
{
    assert forall|t: IndicatorView|
        same_links(s, t) && outer_counter(t) < NOTICE_FRAMES implies #[trigger] t.outer_effect() != LightEffect::Off by {}
    lemma_outer_run(s, inputs, NOTICE_FRAMES);
}

/// The central half breathes the profile colour while advertising for
/// `ACTIVITY_FRAMES` updates (60 s), then its effect is off, whatever the
/// inputs.
pub proof fn lemma_advertising_timeout(s: IndicatorView, inputs: Seq<(bool, Option<i16>)>)
    requires
        s.wf(),
        !s.sleeping,
        s.role == Role::Central,
        !s.ble_connected,
        s.ble_advertising,
        s.ble_frame == 0,
    ensures
        updated_seq(s, inputs).outer_effect() == if inputs.len() < ACTIVITY_FRAMES {
            LightEffect::Breath(s.profile_color())
        } else {
            LightEffect::Off
        },
{
    assert forall|t: IndicatorView|
        same_links(s, t) && outer_counter(t) < ACTIVITY_FRAMES implies #[trigger] t.outer_effect() != LightEffect::Off by {}
    lemma_outer_run(s, inputs, ACTIVITY_FRAMES);
}

/// The peripheral half shows a new split link in blue for `NOTICE_FRAMES`
/// updates, then goes dark, whatever the inputs.
pub proof fn lemma_split_link_notice(s: IndicatorView, inputs: Seq<(bool, Option<i16>)>)
    requires
        s.wf(),
        !s.sleeping,
        s.role == Role::Peripheral,
        s.peer_connected,
        s.peer_frame == 0,
    ensures
        updated_seq(s, inputs).outer_effect() == if inputs.len() < NOTICE_FRAMES {
            LightEffect::Solid(Grb::blue())
        } else {
            LightEffect::Off
        },
{
    assert forall|t: IndicatorView|
        same_links(s, t) && outer_counter(t) < NOTICE_FRAMES implies #[trigger] t.outer_effect() != LightEffect::Off by {}
    lemma_outer_run(s, inputs, NOTICE_FRAMES);
}

/// The peripheral half breathes blue for `ACTIVITY_FRAMES` updates after
/// losing the split link, then its effect is off, whatever the inputs.
pub proof fn lemma_split_link_timeout(s: IndicatorView, inputs: Seq<(bool, Option<i16>)>)
    requires
        s.wf(),
        !s.sleeping,
        s.role == Role::Peripheral,
        !s.peer_connected,
        s.peer_frame == 0,
    ensures
        updated_seq(s, inputs).outer_effect() == if inputs.len() < ACTIVITY_FRAMES {
            LightEffect::Breath(Grb::blue())
        } else {
            LightEffect::Off
        },
{
    assert forall|t: IndicatorView|
        same_links(s, t) && outer_counter(t) < ACTIVITY_FRAMES implies #[trigger] t.outer_effect() != LightEffect::Off by {}
    lemma_outer_run(s, inputs, ACTIVITY_FRAMES);
}

/// The breath state that an outer pixel has `m` frames after a breath in
/// `color` began at dark with its timer at 0, up to the timeout and after.
pub open spec fn breath_at(color: Grb, m: int) -> Option<(Grb, u32)> {
    if m == 0 || m > ACTIVITY_FRAMES {
        None
    } else {
        Some((color, (m % (BREATH_FRAMES as int)) as u32))
    }
}

/// A run of awake updates through an outer notice in `color`: while the
/// outer timer is below `limit` the pixel shows `color`, after that it is
/// dark, and after the first update it carries no breath.
pub proof fn lemma_outer_solid_run(s: IndicatorView, inputs: Seq<(bool, Option<i16>)>, limit: u32, color: Grb)
    requires
        s.wf(),
        !s.sleeping,
        limit <= ACTIVITY_FRAMES,
        s.outer_breath is None || outer_counter(s) < limit,
        forall|t: IndicatorView|
            same_links(s, t) ==> #[trigger] t.outer_effect() == if outer_counter(t) < limit {
                LightEffect::Solid(color)
            } else {
                LightEffect::Off
            },
    ensures
        ({
            let t = updated_seq(s, inputs);
            &&& t.wf()
            &&& same_links(s, t)
            &&& (outer_counter(s) + inputs.len() <= limit ==> outer_counter(t) == outer_counter(s) + inputs.len())
            &&& (outer_counter(s) + inputs.len() >= limit ==> outer_counter(t) >= limit)
            &&& (t.outer_breath is None || outer_counter(t) < limit)
        }),
    decreases inputs.len(),
{
    if inputs.len() > 0 {
        let s1 = s.updated(inputs[0].0, inputs[0].1);
        lemma_update_step(s, inputs[0].0, inputs[0].1);
        assert(s.outer_effect() == if outer_counter(s) < limit { LightEffect::Solid(color) } else { LightEffect::Off });
        assert(s1.outer_breath is None);
        if outer_counter(s) < limit {
            assert(outer_counter(s1) == outer_counter(s) + 1);
        } else {
            assert(outer_counter(s1) >= limit);
        }
        assert forall|t: IndicatorView| same_links(s1, t) implies #[trigger] t.outer_effect() == if outer_counter(t) < limit {
            LightEffect::Solid(color)
        } else {
            LightEffect::Off
        } by {
            assert(same_links(s, t));
        }
        lemma_outer_solid_run(s1, inputs.drop_first(), limit, color);
    }
}

/// One awake update of an outer breath run keeps it on its schedule.
#[verifier::rlimit(80)]
proof fn lemma_outer_breath_step(s: IndicatorView, usb_present: bool, sample: Option<i16>, color: Grb)
    requires
        s.wf(),
        !s.sleeping,
        outer_counter(s) <= ACTIVITY_FRAMES ==> s.outer_breath == breath_at(color, outer_counter(s) as int),
        outer_counter(s) > ACTIVITY_FRAMES ==> s.outer_breath is None,
        s.outer_effect() == if outer_counter(s) < ACTIVITY_FRAMES {
            LightEffect::Breath(color)
        } else {
            LightEffect::Off
        },
    ensures
        ({
            let s1 = s.updated(usb_present, sample);
            let m = outer_counter(s);
            &&& s1.wf()
            &&& same_links(s, s1)
            &&& (m < ACTIVITY_FRAMES ==> outer_counter(s1) == m + 1)
            &&& (m >= ACTIVITY_FRAMES ==> outer_counter(s1) > ACTIVITY_FRAMES)
            &&& (outer_counter(s1) <= ACTIVITY_FRAMES ==> s1.outer_breath == breath_at(color, outer_counter(s1) as int))
            &&& (outer_counter(s1) > ACTIVITY_FRAMES ==> s1.outer_breath is None)
        }),
{
    let s1 = s.updated(usb_present, sample);
    lemma_update_step(s, usb_present, sample);
    let m = outer_counter(s);
    let next = s.pixel(s.outer_effect(), s.outer_breath).1;
    assert(s1.outer_breath == next);
    if m < ACTIVITY_FRAMES {
        assert(outer_counter(s1) == m + 1);
        assert(breath_phase(s.outer_breath) == m % 30);
        assert((m % 30 + 1) % 30 == (m + 1) % 30);
        assert(s1.outer_breath == breath_at(color, m + 1));
    } else if m == ACTIVITY_FRAMES {
        assert(s.outer_breath == Some((color, 0u32)));
        assert(s1.outer_breath is None);
    } else {
        assert(s1.outer_breath is None);
    }
}

/// A run of awake updates through an outer breath in `color` that began at
/// dark with its timer at 0: up to `ACTIVITY_FRAMES` the pixel breathes in
/// step with its timer, at the timeout it is at dark and it stays dark.
pub proof fn lemma_outer_breath_run(s: IndicatorView, inputs: Seq<(bool, Option<i16>)>, color: Grb)
    requires
        s.wf(),
        !s.sleeping,
        outer_counter(s) <= ACTIVITY_FRAMES ==> s.outer_breath == breath_at(color, outer_counter(s) as int),
        outer_counter(s) > ACTIVITY_FRAMES ==> s.outer_breath is None,
        forall|t: IndicatorView|
            same_links(s, t) ==> #[trigger] t.outer_effect() == if outer_counter(t) < ACTIVITY_FRAMES {
                LightEffect::Breath(color)
            } else {
                LightEffect::Off
            },
    ensures
        ({
            let t = updated_seq(s, inputs);
            &&& t.wf()
            &&& same_links(s, t)
            &&& (outer_counter(s) + inputs.len() <= ACTIVITY_FRAMES ==> outer_counter(t) == outer_counter(s) + inputs.len())
            &&& (outer_counter(s) + inputs.len() > ACTIVITY_FRAMES ==> outer_counter(t) > ACTIVITY_FRAMES)
            &&& (outer_counter(t) <= ACTIVITY_FRAMES ==> t.outer_breath == breath_at(color, outer_counter(t) as int))
            &&& (outer_counter(t) > ACTIVITY_FRAMES ==> t.outer_breath is None)
        }),
    decreases inputs.len(),
{
    if inputs.len() > 0 {
        let s1 = s.updated(inputs[0].0, inputs[0].1);
        lemma_outer_breath_step(s, inputs[0].0, inputs[0].1, color);
        assert forall|t: IndicatorView| same_links(s1, t) implies #[trigger] t.outer_effect() == if outer_counter(t) < ACTIVITY_FRAMES {
            LightEffect::Breath(color)
        } else {
            LightEffect::Off
        } by {
            assert(same_links(s, t));
        }
        lemma_outer_breath_run(s1, inputs.drop_first(), color);
    }
}

/// What the render gets for the outer pixel over a host connection notice:
/// the profile colour in the first `NOTICE_FRAMES` updates, dark in every
/// later one, whatever the inputs.
pub proof fn lemma_host_connection_colours(s: IndicatorView, inputs: Seq<(bool, Option<i16>)>, usb_present: bool, sample: Option<i16>)
    requires
        s.wf(),
        !s.sleeping,
        s.role == Role::Central,
        s.ble_connected,
        s.ble_frame == 0,
    ensures
        updated_seq(s, inputs).update_inputs(usb_present, sample).frame_colors().1 == if inputs.len() < NOTICE_FRAMES {
            s.profile_color()
        } else {
            Grb::off()
        },
{
    let c = s.profile_color();
    assert forall|t: IndicatorView| same_links(s, t) implies #[trigger] t.outer_effect() == if outer_counter(t) < NOTICE_FRAMES {
        LightEffect::Solid(c)
    } else {
        LightEffect::Off
    } by {}
    lemma_outer_solid_run(s, inputs, NOTICE_FRAMES, c);
    let t = updated_seq(s, inputs);
    lemma_inputs_keep_outer(t, usb_present, sample);
}

/// What the render gets for the outer pixel when the split link comes up on
/// the peripheral half: blue in the first `NOTICE_FRAMES` updates, dark in
/// every later one, whatever the inputs.
pub proof fn lemma_split_link_colours(s: IndicatorView, inputs: Seq<(bool, Option<i16>)>, usb_present: bool, sample: Option<i16>)
    requires
        s.wf(),
        !s.sleeping,
        s.role == Role::Peripheral,
        s.peer_connected,
        s.peer_frame == 0,
    ensures
        updated_seq(s, inputs).update_inputs(usb_present, sample).frame_colors().1 == if inputs.len() < NOTICE_FRAMES {
            Grb::blue()
        } else {
            Grb::off()
        },
{
    assert forall|t: IndicatorView| same_links(s, t) implies #[trigger] t.outer_effect() == if outer_counter(t) < NOTICE_FRAMES {
        LightEffect::Solid(Grb::blue())
    } else {
        LightEffect::Off
    } by {}
    lemma_outer_solid_run(s, inputs, NOTICE_FRAMES, Grb::blue());
    let t = updated_seq(s, inputs);
    lemma_inputs_keep_outer(t, usb_present, sample);
}

/// The outer colour of a breath run that is `m` frames in.
proof fn lemma_breath_run_colour(t: IndicatorView, color: Grb, m: int)
    requires
        t.wf(),
        m == outer_counter(t),
        m <= ACTIVITY_FRAMES ==> t.outer_breath == breath_at(color, m),
        m > ACTIVITY_FRAMES ==> t.outer_breath is None,
        t.outer_effect() == if m < ACTIVITY_FRAMES { LightEffect::Breath(color) } else { LightEffect::Off },
    ensures
        t.frame_colors().1 == if m < ACTIVITY_FRAMES {
            breath_color(color, (m % (BREATH_FRAMES as int)) as u32)
        } else {
            Grb::off()
        },
{
}

/// What the render gets for the outer pixel while the central half
/// advertises: the breath in the profile colour, in step with the update
/// count from dark, for the first `ACTIVITY_FRAMES` updates; dark in every
/// later one, whatever the inputs.
pub proof fn lemma_advertising_colours(s: IndicatorView, inputs: Seq<(bool, Option<i16>)>, usb_present: bool, sample: Option<i16>)
    requires
        s.wf(),
        !s.sleeping,
        s.role == Role::Central,
        !s.ble_connected,
        s.ble_advertising,
        s.ble_frame == 0,
        s.outer_breath is None,
    ensures
        updated_seq(s, inputs).update_inputs(usb_present, sample).frame_colors().1 == if inputs.len() < ACTIVITY_FRAMES {
            breath_color(s.profile_color(), ((inputs.len() as int) % (BREATH_FRAMES as int)) as u32)
        } else {
            Grb::off()
        },
{
    let c = s.profile_color();
    assert forall|t: IndicatorView| same_links(s, t) implies #[trigger] t.outer_effect() == if outer_counter(t) < ACTIVITY_FRAMES {
        LightEffect::Breath(c)
    } else {
        LightEffect::Off
    } by {}
    lemma_outer_breath_run(s, inputs, c);
    let t = updated_seq(s, inputs);
    lemma_inputs_keep_outer(t, usb_present, sample);
    assert(same_links(s, t));
    lemma_breath_run_colour(t, c, outer_counter(t) as int);
}

/// What the render gets for the outer pixel after the split link drops on
/// the peripheral half: the blue breath, in step with the update count from
/// dark, for the first `ACTIVITY_FRAMES` updates; dark in every later one.
pub proof fn lemma_split_link_timeout_colours(s: IndicatorView, inputs: Seq<(bool, Option<i16>)>, usb_present: bool, sample: Option<i16>)
    requires
        s.wf(),
        !s.sleeping,
        s.role == Role::Peripheral,
        !s.peer_connected,
        s.peer_frame == 0,
        s.outer_breath is None,
    ensures
        updated_seq(s, inputs).update_inputs(usb_present, sample).frame_colors().1 == if inputs.len() < ACTIVITY_FRAMES {
            breath_color(Grb::blue(), ((inputs.len() as int) % (BREATH_FRAMES as int)) as u32)
        } else {
            Grb::off()
        },
{
    assert forall|t: IndicatorView| same_links(s, t) implies #[trigger] t.outer_effect() == if outer_counter(t) < ACTIVITY_FRAMES {
        LightEffect::Breath(Grb::blue())
    } else {
        LightEffect::Off
    } by {}
    lemma_outer_breath_run(s, inputs, Grb::blue());
    let t = updated_seq(s, inputs);
    lemma_inputs_keep_outer(t, usb_present, sample);
    assert(same_links(s, t));
    lemma_breath_run_colour(t, Grb::blue(), outer_counter(t) as int);
}

/// A battery reading, if any, that keeps the battery full.
pub open spec fn keeps_full(sample: Option<i16>) -> bool {
    match sample {
        Some(v) => spec_battery_percent(v as int) >= BATTERY_FULL,
        None => true,
    }
}

/// Every update of a run finds USB power and a reading that keeps the
/// battery full.
pub open spec fn charging_full_inputs(inputs: Seq<(bool, Option<i16>)>) -> bool {
    forall|i: int| 0 <= i < inputs.len() ==> (#[trigger] inputs[i]).0 && keeps_full(inputs[i].1)
}

/// The update that finds USB power on a full battery starts the green
/// notice: it shows green and lets exactly one frame pass, even when
/// everything had settled dark before.
pub proof fn lemma_plug_in_notice(s: IndicatorView, sample: Option<i16>)
    requires
        s.wf(),
        !s.sleeping,
        !s.charging,
        s.battery_at_least(BATTERY_FULL),
        keeps_full(sample),
    ensures
        ({
            let u = s.update_inputs(true, sample);
            let t = s.updated(true, sample);
            &&& u.charging && u.charge_frame == 0
            &&& u.inner_effect() == LightEffect::Solid(Grb::green())
            &&& u.frame_colors().0 == Grb::green()
            &&& u.frames_per_update() == 1
            &&& t.wf()
            &&& t.charging
            &&& t.battery_at_least(BATTERY_FULL)
            &&& t.charge_frame == 1
            &&& t.inner_breath is None
        }),
{
    lemma_wf_preserved(s, ControllerEvent::Other, true, sample, Grb::off(), Grb::off(), 1);
    match sample {
        Some(v) => lemma_battery_percent_range(v as int),
        None => {},
    }
}

/// One awake update while charging a full battery keeps it charging and
/// full, shows the inner pixel's current colour, and moves the charge timer
/// on by one while the notice lasts.
proof fn lemma_charge_step(s: IndicatorView, sample: Option<i16>)
    requires
        s.wf(),
        !s.sleeping,
        s.charging,
        s.battery_at_least(BATTERY_FULL),
        keeps_full(sample),
    ensures
        ({
            let u = s.update_inputs(true, sample);
            let t = s.updated(true, sample);
            &&& u.inner_effect() == s.inner_effect()
            &&& u.inner_breath == s.inner_breath
            &&& u.frame_colors().0 == s.frame_colors().0
            &&& t.wf()
            &&& t.charging
            &&& t.battery_at_least(BATTERY_FULL)
            &&& t.sleeping == s.sleeping
            &&& (s.charge_frame < NOTICE_FRAMES ==> t.charge_frame == s.charge_frame + 1)
            &&& t.charge_frame >= s.charge_frame
            &&& t.inner_breath == s.pixel(s.inner_effect(), s.inner_breath).1
        }),
{
    lemma_wf_preserved(s, ControllerEvent::Other, true, sample, Grb::off(), Grb::off(), 1);
    match sample {
        Some(v) => lemma_battery_percent_range(v as int),
        None => {},
    }
    let u = s.update_inputs(true, sample);
    assert(u.charge_frame == s.charge_frame);
    assert(u.inner_effect() == s.inner_effect());
}

/// While USB power stays and the battery stays full, the green full-charge
/// notice shows until the charge timer reaches `NOTICE_FRAMES`, one update
/// per frame, and the inner pixel is dark after: what the render gets for
/// the inner pixel in the update after the run is green exactly when the
/// timer and the run together stay below `NOTICE_FRAMES`.
pub proof fn lemma_charge_notice_run(s: IndicatorView, inputs: Seq<(bool, Option<i16>)>, sample: Option<i16>)
    requires
        s.wf(),
        !s.sleeping,
        s.charging,
        s.battery_at_least(BATTERY_FULL),
        s.inner_breath is None || s.charge_frame < NOTICE_FRAMES,
        charging_full_inputs(inputs),
        keeps_full(sample),
    ensures
        ({
            let t = updated_seq(s, inputs);
            &&& t.wf()
            &&& !t.sleeping
            &&& t.charging
            &&& t.battery_at_least(BATTERY_FULL)
            &&& t.inner_effect() == if s.charge_frame + inputs.len() < NOTICE_FRAMES {
                LightEffect::Solid(Grb::green())
            } else {
                LightEffect::Off
            }
            &&& t.update_inputs(true, sample).frame_colors().0 == if s.charge_frame + inputs.len() < NOTICE_FRAMES {
                Grb::green()
            } else {
                Grb::off()
            }
        }),
    decreases inputs.len(),
{
    lemma_charge_step(s, sample);
    if inputs.len() > 0 {
        let s1 = s.updated(true, inputs[0].1);
        assert(inputs[0].0 && keeps_full(inputs[0].1));
        assert(s.updated(inputs[0].0, inputs[0].1) == s1);
        lemma_charge_step(s, inputs[0].1);
        assert(s1.inner_breath is None);
        let rest = inputs.drop_first();
        assert forall|i: int| 0 <= i < rest.len() implies (#[trigger] rest[i]).0 && keeps_full(rest[i].1) by {
            assert(rest[i] == inputs[i + 1]);
        }
        lemma_charge_notice_run(s1, rest, sample);
    }
}

/// Switching the BLE profile while connected shows the new profile's colour
/// for `NOTICE_FRAMES` updates, then the outer pixel goes dark.
pub proof fn lemma_profile_switch_notice(s: IndicatorView, profile: u8, inputs: Seq<(bool, Option<i16>)>)
    requires
        s.wf(),
        !s.sleeping,
        s.role == Role::Central,
        s.ble_connected,
        profile != s.ble_profile,
    ensures
        ({
            let t = s.after_event(ControllerEvent::BleProfile(profile));
            &&& t.profile_color() == IndicatorView { ble_profile: profile, ..s }.profile_color()
            &&& updated_seq(t, inputs).outer_effect() == if inputs.len() < NOTICE_FRAMES {
                LightEffect::Solid(t.profile_color())
            } else {
                LightEffect::Off
            }
        }),
{
    let t = s.after_event(ControllerEvent::BleProfile(profile));
    lemma_wf_preserved(s, ControllerEvent::BleProfile(profile), false, None, Grb::off(), Grb::off(), 1);
    lemma_host_connection_notice(t, inputs);
}

/// Waking up shows a standing host connection again for `NOTICE_FRAMES`
/// updates.
pub proof fn lemma_wake_notice(s: IndicatorView, inputs: Seq<(bool, Option<i16>)>)
    requires
        s.wf(),
        s.sleeping,
        s.role == Role::Central,
        s.ble_connected,
    ensures
        updated_seq(s.after_event(ControllerEvent::Sleep(false)), inputs).outer_effect()
            == if inputs.len() < NOTICE_FRAMES {
            LightEffect::Solid(s.profile_color())
        } else {
            LightEffect::Off
        },
{
    let t = s.after_event(ControllerEvent::Sleep(false));
    lemma_wf_preserved(s, ControllerEvent::Sleep(false), false, None, Grb::off(), Grb::off(), 1);
    lemma_host_connection_notice(t, inputs);
}

/// On a low battery the alert runs exactly in the first `LOW_ALERT_FRAMES`
/// phases of the cycle.
pub proof fn lemma_low_alert_phase(s: IndicatorView)
    requires
        s.wf(),
        s.battery_at_most(BATTERY_LOW),
    ensures
        0 <= low_phase(s) < low_cycle(),
        (s.low_battery_effect() is Some) == (low_phase(s) < LOW_ALERT_FRAMES),
{
}

/// On a low battery, each step of the low-battery timers moves one phase
/// round the alert cycle; from the start of an alert, the alert is on
/// exactly in steps `n` with `n % 3050 < 50`: 5 s of alert every 5 min.
pub proof fn lemma_low_timer_cycle(s: IndicatorView, n: nat)
    requires
        s.wf(),
        s.battery_at_most(BATTERY_LOW),
    ensures
        low_timers_n(s, n).wf(),
        low_timers_n(s, n).battery == s.battery,
        low_phase(low_timers_n(s, n)) == (low_phase(s) + n) % low_cycle(),
        low_phase(s) == 0 ==> ((low_timers_n(s, n).low_battery_effect() is Some) == (n % (low_cycle() as nat) < LOW_ALERT_FRAMES)),
    decreases n,
{
    assert(low_cycle() == 3050);
    lemma_low_alert_phase(s);
    if n > 0 {
        let s1 = s.low_battery_timers_advanced();
        if s.low_alert_frame < LOW_ALERT_FRAMES {
            assert(low_phase(s1) == low_phase(s) + 1);
        } else if s.low_reminder_frame + 1 >= LOW_REMINDER_FRAMES {
            assert(low_phase(s1) == 0);
        } else {
            assert(low_phase(s1) == low_phase(s) + 1);
        }
        assert(low_phase(s1) == (low_phase(s) + 1) % 3050);
        lemma_low_timer_cycle(s1, (n - 1) as nat);
        assert(((low_phase(s) + 1) % 3050 + (n - 1)) % 3050 == (low_phase(s) + n) % 3050) by (nonlinear_arith)
            requires n >= 1;
    }
    lemma_low_alert_phase(low_timers_n(s, n));
}

/// While the battery stays low, every awake update moves one phase round
/// the alert cycle, whatever else happens.
pub proof fn lemma_low_battery_cycle(s: IndicatorView, inputs: Seq<(bool, Option<i16>)>)
    requires
        s.wf(),
        !s.sleeping,
        s.battery_at_most(BATTERY_LOW),
        forall|i: int| 0 <= i < inputs.len() ==> keeps_low(#[trigger] inputs[i].1),
    ensures
        updated_seq(s, inputs).battery_at_most(BATTERY_LOW),
        low_phase(updated_seq(s, inputs)) == (low_phase(s) + inputs.len()) % low_cycle(),
    decreases inputs.len(),
{
    lemma_low_alert_phase(s);
    if inputs.len() > 0 {
        let s1 = s.updated(inputs[0].0, inputs[0].1);
        lemma_update_step(s, inputs[0].0, inputs[0].1);
        let rest = inputs.drop_first();
        assert forall|i: int| 0 <= i < rest.len() implies keeps_low(#[trigger] rest[i].1) by {
            assert(rest[i] == inputs[i + 1]);
        }
        lemma_low_battery_cycle(s1, rest);
        assert(((low_phase(s) + 1) % 3050 + (inputs.len() - 1)) % 3050 == (low_phase(s) + inputs.len()) % 3050) by (nonlinear_arith)
            requires inputs.len() >= 1;
    }
}

/// Single frames move the sample counter round its cycle: after `n`
/// frames it is 0 exactly when `n` frames take it to a multiple of
/// `BATTERY_SAMPLE_FRAMES`, so exactly one of any 300 consecutive frames
/// starts a sample cycle (one sample per 30 s).
pub proof fn lemma_sample_cycle(s: IndicatorView, n: nat)
    requires
        s.wf(),
    ensures
        advanced_n(s, n).wf(),
        advanced_n(s, n).battery_sample_frame == (s.battery_sample_frame + n) % (BATTERY_SAMPLE_FRAMES as int),
        (advanced_n(s, n).battery_sample_frame == 0) == ((s.battery_sample_frame + n) % (BATTERY_SAMPLE_FRAMES as int) == 0),
    decreases n,
{
    if n > 0 {
        lemma_wf_preserved(s, ControllerEvent::Other, false, None, Grb::off(), Grb::off(), 1);
        lemma_sample_cycle(s.advanced(1), (n - 1) as nat);
        assert(((s.battery_sample_frame + 1) % 300 + (n - 1)) % 300 == (s.battery_sample_frame + n) % 300) by (nonlinear_arith)
            requires n >= 1;
    }
}

/// An update that covers `frames` frames from cycle position `counter`
/// takes a sample exactly when one of those frames starts a sample cycle.
pub proof fn lemma_sample_due_covers(counter: u32, frames: u32)
    requires
        counter < BATTERY_SAMPLE_FRAMES,
        1 <= frames <= BATTERY_SAMPLE_FRAMES,
    ensures
        sample_due(counter, frames) == exists|j: int| 0 <= j < frames && #[trigger] ((counter + j) % (BATTERY_SAMPLE_FRAMES as int)) == 0,
{
    if sample_due(counter, frames) {
        if counter == 0 {
            assert((counter + 0) % 300 == 0);
        } else {
            let j = 300 - counter;
            assert((counter + j) % 300 == 0);
        }
    }
    if exists|j: int| 0 <= j < frames && #[trigger] ((counter + j) % (BATTERY_SAMPLE_FRAMES as int)) == 0 {
        let j = choose|j: int| 0 <= j < frames && #[trigger] ((counter + j) % (BATTERY_SAMPLE_FRAMES as int)) == 0;
        assert(counter + j < 600);
        if counter != 0 {
            assert(counter + j == 300);
        }
    }
}

/// A pixel's breath fades in and out: it starts at dark, moves by at most
/// one curve step (4) from frame to frame, and once its effect is off it
/// breathes down to dark before it stops; the frame before it stops, at
/// the last phase of the breath, is dark too.
/// The breath curve is dark at its first and last phase.
proof fn lemma_breath_ends_dark()
    ensures
        spec_breath_level(0) == 0,
        spec_breath_level(29) == 0,
{
    assert(0int * 0int / 7 == 0) by (nonlinear_arith);
    assert(1int * 1int / 7 == 0) by (nonlinear_arith);
}

/// From one breath phase to the next, every channel moves by at most 4.
proof fn lemma_breath_color_step(color: Grb, p: u32)
    requires
        p < BREATH_FRAMES,
    ensures
        ({
            let a = breath_color(color, p);
            let b = breath_color(color, ((p + 1) % (BREATH_FRAMES as int)) as u32);
            &&& -4 <= b.g - a.g <= 4
            &&& -4 <= b.r - a.r <= 4
            &&& -4 <= b.b - a.b <= 4
        }),
{
    lemma_breath_shape();
    let q = ((p + 1) % (BREATH_FRAMES as int)) as u32;
    assert(p % 30 == p);
    assert(q % 30 == q);
    assert(-4 <= spec_breath_level((p as int + 1) % 30) - spec_breath_level(p as int) <= 4);
    assert(0 <= spec_breath_level(p as int) <= 32);
    assert(0 <= spec_breath_level(q as int) <= 32);
}

/// A pixel's breath fades in and out: it starts at dark, moves by at most
/// one curve step (4) from frame to frame, and once its effect is off it
/// breathes down to dark before it stops; the frame before it stops, at
/// the last phase of the breath, is dark too.
#[verifier::rlimit(40)]
pub proof fn lemma_breath_fades(s: IndicatorView, target: LightEffect, breath: Option<(Grb, u32)>, color: Grb)
    requires
        breath_phase(breath) < BREATH_FRAMES,
    ensures
        s.pixel(LightEffect::Breath(color), None).0 == Grb::off(),
        breath_color(color, (BREATH_FRAMES - 1) as u32) == Grb::off(),
        (breath is Some && s.pixel(target, breath).1 is None && target == LightEffect::Off) ==> {
            &&& s.pixel(target, breath).0 == Grb::off()
            &&& breath_phase(breath) == 0
        },
        forall|p: u32| p < BREATH_FRAMES ==> {
            let a = #[trigger] breath_color(color, p);
            let b = breath_color(color, ((p + 1) % (BREATH_FRAMES as int)) as u32);
            &&& -4 <= b.g - a.g <= 4
            &&& -4 <= b.r - a.r <= 4
            &&& -4 <= b.b - a.b <= 4
        },
{
    lemma_breath_ends_dark();
    assert forall|p: u32| p < BREATH_FRAMES implies {
        let a = #[trigger] breath_color(color, p);
        let b = breath_color(color, ((p + 1) % (BREATH_FRAMES as int)) as u32);
        &&& -4 <= b.g - a.g <= 4
        &&& -4 <= b.r - a.r <= 4
        &&& -4 <= b.b - a.b <= 4
    } by {
        lemma_breath_color_step(color, p);
    }
}

/// Once everything has settled dark, both pixels are dark, the next poll
/// comes after the idle tick and the update covers `IDLE_FRAMES` frames;
/// otherwise, while awake, polls come every `POLL_INTERVAL_MS` and cover
/// one frame.
pub proof fn lemma_idle_tick(s: IndicatorView)
    requires
        s.wf(),
    ensures
        s.settled() ==> s.frame_colors() == (Grb::off(), Grb::off()),
        s.settled() ==> s.next_poll_ms() == IDLE_POLL_INTERVAL_MS && s.frames_per_update() == IDLE_FRAMES,
        (!s.settled() && !s.sleeping) ==> s.next_poll_ms() == POLL_INTERVAL_MS && s.frames_per_update() == 1,
        IDLE_FRAMES * POLL_INTERVAL_MS == IDLE_POLL_INTERVAL_MS,
{
}

/// A frame equal to the last one shown is not sent again: showing the same
/// colours twice asks nothing of the hardware the second time.
pub proof fn lemma_render_once(s: IndicatorView, inner: Grb, outer: Grb)
    ensures
        s.rendered(inner, outer).rendered(inner, outer) == s.rendered(inner, outer),
        s.rendered(inner, outer).plan_matches(inner, outer, None),
{
}

/// Asleep, the first update darkens the pixels and later ones change
/// nothing and send nothing: no frame passes while asleep.
pub proof fn lemma_sleep_is_quiet(s: IndicatorView, usb1: bool, sample1: Option<i16>, usb2: bool, sample2: Option<i16>)
    requires
        s.sleeping,
    ensures
        s.updated(usb1, sample1).updated(usb2, sample2) == s.updated(usb1, sample1),
        s.updated(usb1, sample1).plan_matches(Grb::off(), Grb::off(), None),
        s.updated(usb1, sample1).tick == s.tick,
{
}

} // verus!
