//! Status-LED logic for a split keyboard with two WS2812 pixels per half: the
//! inner pixel reports charging, battery and split-link state, the outer one
//! the host link (or, on the peripheral half, the split link).
//!
//! Breathing follows a gamma curve and fades in and out: a pixel's breath
//! starts at dark and, once its effect is off, breathes down to dark before
//! it stops. Once every pixel has settled dark, the indicator asks for a
//! slow idle tick instead of the active poll period.
//!
//! Everything here is plain state and arithmetic. The driver that owns the
//! PWM, the LED power rail and the battery ADC feeds events and readings in,
//! and carries out the render plans that come back.

mod breath;
mod color;
mod frame;
mod indicator;
mod laws;
mod rules;

pub use breath::{
    breath_table, lemma_breath_shape, lemma_breath_values, spec_breath_level, BREATH_FRAMES, BREATH_GAMMA_DIV, BREATH_PEAK,
};
pub use color::{Grb, LightEffect, LEVEL};
pub use frame::{
    bit_word, byte_bit, decode_byte, decode_frame, encode, frame_bytes, lemma_frame_layout,
    lemma_frame_round_trip,
    spec_frame, word_bit, PWM_TOP, SEQ_BITS, SEQ_LEN, SEQ_RESET, W0, W1, WRESET,
};
pub use indicator::{
    adc_empty, adc_full, breath_color, breath_phase, sample_due, spec_battery_percent, trunc_div, BleState, ControllerEvent,
    IndicatorView, RenderPlan, Role, Ws2812Indicator, ACTIVITY_FRAMES, ADC_DIVIDER_MEASURED,
    ADC_DIVIDER_TOTAL, BATTERY_FULL, BATTERY_LOW, BATTERY_SAMPLE_FRAMES, FRAME_SEND_MS, IDLE_FRAMES, IDLE_POLL_INTERVAL_MS,
    LOW_ALERT_FRAMES, LOW_BLINK_PERIOD, LOW_REMINDER_FRAMES, NOTICE_FRAMES, POLL_INTERVAL_MS,
    RAIL_SETTLE_MS,
};
pub use laws::{
    advanced_n, breath_at, charging_full_inputs, keeps_full, keeps_low, lemma_charge_notice_run,
    lemma_plug_in_notice, lemma_advertising_colours, lemma_host_connection_colours,
    lemma_outer_breath_run, lemma_outer_solid_run, lemma_split_link_colours,
    lemma_split_link_timeout_colours, lemma_advertising_timeout, lemma_battery_percent_monotonic,
    lemma_battery_percent_range, lemma_breath_fades, lemma_host_connection_notice, lemma_idle_tick, lemma_inputs_keep_outer,
    lemma_low_alert_phase, lemma_low_battery_cycle, lemma_low_timer_cycle, lemma_outer_run,
    lemma_profile_switch_notice, lemma_render_once, lemma_sample_cycle, lemma_sample_due_covers,
    lemma_sleep_is_quiet, lemma_split_link_notice, lemma_split_link_timeout, lemma_update_step,
    lemma_wake_notice, lemma_wf_preserved, low_cycle, low_phase, low_timers_n, outer_counter,
    same_links, updated_seq,
};
pub use rules::{
    blink_lit, law_battery_events, law_charging_and_sleep_events, law_frame_follows_effects,
    law_battery_percent, law_frames_pass, law_host_link_events, law_render_plan, law_inner_charging, law_inner_not_charging, law_outer,
    law_outer_ignores_battery, law_pixel, law_split_link_events, level_at_least, level_at_most,
};
