use ws2812_indicator::{
    breath_table, encode, BleState, ControllerEvent, Grb, LightEffect, Role, Ws2812Indicator,
    BREATH_FRAMES, SEQ_BITS, SEQ_LEN, W0, W1, WRESET,
};

fn decode(frame: &[u16; SEQ_LEN]) -> (Grb, Grb) {
    let mut bytes = [0u8; 6];
    for (i, byte) in bytes.iter_mut().enumerate() {
        for j in 0..8 {
            if frame[8 * i + j] == W1 {
                *byte |= 0x80 >> j;
            }
        }
    }
    (
        Grb { g: bytes[0], r: bytes[1], b: bytes[2] },
        Grb { g: bytes[3], r: bytes[4], b: bytes[5] },
    )
}

fn central() -> Ws2812Indicator {
    Ws2812Indicator::new(Role::Central)
}

fn peripheral() -> Ws2812Indicator {
    Ws2812Indicator::new(Role::Peripheral)
}

#[test]
fn breath_table_is_a_gamma_curve() {
    let table = breath_table();
    let expected: [u8; BREATH_FRAMES] = [
        0, 0, 0, 1, 2, 3, 5, 7, 9, 11, 14, 17, 20, 24, 28, 32, 28, 24, 20, 17, 14, 11, 9, 7, 5, 3,
        2, 1, 0, 0,
    ];
    assert_eq!(table, expected);
    for i in 1..BREATH_FRAMES {
        assert_eq!(table[i], table[BREATH_FRAMES - i]);
    }
    for i in 1..15 {
        assert!(table[i + 1] - table[i] >= table[i] - table[i - 1]);
    }
}

#[test]
fn encode_dark_frame() {
    let mut buf = [0u16; SEQ_LEN];
    encode(&mut buf, Grb::off(), Grb::off());
    for k in 0..SEQ_BITS {
        assert_eq!(buf[k], W0);
    }
    for k in SEQ_BITS..SEQ_LEN {
        assert_eq!(buf[k], WRESET);
    }
}

#[test]
fn encode_sends_green_first_msb_first() {
    let mut buf = [0u16; SEQ_LEN];
    encode(&mut buf, Grb { g: 0x80, r: 0x01, b: 0 }, Grb { g: 0, r: 0, b: 0xff });
    assert_eq!(buf[0], W1);
    for k in 1..15 {
        assert_eq!(buf[k], W0);
    }
    assert_eq!(buf[15], W1);
    for k in 16..40 {
        assert_eq!(buf[k], W0);
    }
    for k in 40..48 {
        assert_eq!(buf[k], W1);
    }
    assert_eq!(buf[48], WRESET);
}

#[test]
fn encode_round_trips() {
    let colors = [
        (Grb::off(), Grb::off()),
        (Grb::red(), Grb::blue()),
        (Grb { g: 0xa5, r: 0x5a, b: 0x3c }, Grb { g: 0xff, r: 0x00, b: 0x81 }),
    ];
    for (inner, outer) in colors {
        let mut buf = [0u16; SEQ_LEN];
        encode(&mut buf, inner, outer);
        assert_eq!(decode(&buf), (inner, outer));
    }
}

#[test]
fn battery_percent_boundaries() {
    assert_eq!(Ws2812Indicator::battery_percent_from_adc(i16::MIN), 0);
    assert_eq!(Ws2812Indicator::battery_percent_from_adc(-5), 0);
    assert_eq!(Ws2812Indicator::battery_percent_from_adc(2889), 0);
    assert_eq!(Ws2812Indicator::battery_percent_from_adc(2890), 0);
    assert_eq!(Ws2812Indicator::battery_percent_from_adc(2897), 1);
    assert_eq!(Ws2812Indicator::battery_percent_from_adc(3140), 50);
    assert_eq!(Ws2812Indicator::battery_percent_from_adc(3389), 99);
    assert_eq!(Ws2812Indicator::battery_percent_from_adc(3390), 100);
    assert_eq!(Ws2812Indicator::battery_percent_from_adc(i16::MAX), 100);
}

#[test]
fn battery_percent_never_falls_as_the_reading_rises() {
    let mut prev = 0u8;
    for val in 2800i16..3500 {
        let p = Ws2812Indicator::battery_percent_from_adc(val);
        assert!(p >= prev);
        assert!(p <= 100);
        prev = p;
    }
}

#[test]
fn fresh_indicator_state() {
    let ind = central();
    let s = ind.state();
    assert_eq!(s.role, Role::Central);
    assert_eq!(s.battery, None);
    assert!(!s.charging && !s.sleeping && !s.rail_on);
    assert_eq!(s.low_alert_frame, 50);
    assert_eq!(s.low_reminder_frame, 0);
    assert_eq!(s.tick, 0);
    assert!(s.last.is_none());
    assert!(ind.wants_battery_sample());
}

#[test]
fn profile_colors() {
    let mut ind = central();
    let expected = [(0u8, Grb::red()), (1, Grb::green()), (2, Grb::blue()), (7, Grb::blue())];
    for (profile, color) in expected {
        ind.process_event(ControllerEvent::BleProfile(profile));
        assert_eq!(ind.profile_color(), color);
    }
}

#[test]
fn host_connection_notice_lasts_thirty_frames() {
    let mut ind = central();
    ind.process_event(ControllerEvent::SplitPeripheral(0, true));
    ind.process_event(ControllerEvent::BleState(0, BleState::Connected));
    for _ in 0..30 {
        assert_eq!(ind.outer_effect(), LightEffect::Solid(Grb::red()));
        assert_eq!(ind.frame_colors().1, Grb::red());
        ind.update(false, None);
    }
    for _ in 0..5 {
        assert_eq!(ind.outer_effect(), LightEffect::Off);
        assert_eq!(ind.frame_colors().1, Grb::off());
        ind.update(false, None);
    }
}

#[test]
fn advertising_breathes_for_sixty_seconds() {
    let mut ind = central();
    ind.process_event(ControllerEvent::BleState(1, BleState::Advertising));
    for _ in 0..600 {
        assert_eq!(ind.outer_effect(), LightEffect::Breath(Grb::green()));
        ind.update(false, None);
    }
    assert_eq!(ind.outer_effect(), LightEffect::Off);
}

#[test]
fn breath_starts_dark_and_follows_its_own_phase() {
    let mut ind = central();
    ind.process_event(ControllerEvent::SplitPeripheral(0, true));
    for _ in 0..7 {
        ind.update(false, None);
    }
    ind.process_event(ControllerEvent::BleState(2, BleState::Advertising));
    let table = breath_table();
    for t in 0..40usize {
        let level = table[t % BREATH_FRAMES];
        assert_eq!(ind.frame_colors().1, Grb { g: 0, r: 0, b: level });
        ind.update(false, None);
    }
}

#[test]
fn advertising_breath_ends_dark() {
    let mut ind = central();
    ind.process_event(ControllerEvent::BleState(0, BleState::Advertising));
    for n in 0..600 {
        let color = ind.frame_colors().1;
        if n == 599 || n % 30 == 0 {
            assert_eq!(color, Grb::off());
        }
        ind.update(false, None);
    }
    assert_eq!(ind.outer_effect(), LightEffect::Off);
    assert_eq!(ind.frame_colors().1, Grb::off());
    ind.update(false, None);
    assert!(ind.state().outer_breath.is_none());
}

#[test]
fn stopped_breath_finishes_before_going_dark() {
    let mut ind = central();
    ind.process_event(ControllerEvent::BleState(1, BleState::Advertising));
    for _ in 0..10 {
        ind.update(false, None);
    }
    ind.process_event(ControllerEvent::BleState(1, BleState::Idle));
    assert_eq!(ind.outer_effect(), LightEffect::Off);
    let table = breath_table();
    let mut prev = ind.frame_colors().1;
    assert_eq!(prev, Grb { g: table[10], r: 0, b: 0 });
    for phase in 10..BREATH_FRAMES {
        let color = ind.frame_colors().1;
        assert_eq!(color, Grb { g: table[phase], r: 0, b: 0 });
        assert!((color.g as i32 - prev.g as i32).abs() <= 4);
        prev = color;
        ind.update(false, None);
    }
    assert_eq!(ind.frame_colors().1, Grb::off());
    ind.update(false, None);
    assert!(ind.state().outer_breath.is_none());
}

#[test]
fn settled_indicator_polls_on_the_idle_tick() {
    let mut ind = central();
    assert_eq!(ind.next_poll_ms(), 100);
    ind.process_event(ControllerEvent::Battery(60));
    ind.process_event(ControllerEvent::SplitPeripheral(0, true));
    ind.process_event(ControllerEvent::BleState(0, BleState::Connected));
    for _ in 0..30 {
        assert_eq!(ind.next_poll_ms(), 100);
        assert_eq!(ind.frames_per_update(), 1);
        ind.update(false, None);
    }
    assert!(ind.settled());
    assert_eq!(ind.frame_colors(), (Grb::off(), Grb::off()));
    assert_eq!(ind.next_poll_ms(), 1000);
    assert_eq!(ind.frames_per_update(), 10);
    let tick = ind.state().tick;
    ind.update(false, None);
    assert_eq!(ind.state().tick, tick + 10);
    ind.process_event(ControllerEvent::BleProfile(1));
    assert_eq!(ind.next_poll_ms(), 100);
    ind.process_event(ControllerEvent::Sleep(true));
    assert_eq!(ind.next_poll_ms(), 1000);
}

#[test]
fn idle_updates_sample_once_per_cycle() {
    let mut ind = central();
    ind.process_event(ControllerEvent::Battery(60));
    ind.process_event(ControllerEvent::SplitPeripheral(0, true));
    for _ in 0..30 {
        ind.update(false, None);
    }
    assert!(ind.settled());
    let mut samples = 0;
    let mut frames = 0u32;
    while frames < 3000 {
        assert!(ind.settled());
        if ind.wants_battery_sample() {
            samples += 1;
        }
        frames += ind.frames_per_update();
        ind.update(false, Some(3150));
    }
    assert_eq!(samples, 10);
}

#[test]
fn split_link_on_peripheral_outer_pixel() {
    let mut ind = peripheral();
    for _ in 0..600 {
        assert_eq!(ind.outer_effect(), LightEffect::Breath(Grb::blue()));
        ind.update(false, None);
    }
    assert_eq!(ind.outer_effect(), LightEffect::Off);
    ind.process_event(ControllerEvent::SplitCentral(true));
    for _ in 0..30 {
        assert_eq!(ind.outer_effect(), LightEffect::Solid(Grb::blue()));
        ind.update(false, None);
    }
    assert_eq!(ind.outer_effect(), LightEffect::Off);
}

#[test]
fn events_of_the_other_half_are_ignored() {
    let mut p = peripheral();
    let before = p.state();
    p.process_event(ControllerEvent::BleState(1, BleState::Connected));
    p.process_event(ControllerEvent::BleProfile(2));
    p.process_event(ControllerEvent::SplitPeripheral(0, true));
    p.process_event(ControllerEvent::Other);
    let after = p.state();
    assert!(!after.ble_connected && !after.peer_connected);
    assert_eq!(after.ble_profile, before.ble_profile);

    let mut c = central();
    c.process_event(ControllerEvent::SplitCentral(true));
    assert!(!c.state().peer_connected);
}

#[test]
fn central_inner_pixel_shows_split_link() {
    let mut ind = central();
    assert_eq!(ind.inner_effect(), LightEffect::Breath(Grb::blue()));
    ind.process_event(ControllerEvent::SplitPeripheral(3, true));
    for _ in 0..30 {
        assert_eq!(ind.inner_effect(), LightEffect::Solid(Grb::blue()));
        ind.update(false, None);
    }
    assert_eq!(ind.inner_effect(), LightEffect::Off);
}

#[test]
fn low_battery_alert_cycle() {
    let mut ind = central();
    ind.process_event(ControllerEvent::SplitPeripheral(0, true));
    ind.process_event(ControllerEvent::Battery(15));
    assert_eq!(ind.state().low_alert_frame, 0);
    for _ in 0..50 {
        assert_eq!(ind.inner_effect(), LightEffect::LowBattery);
        ind.update(false, None);
    }
    for _ in 50..3050 {
        assert_ne!(ind.inner_effect(), LightEffect::LowBattery);
        ind.update(false, None);
    }
    assert_eq!(ind.inner_effect(), LightEffect::LowBattery);
    ind.process_event(ControllerEvent::Battery(40));
    assert_eq!(ind.low_battery_effect(), None);
    assert_eq!(ind.state().low_alert_frame, 50);
}

#[test]
fn low_battery_blink_pattern() {
    let mut ind = central();
    ind.process_event(ControllerEvent::Battery(5));
    for t in 0..24u32 {
        let on = matches!(t % 12, 0 | 1 | 4 | 5);
        assert_eq!(ind.low_blink_on(), on);
        let expected = if on { Grb::red() } else { Grb::off() };
        assert_eq!(ind.effect_color(LightEffect::LowBattery, 0), expected);
        ind.update(false, None);
    }
}

#[test]
fn charging_shows_green() {
    let mut ind = central();
    ind.process_event(ControllerEvent::Battery(50));
    ind.update(true, None);
    assert_eq!(ind.inner_effect(), LightEffect::Breath(Grb::green()));
    ind.process_event(ControllerEvent::Battery(96));
    for _ in 0..30 {
        assert_eq!(ind.inner_effect(), LightEffect::Solid(Grb::green()));
        ind.update(true, None);
    }
    assert_eq!(ind.inner_effect(), LightEffect::Off);
    ind.process_event(ControllerEvent::Battery(97));
    assert_eq!(ind.inner_effect(), LightEffect::Off);
}

#[test]
fn usb_power_switches_charging() {
    let mut ind = central();
    ind.update(true, None);
    assert!(ind.state().charging);
    ind.update(false, None);
    assert!(!ind.state().charging);
    ind.process_event(ControllerEvent::ChargingState(true));
    assert!(ind.state().charging);
    assert_eq!(ind.state().charge_frame, 0);
}

#[test]
fn battery_sample_every_three_hundred_frames() {
    let mut ind = central();
    assert!(ind.wants_battery_sample());
    ind.update(false, Some(3390));
    assert_eq!(ind.state().battery, Some(100));
    for _ in 1..300 {
        assert!(!ind.wants_battery_sample());
        ind.update(false, Some(2800));
        assert_eq!(ind.state().battery, Some(100));
    }
    assert!(ind.wants_battery_sample());
    ind.update(false, Some(2800));
    assert_eq!(ind.state().battery, Some(0));
    assert_eq!(ind.state().low_alert_frame, 1);
}

#[test]
fn render_plans_rail_and_skips_repeats() {
    let mut ind = central();
    let plan = ind.plan_render(Grb::red(), Grb::off()).expect("new frame");
    assert!(plan.rail_up && !plan.rail_down);
    assert_eq!(decode(&plan.frame), (Grb::red(), Grb::off()));
    assert!(ind.state().rail_on);
    assert!(ind.plan_render(Grb::red(), Grb::off()).is_none());
    let plan = ind.plan_render(Grb::blue(), Grb::off()).expect("new frame");
    assert!(!plan.rail_up && !plan.rail_down);
    let plan = ind.plan_render(Grb::off(), Grb::off()).expect("new frame");
    assert!(!plan.rail_up && plan.rail_down);
    assert!(!ind.state().rail_on);
}

#[test]
fn sleep_is_dark_and_frozen() {
    let mut ind = central();
    ind.process_event(ControllerEvent::BleState(0, BleState::Connected));
    ind.update(false, None);
    ind.process_event(ControllerEvent::Sleep(true));
    let tick = ind.state().tick;
    let plan = ind.update(true, Some(3000)).expect("dark frame");
    assert!(plan.rail_down && !plan.rail_up);
    assert_eq!(decode(&plan.frame), (Grb::off(), Grb::off()));
    assert!(ind.update(true, Some(3000)).is_none());
    assert_eq!(ind.state().tick, tick);
    assert!(!ind.state().charging);
    assert!(!ind.wants_battery_sample());
}

#[test]
fn waking_restarts_link_notices() {
    let mut ind = central();
    ind.process_event(ControllerEvent::BleState(0, BleState::Connected));
    for _ in 0..40 {
        ind.update(false, None);
    }
    assert_eq!(ind.outer_effect(), LightEffect::Off);
    ind.process_event(ControllerEvent::Sleep(true));
    ind.process_event(ControllerEvent::Sleep(false));
    assert_eq!(ind.state().ble_frame, 0);
    assert_eq!(ind.state().peer_frame, 0);
    assert_eq!(ind.outer_effect(), LightEffect::Solid(Grb::red()));
}

#[test]
fn ble_state_change_restarts_notice() {
    let mut ind = central();
    ind.process_event(ControllerEvent::BleState(0, BleState::Connected));
    for _ in 0..10 {
        ind.update(false, None);
    }
    assert_eq!(ind.state().ble_frame, 10);
    ind.process_event(ControllerEvent::BleState(0, BleState::Connected));
    assert_eq!(ind.state().ble_frame, 10);
    ind.process_event(ControllerEvent::BleState(1, BleState::Connected));
    assert_eq!(ind.state().ble_frame, 0);
    assert_eq!(ind.outer_effect(), LightEffect::Solid(Grb::green()));
    ind.process_event(ControllerEvent::BleState(1, BleState::Idle));
    assert_eq!(ind.outer_effect(), LightEffect::Off);
}

#[test]
fn update_shows_the_frame_it_computed() {
    let mut ind = central();
    ind.process_event(ControllerEvent::BleState(0, BleState::Connected));
    ind.process_event(ControllerEvent::SplitPeripheral(0, true));
    let plan = ind.update(false, None).expect("first frame");
    assert_eq!(decode(&plan.frame), (Grb::blue(), Grb::red()));
    assert!(plan.rail_up);
    assert!(ind.update(false, None).is_none());
    assert_eq!(ind.state().tick, 2);
}

#[test]
fn profile_switch_restarts_notice() {
    let mut ind = central();
    ind.process_event(ControllerEvent::BleState(0, BleState::Connected));
    for _ in 0..40 {
        ind.update(false, None);
    }
    assert_eq!(ind.outer_effect(), LightEffect::Off);
    ind.process_event(ControllerEvent::BleProfile(2));
    for _ in 0..30 {
        assert_eq!(ind.outer_effect(), LightEffect::Solid(Grb::blue()));
        ind.update(false, None);
    }
    assert_eq!(ind.outer_effect(), LightEffect::Off);
    ind.process_event(ControllerEvent::BleProfile(2));
    assert_eq!(ind.outer_effect(), LightEffect::Off);
}

#[test]
fn timers_stay_in_range_over_a_long_run() {
    let mut ind = central();
    ind.process_event(ControllerEvent::Battery(3));
    for n in 0..7000u32 {
        if n % 997 == 0 {
            ind.process_event(ControllerEvent::Battery((n % 40) as u8));
        }
        ind.update(n % 3 == 0, Some(2950));
        let s = ind.state();
        assert!(s.low_alert_frame <= 50);
        assert!(s.low_reminder_frame < 3000);
        assert!(s.low_reminder_frame == 0 || s.low_alert_frame == 50);
        assert!(s.battery_sample_frame < 300);
        if let Some((inner, outer)) = s.last {
            assert_eq!(s.rail_on, inner.is_lit() || outer.is_lit());
        }
    }
}

#[test]
fn full_charge_notice_lasts_thirty_updates_from_idle() {
    let mut ind = central();
    ind.process_event(ControllerEvent::Battery(96));
    ind.process_event(ControllerEvent::SplitPeripheral(0, true));
    for _ in 0..40 {
        ind.update(false, None);
    }
    assert!(ind.settled());
    assert_eq!(ind.frames_per_update(), 10);
    let mut green = 0;
    for n in 0..60 {
        let tick = ind.state().tick;
        ind.update(true, None);
        if n < 30 {
            assert_eq!(ind.state().tick, tick + 1);
        }
        if n == 0 {
            assert_eq!(ind.state().charge_frame, 1);
        }
        if ind.state().last.map(|(inner, _)| inner) == Some(Grb::green()) {
            green += 1;
        }
    }
    assert_eq!(green, 30);
    assert_eq!(ind.inner_effect(), LightEffect::Off);
}
