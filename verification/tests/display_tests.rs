use iron_presence::IronStreamingState;
use iron_presence::display::decimal_string;
use iron_presence::display::format_status;

fn snap(operating_mode: u32, live: u32, setpoint: u32) -> IronStreamingState {
    IronStreamingState {
        live_temp: live,
        setpoint_temp: setpoint,
        dc_input_voltage: 205,
        handle_temp: 0,
        power_level: 450,
        power_source: 0,
        tip_resistance: 0,
        uptime: 0,
        last_movement: 0,
        max_temp: 0,
        raw_tip_reading: 0,
        hall_sensor: 0,
        operating_mode,
        estimated_watts: 0,
    }
}

#[test]
fn decimal_zero() {
    assert_eq!(decimal_string(0), "0");
}

#[test]
fn decimal_single_digit() {
    assert_eq!(decimal_string(7), "7");
}

#[test]
fn decimal_round_number() {
    assert_eq!(decimal_string(100), "100");
}

#[test]
fn decimal_largest() {
    assert_eq!(decimal_string(u32::MAX), "4294967295");
}

#[test]
fn state_line_truncates() {
    let d = format_status(&snap(1, 300, 300));
    assert_eq!(d.state, "20 V DC · 45 W");
}

#[test]
fn state_line_zero_values() {
    let mut s = snap(1, 300, 300);
    s.dc_input_voltage = 0;
    s.power_level = 9;
    let d = format_status(&s);
    assert_eq!(d.state, "0 V DC · 0 W");
}

#[test]
fn menu_mode() {
    let d = format_status(&snap(0, 25, 300));
    assert_eq!(d.detail, "25°C (in menu)");
}

#[test]
fn soldering_cooling() {
    let d = format_status(&snap(1, 210, 200));
    assert_eq!(d.detail, "210°C (cooling to 200°C)");
}

#[test]
fn soldering_near_setpoint() {
    let d = format_status(&snap(1, 195, 200));
    assert_eq!(d.detail, "Soldering at 195°C");
}

#[test]
fn soldering_heating() {
    let d = format_status(&snap(1, 180, 200));
    assert_eq!(d.detail, "180°C (heating to 200°C)");
}

#[test]
fn soldering_diff_boundary() {
    // diff == 15 heats; diff == 14 still counts as soldering; diff == 0 too
    assert_eq!(format_status(&snap(1, 185, 200)).detail, "185°C (heating to 200°C)");
    assert_eq!(format_status(&snap(1, 186, 200)).detail, "Soldering at 186°C");
    assert_eq!(format_status(&snap(1, 200, 200)).detail, "Soldering at 200°C");
}

#[test]
fn boost_mode() {
    let d = format_status(&snap(2, 420, 300));
    assert_eq!(d.detail, "420°C (TURBO BOOST ENGAGED)");
}

#[test]
fn idle_cold() {
    let d = format_status(&snap(3, 40, 300));
    assert_eq!(d.detail, "40°C (idle, resumes to 300°C)");
}

#[test]
fn idle_still_warm() {
    let d = format_status(&snap(3, 60, 300));
    assert_eq!(d.detail, "60°C (cooling to idle temp)");
}

#[test]
fn idle_boundary() {
    // live 49 is cold enough to count as idle; 50 is still cooling
    assert_eq!(format_status(&snap(3, 49, 300)).detail, "49°C (idle, resumes to 300°C)");
    assert_eq!(format_status(&snap(3, 50, 300)).detail, "50°C (cooling to idle temp)");
}

#[test]
fn unknown_mode_empty_detail() {
    assert_eq!(format_status(&snap(4, 100, 200)).detail, "");
    assert_eq!(format_status(&snap(99, 100, 200)).detail, "");
    assert_eq!(format_status(&snap(u32::MAX, 100, 200)).detail, "");
}

#[test]
fn unknown_mode_state_line_intact() {
    let d = format_status(&snap(17, 100, 200));
    assert_eq!(d.state, "20 V DC · 45 W");
}
