//! Derivation of the two-line display text from a telemetry snapshot.
//!
//! The formatter is pure and total: every snapshot yields a state line with
//! the supply voltage and power, and a detail line that narrates the
//! operating mode. An operating mode outside the known range yields an
//! empty detail line by design, never an error.

use crate::telemetry::IronStreamingState;
use vstd::prelude::*;
use vstd::string::StringExecFns;

verus! {

/// The two lines of the status summary: a mode-dependent narrative and a
/// voltage/power summary.
pub struct DisplayStatus {
    pub detail: String,
    pub state: String,
}

/// The character for a single decimal digit.
pub open spec fn digit_char(d: int) -> char
    recommends
        0 <= d < 10,
{
    if d == 0 {
        '0'
    } else if d == 1 {
        '1'
    } else if d == 2 {
        '2'
    } else if d == 3 {
        '3'
    } else if d == 4 {
        '4'
    } else if d == 5 {
        '5'
    } else if d == 6 {
        '6'
    } else if d == 7 {
        '7'
    } else if d == 8 {
        '8'
    } else {
        '9'
    }
}

/// The decimal notation of `n`, without leading zeros (`0` itself is "0").
pub open spec fn dec_seq(n: nat) -> Seq<char>
    decreases n,
{
    if n < 10 {
        seq![digit_char(n as int)]
    } else {
        dec_seq(n / 10) + seq![digit_char((n % 10) as int)]
    }
}

/// The one-character string for a decimal digit.
fn digit_str(d: u32) -> (r: &'static str)
    requires
        d < 10,
    ensures
        r@ == seq![digit_char(d as int)],
{
    proof {
        reveal_strlit("0");
        reveal_strlit("1");
        reveal_strlit("2");
        reveal_strlit("3");
        reveal_strlit("4");
        reveal_strlit("5");
        reveal_strlit("6");
        reveal_strlit("7");
        reveal_strlit("8");
        reveal_strlit("9");
    }
    let r: &'static str = if d == 0 {
        "0"
    } else if d == 1 {
        "1"
    } else if d == 2 {
        "2"
    } else if d == 3 {
        "3"
    } else if d == 4 {
        "4"
    } else if d == 5 {
        "5"
    } else if d == 6 {
        "6"
    } else if d == 7 {
        "7"
    } else if d == 8 {
        "8"
    } else {
        "9"
    };
    assert(r@ =~= seq![digit_char(d as int)]);
    r
}

/// Appends the decimal notation of `x` to `out`.
fn push_decimal(out: &mut String, x: u32)
    ensures
        final(out)@ == old(out)@ + dec_seq(x as nat),
    decreases x,
{
    if x >= 10 {
        push_decimal(out, x / 10);
    }
    let d: u32 = x % 10;
    out.append(digit_str(d));
    proof {
        assert(out@ =~= old(out)@ + dec_seq(x as nat));
    }
}

/// The decimal notation of `x` as a string.
pub fn decimal_string(x: u32) -> (r: String)
    ensures
        r@ == dec_seq(x as nat),
{
    let mut r: String = String::new();
    push_decimal(&mut r, x);
    proof {
        assert(r@ =~= dec_seq(x as nat));
    }
    r
}

/// The state line: supply voltage and power, each tenths-scaled in the
/// telemetry and shown in whole units (integer truncation, not rounding).
pub open spec fn state_line_spec(s: IronStreamingState) -> Seq<char> {
    dec_seq((s.dc_input_voltage / 10) as nat) + " V DC · "@ + dec_seq((s.power_level / 10) as nat)
        + " W"@
}

/// The detail line, branching on the operating mode. For mode 1 the branch
/// is chosen by the signed difference `setpoint_temp - live_temp`; any mode
/// outside 0..=3 yields an empty line by design.
pub open spec fn detail_line_spec(s: IronStreamingState) -> Seq<char> {
    if s.operating_mode == 0 {
        dec_seq(s.live_temp as nat) + "°C (in menu)"@
    } else if s.operating_mode == 1 {
        if s.setpoint_temp < s.live_temp {
            dec_seq(s.live_temp as nat) + "°C (cooling to "@ + dec_seq(s.setpoint_temp as nat)
                + "°C)"@
        } else if s.setpoint_temp - s.live_temp < 15 {
            "Soldering at "@ + dec_seq(s.live_temp as nat) + "°C"@
        } else {
            dec_seq(s.live_temp as nat) + "°C (heating to "@ + dec_seq(s.setpoint_temp as nat)
                + "°C)"@
        }
    } else if s.operating_mode == 2 {
        dec_seq(s.live_temp as nat) + "°C (TURBO BOOST ENGAGED)"@
    } else if s.operating_mode == 3 {
        if s.live_temp < 50 {
            dec_seq(s.live_temp as nat) + "°C (idle, resumes to "@ + dec_seq(s.setpoint_temp as nat)
                + "°C)"@
        } else {
            dec_seq(s.live_temp as nat) + "°C (cooling to idle temp)"@
        }
    } else {
        Seq::empty()
    }
}

/// Derives the two-line status summary from a snapshot.
///
/// Total over all snapshots: the result is pinned to `detail_line_spec` and
/// `state_line_spec`, so an unknown operating mode gives an empty detail
/// line rather than an error.
pub fn format_status(s: &IronStreamingState) -> (r: DisplayStatus)
    ensures
        r.detail@ == detail_line_spec(*s),
        r.state@ == state_line_spec(*s),
{
    let mut state_line: String = decimal_string(s.dc_input_voltage / 10);
    state_line.append(" V DC · ");
    let watts: String = decimal_string(s.power_level / 10);
    state_line.append(watts.as_str());
    state_line.append(" W");
    proof {
        assert(state_line@ =~= state_line_spec(*s));
    }
    let live: String = decimal_string(s.live_temp);
    let mut detail: String = String::new();
    if s.operating_mode == 0 {
        detail.append(live.as_str());
        detail.append("°C (in menu)");
    } else if s.operating_mode == 1 {
        if s.setpoint_temp < s.live_temp {
            let setpoint: String = decimal_string(s.setpoint_temp);
            detail.append(live.as_str());
            detail.append("°C (cooling to ");
            detail.append(setpoint.as_str());
            detail.append("°C)");
        } else if s.setpoint_temp - s.live_temp < 15 {
            detail.append("Soldering at ");
            detail.append(live.as_str());
            detail.append("°C");
        } else {
            let setpoint: String = decimal_string(s.setpoint_temp);
            detail.append(live.as_str());
            detail.append("°C (heating to ");
            detail.append(setpoint.as_str());
            detail.append("°C)");
        }
    } else if s.operating_mode == 2 {
        detail.append(live.as_str());
        detail.append("°C (TURBO BOOST ENGAGED)");
    } else if s.operating_mode == 3 {
        if s.live_temp < 50 {
            let setpoint: String = decimal_string(s.setpoint_temp);
            detail.append(live.as_str());
            detail.append("°C (idle, resumes to ");
            detail.append(setpoint.as_str());
            detail.append("°C)");
        } else {
            detail.append(live.as_str());
            detail.append("°C (cooling to idle temp)");
        }
    }
    proof {
        assert(detail@ =~= detail_line_spec(*s));
    }
    DisplayStatus { detail, state: state_line }
}

/// Law: the formatter is total, and an operating mode outside the known
/// range yields an empty detail line by design, never an error. (Totality
/// itself is the absence of any precondition on `format_status`.)
pub proof fn lemma_unknown_mode_empty_detail(s: IronStreamingState)
    requires
        s.operating_mode > 3,
    ensures
        detail_line_spec(s) == Seq::<char>::empty(),
{
}

} // verus!
