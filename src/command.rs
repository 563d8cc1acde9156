use vstd::prelude::*;
use crate::encoder::Run;

verus! {

/// The ASCII digit for `d < 10`.
pub open spec fn digit_char(d: nat) -> char {
    if d == 0 {
        '0'
    } else if d == 1 {
        '1'
    } else if d == 2 {
        '2'
    } else if d == 3 {
        '3'
    } else if d == 4 {
        '4'
    } else if d == 5 {
        '5'
    } else if d == 6 {
        '6'
    } else if d == 7 {
        '7'
    } else if d == 8 {
        '8'
    } else {
        '9'
    }
}

/// The decimal text of `n`, without leading zeros.
pub open spec fn decimal(n: nat) -> Seq<char>
    decreases n,
{
    if n < 10 {
        seq![digit_char(n)]
    } else {
        decimal(n / 10).push(digit_char(n % 10))
    }
}

pub open spec fn bool_text(b: bool) -> Seq<char> {
    if b {
        "true"@
    } else {
        "false"@
    }
}

/// One run on the wire: `start,end,[r,g,b]`.
pub open spec fn run_text(run: Run) -> Seq<char> {
    decimal(run.start as nat) + ","@ + decimal(run.end as nat) + ",["@ + decimal(
        run.color.r as nat,
    ) + ","@ + decimal(run.color.g as nat) + ","@ + decimal(run.color.b as nat) + "]"@
}

/// The runs on the wire, separated by single commas, with none after the last.
pub open spec fn runs_text(runs: Seq<Run>) -> Seq<char>
    decreases runs.len(),
{
    if runs.len() == 0 {
        Seq::empty()
    } else if runs.len() == 1 {
        run_text(runs[0])
    } else {
        runs_text(runs.drop_last()) + ","@ + run_text(runs.last())
    }
}

/// The full segment-update payload.
pub open spec fn state_command_text(on: bool, brightness: u8, runs: Seq<Run>) -> Seq<char> {
    "{\"on\":"@ + bool_text(on) + ", \"bri\":"@ + decimal(brightness as nat) + ", \"seg\":{\"i\":["@
        + runs_text(runs) + "]}}"@
}

/// The payload that switches the panel off.
pub open spec fn off_command_text() -> Seq<char> {
    "{\"on\":false,\"bri\":0}"@
}

fn digit_str(d: u32) -> (r: &'static str)
    requires
        d < 10,
    ensures
        r@ == seq![digit_char(d as nat)],
{
    proof {
        reveal_strlit("0");
        reveal_strlit("1");
        reveal_strlit("2");
        reveal_strlit("3");
        reveal_strlit("4");
        reveal_strlit("5");
        reveal_strlit("6");
        reveal_strlit("7");
        reveal_strlit("8");
        reveal_strlit("9");
    }
    if d == 0 {
        "0"
    } else if d == 1 {
        "1"
    } else if d == 2 {
        "2"
    } else if d == 3 {
        "3"
    } else if d == 4 {
        "4"
    } else if d == 5 {
        "5"
    } else if d == 6 {
        "6"
    } else if d == 7 {
        "7"
    } else if d == 8 {
        "8"
    } else {
        "9"
    }
}

/// Appends the decimal text of `n`.
fn push_decimal(s: &mut String, n: u32)
    ensures
        final(s)@ == old(s)@ + decimal(n as nat),
    decreases n,
{
    if n >= 10 {
        push_decimal(s, n / 10);
    }
    s.append(digit_str(n % 10));
    proof {
        assert(old(s)@ + decimal(n as nat) =~= final(s)@);
    }
}

/// Appends one run in its wire form.
fn push_run(s: &mut String, run: Run)
    ensures
        final(s)@ == old(s)@ + run_text(run),
{
    push_decimal(s, run.start);
    s.append(",");
    push_decimal(s, run.end);
    s.append(",[");
    push_decimal(s, run.color.r as u32);
    s.append(",");
    push_decimal(s, run.color.g as u32);
    s.append(",");
    push_decimal(s, run.color.b as u32);
    s.append("]");
    proof {
        assert(final(s)@ =~= old(s)@ + run_text(run));
    }
}

/// Renders the segment-update payload:
/// `{"on":<bool>, "bri":<n>, "seg":{"i":[s0,e0,[r0,g0,b0],s1,e1,[r1,g1,b1]]}}`.
pub fn build_state_command(on: bool, brightness: u8, runs: &Vec<Run>) -> (r: String)
    ensures
        r@ == state_command_text(on, brightness, runs@),
{
    let mut s = String::new();
    s.append("{\"on\":");
    if on {
        s.append("true");
    } else {
        s.append("false");
    }
    s.append(", \"bri\":");
    push_decimal(&mut s, brightness as u32);
    s.append(", \"seg\":{\"i\":[");
    let ghost head = s@;
    let mut i: usize = 0;
    while i < runs.len()
        invariant
            i <= runs@.len(),
            s@ == head + runs_text(runs@.take(i as int)),
        decreases runs@.len() - i,
    {
        let ghost before = s@;
        if i > 0 {
            s.append(",");
        }
        push_run(&mut s, runs[i]);
        proof {
            let t = runs@.take(i + 1);
            assert(t.drop_last() =~= runs@.take(i as int));
            assert(t.last() == runs@[i as int]);
            if i == 0 {
                assert(runs_text(runs@.take(0)) =~= Seq::<char>::empty());
                assert(s@ =~= head + runs_text(t));
            } else {
                assert(s@ =~= head + runs_text(t));
            }
        }
        i = i + 1;
    }
    assert(runs@.take(runs@.len() as int) =~= runs@);
    s.append("]}}");
    proof {
        assert(s@ =~= state_command_text(on, brightness, runs@));
    }
    s
}

/// Renders the payload that switches the panel off: `{"on":false,"bri":0}`.
pub fn build_off_command() -> (r: String)
    ensures
        r@ == off_command_text(),
{
    String::from_str("{\"on\":false,\"bri\":0}")
}

} // verus!
