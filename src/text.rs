//! The textual form of a path: its actions, in order, between braces.
use vstd::prelude::*;
use crate::geometry::UNITS_PER_FOOT;
use crate::geometry::Point;
use crate::path::{Action, PlannerState, Waypoint};

verus! {

/// Number of decimal places of a displacement in feet.
pub const FOOT_DECIMALS: u64 = 6;

/// The decimal digit `d`.
pub open spec fn digit_text(d: int) -> Seq<char> {
    if d == 0 {
        "0"@
    } else if d == 1 {
        "1"@
    } else if d == 2 {
        "2"@
    } else if d == 3 {
        "3"@
    } else if d == 4 {
        "4"@
    } else if d == 5 {
        "5"@
    } else if d == 6 {
        "6"@
    } else if d == 7 {
        "7"@
    } else if d == 8 {
        "8"@
    } else {
        "9"@
    }
}

/// `n` in decimal, without leading zeros.
pub open spec fn decimal_text(n: nat) -> Seq<char>
    decreases n,
{
    if n < 10 {
        digit_text(n as int)
    } else {
        decimal_text(n / 10) + digit_text((n % 10) as int)
    }
}

/// The last `w` decimal digits of `n`, leading zeros kept.
pub open spec fn padded_text(n: nat, w: nat) -> Seq<char>
    decreases w,
{
    if w == 0 {
        Seq::empty()
    } else {
        padded_text(n / 10, (w - 1) as nat) + digit_text((n % 10) as int)
    }
}

/// A `w`-digit fraction `f` with its trailing zero digits removed, as the
/// remaining digits and their count.
pub open spec fn trimmed(f: nat, w: nat) -> (nat, nat)
    decreases w,
{
    if w > 0 && f % 10 == 0 {
        trimmed(f / 10, (w - 1) as nat)
    } else {
        (f, w)
    }
}

/// The fractional part `f` (in units of one millionth) after the point; empty when zero.
pub open spec fn fraction_text(f: nat) -> Seq<char> {
    if f == 0 {
        Seq::empty()
    } else {
        "."@ + padded_text(trimmed(f, FOOT_DECIMALS as nat).0, trimmed(f, FOOT_DECIMALS as nat).1)
    }
}

/// The sign of `v`: a minus for a negative value, nothing otherwise.
pub open spec fn sign_text(v: int) -> Seq<char> {
    if v < 0 {
        "-"@
    } else {
        Seq::empty()
    }
}

/// The magnitude of `v`.
pub open spec fn magnitude(v: int) -> nat {
    if v < 0 {
        (-v) as nat
    } else {
        v as nat
    }
}

/// A displacement `v` in millionths of a foot, as a decimal number of feet
/// with no trailing zeros after the point and no point for whole feet.
pub open spec fn feet_text(v: int) -> Seq<char> {
    sign_text(v) + decimal_text(magnitude(v) / (UNITS_PER_FOOT as nat)) + fraction_text(
        magnitude(v) % (UNITS_PER_FOOT as nat),
    )
}

/// An angle in degrees, as a decimal integer.
pub open spec fn angle_text(a: int) -> Seq<char> {
    sign_text(a) + decimal_text(magnitude(a))
}

/// The textual form of an action.
pub open spec fn action_text(a: Action) -> Seq<char> {
    match a {
        Action::Start => "Action::None"@,
        Action::Translate(dx, dy) => "Action::Translate("@ + feet_text(dx as int) + ", "@
            + feet_text(dy as int) + ")"@,
        Action::TranslateAndRotate(dx, dy, angle) => "Action::TranslateAndRotate("@ + feet_text(
            dx as int,
        ) + ", "@ + feet_text(dy as int) + ", "@ + angle_text(angle as int) + ")"@,
    }
}

/// The actions of `items`, in order, separated by a comma and a space.
pub open spec fn actions_text(items: Seq<Waypoint>) -> Seq<char>
    decreases items.len(),
{
    if items.len() == 0 {
        Seq::empty()
    } else if items.len() == 1 {
        action_text(items[0].action)
    } else {
        actions_text(items.drop_last()) + ", "@ + action_text(items.last().action)
    }
}

/// The textual form of a path: its actions between braces.
pub open spec fn path_text(items: Seq<Waypoint>) -> Seq<char> {
    "{"@ + actions_text(items) + "}"@
}

/// A path of a start and one translation reads as those two actions between
/// braces.
pub proof fn lemma_two_waypoint_text(p0: Point, p1: Point, dx: i64, dy: i64)
    ensures
        path_text(
            seq![
                Waypoint { position: p0, action: Action::Start },
                Waypoint { position: p1, action: Action::Translate(dx, dy) },
            ],
        ) == "{Action::None, Action::Translate("@ + feet_text(dx as int) + ", "@ + feet_text(
            dy as int,
        ) + ")}"@,
{
    let items = seq![
        Waypoint { position: p0, action: Action::Start },
        Waypoint { position: p1, action: Action::Translate(dx, dy) },
    ];
    let first = seq![items[0]];
    assert(items.drop_last() =~= first);
    assert(actions_text(first) == action_text(Action::Start));
    assert(actions_text(items) == actions_text(first) + ", "@ + action_text(Action::Translate(dx, dy)));
    reveal_strlit("{");
    reveal_strlit("}");
    reveal_strlit(", ");
    reveal_strlit(")");
    reveal_strlit(")}");
    reveal_strlit("Action::None");
    reveal_strlit("Action::Translate(");
    reveal_strlit("{Action::None, Action::Translate(");
    assert(path_text(items) =~= "{Action::None, Action::Translate("@ + feet_text(dx as int) + ", "@
        + feet_text(dy as int) + ")}"@);
}

/// A reset path reads as an empty pair of braces, whatever it held before.
pub proof fn lemma_reset_text(s: PlannerState)
    ensures
        path_text(s.reset().items) == "{}"@,
{
    reveal_strlit("{");
    reveal_strlit("}");
    reveal_strlit("{}");
    assert(path_text(s.reset().items) =~= "{}"@);
}

/// The decimal digit `d`.
fn digit_str(d: u64) -> (r: &'static str)
    requires
        d < 10,
    ensures
        r@ == digit_text(d as int),
{
    if d == 0 {
        "0"
    } else if d == 1 {
        "1"
    } else if d == 2 {
        "2"
    } else if d == 3 {
        "3"
    } else if d == 4 {
        "4"
    } else if d == 5 {
        "5"
    } else if d == 6 {
        "6"
    } else if d == 7 {
        "7"
    } else if d == 8 {
        "8"
    } else {
        "9"
    }
}

/// Appends `n` in decimal.
fn push_decimal(out: &mut String, n: u64)
    ensures
        final(out)@ == old(out)@ + decimal_text(n as nat),
    decreases n,
{
    if n >= 10 {
        push_decimal(out, n / 10);
    }
    out.append(digit_str(n % 10));
    assert(final(out)@ =~= old(out)@ + decimal_text(n as nat));
}

/// Appends the last `w` decimal digits of `n`.
fn push_padded(out: &mut String, n: u64, w: u64)
    ensures
        final(out)@ == old(out)@ + padded_text(n as nat, w as nat),
    decreases w,
{
    if w > 0 {
        push_padded(out, n / 10, w - 1);
        out.append(digit_str(n % 10));
    }
    assert(final(out)@ =~= old(out)@ + padded_text(n as nat, w as nat));
}

/// Appends `m`, in millionths, as a decimal number.
fn push_fixed(out: &mut String, m: u64)
    ensures
        final(out)@ == old(out)@ + decimal_text(m as nat / (UNITS_PER_FOOT as nat)) + fraction_text(
            m as nat % (UNITS_PER_FOOT as nat),
        ),
{
    let unit: u64 = UNITS_PER_FOOT as u64;
    push_decimal(out, m / unit);
    let f: u64 = m % unit;
    if f != 0 {
        let mut digits: u64 = f;
        let mut width: u64 = FOOT_DECIMALS;
        while width > 0 && digits % 10 == 0
            invariant
                trimmed(digits as nat, width as nat) == trimmed(f as nat, FOOT_DECIMALS as nat),
            decreases width,
        {
            digits = digits / 10;
            width = width - 1;
        }
        let ghost mid = out@;
        out.append(".");
        push_padded(out, digits, width);
        assert(final(out)@ =~= mid + fraction_text(f as nat));
    }
}

/// Appends `v` as feet, from millionths of a foot, when `fixed`; as an integer otherwise.
fn push_signed(out: &mut String, v: i64, fixed: bool)
    ensures
        final(out)@ == old(out)@ + (if fixed {
            feet_text(v as int)
        } else {
            angle_text(v as int)
        }),
{
    let ghost start = out@;
    let m: u64 = if v < 0 {
        out.append("-");
        ((-(v + 1)) as u64) + 1
    } else {
        v as u64
    };
    assert(m == magnitude(v as int));
    if fixed {
        push_fixed(out, m);
        assert(final(out)@ =~= start + feet_text(v as int));
    } else {
        push_decimal(out, m);
        assert(final(out)@ =~= start + angle_text(v as int));
    }
}

/// Appends the textual form of `a`.
fn push_action(out: &mut String, a: Action)
    ensures
        final(out)@ == old(out)@ + action_text(a),
{
    let ghost start = out@;
    match a {
        Action::Start => {
            out.append("Action::None");
        },
        Action::Translate(dx, dy) => {
            out.append("Action::Translate(");
            push_signed(out, dx, true);
            out.append(", ");
            push_signed(out, dy, true);
            out.append(")");
        },
        Action::TranslateAndRotate(dx, dy, angle) => {
            out.append("Action::TranslateAndRotate(");
            push_signed(out, dx, true);
            out.append(", ");
            push_signed(out, dy, true);
            out.append(", ");
            push_signed(out, angle as i64, false);
            out.append(")");
        },
    }
    assert(final(out)@ =~= start + action_text(a));
}

/// The textual form of an action.
pub fn action_string(a: Action) -> (r: String)
    ensures
        r@ == action_text(a),
{
    let mut out = String::new();
    push_action(&mut out, a);
    assert(out@ =~= action_text(a));
    out
}

/// The textual form of a path: the actions of `items`, in order, separated by
/// a comma and a space, between braces.
pub fn format_items(items: &Vec<Waypoint>) -> (r: String)
    ensures
        r@ == path_text(items@),
{
    let mut out = String::new();
    out.append("{");
    let mut i: usize = 0;
    while i < items.len()
        invariant
            i <= items@.len(),
            out@ == "{"@ + actions_text(items@.subrange(0, i as int)),
        decreases items@.len() - i,
    {
        let ghost before = items@.subrange(0, i as int);
        let ghost after = items@.subrange(0, i as int + 1);
        assert(after.drop_last() =~= before);
        if i > 0 {
            out.append(", ");
        }
        push_action(&mut out, items[i].action);
        i = i + 1;
        assert(out@ =~= "{"@ + actions_text(after));
    }
    assert(items@.subrange(0, items@.len() as int) =~= items@);
    out.append("}");
    out
}

} // verus!
