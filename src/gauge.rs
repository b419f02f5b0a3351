use vstd::prelude::*;

verus! {

/// The largest tally a progress line is written for.
pub const MAX_TALLY: u128 = 0xFFFF_FFFF_FFFF_FFFF_FFFF_FFFF;

pub open spec fn digit_char(d: int) -> char {
    if d == 0 {
        '0'
    } else if d == 1 {
        '1'
    } else if d == 2 {
        '2'
    } else if d == 3 {
        '3'
    } else if d == 4 {
        '4'
    } else if d == 5 {
        '5'
    } else if d == 6 {
        '6'
    } else if d == 7 {
        '7'
    } else if d == 8 {
        '8'
    } else {
        '9'
    }
}

/// `n` in decimal, without leading zeros.
pub open spec fn decimal(n: nat) -> Seq<char>
    decreases n,
{
    if n < 10 {
        seq![digit_char(n as int)]
    } else {
        decimal(n / 10) + seq![digit_char((n % 10) as int)]
    }
}

/// Ten segments, the first `filled` of them filled.
pub open spec fn bar(filled: nat) -> Seq<char> {
    Seq::new(10, |i: int| if i < filled { '▰' } else { '▱' })
}

/// `count / total` in tenths, rounded half up (0 when `total` is 0), at most 10.
pub open spec fn filled_segments(count: nat, total: nat) -> nat {
    if total == 0 {
        0
    } else {
        let s = (20 * count + total) / (2 * total);
        if s > 10 {
            10
        } else {
            s
        }
    }
}

/// `count / total` as a percentage in tenths of a percent, rounded half up
/// (0 when `total` is 0).
pub open spec fn percent_tenths(count: nat, total: nat) -> nat {
    if total == 0 {
        0
    } else {
        (2000 * count + total) / (2 * total)
    }
}

/// The progress line: the gauge, the percentage with one decimal, and the
/// tally, as in `▰▰▰▰▰▱▱▱▱▱ 50.0%  (1/2)`.
pub open spec fn spec_progress_text(count: nat, total: nat) -> Seq<char> {
    let p = percent_tenths(count, total);
    bar(filled_segments(count, total)) + seq![' '] + decimal(p / 10) + seq!['.'] + seq![
        digit_char((p % 10) as int),
    ] + seq!['%', ' ', ' ', '('] + decimal(count) + seq!['/'] + decimal(total) + seq![')']
}

fn digit_str(d: u128) -> (r: &'static str)
    requires
        d < 10,
    ensures
        r@ == seq![digit_char(d as int)],
{
    if d == 0 {
        proof { reveal_strlit("0"); }
        "0"
    } else if d == 1 {
        proof { reveal_strlit("1"); }
        "1"
    } else if d == 2 {
        proof { reveal_strlit("2"); }
        "2"
    } else if d == 3 {
        proof { reveal_strlit("3"); }
        "3"
    } else if d == 4 {
        proof { reveal_strlit("4"); }
        "4"
    } else if d == 5 {
        proof { reveal_strlit("5"); }
        "5"
    } else if d == 6 {
        proof { reveal_strlit("6"); }
        "6"
    } else if d == 7 {
        proof { reveal_strlit("7"); }
        "7"
    } else if d == 8 {
        proof { reveal_strlit("8"); }
        "8"
    } else {
        proof { reveal_strlit("9"); }
        "9"
    }
}

fn push_decimal(s: &mut String, n: u128)
    ensures
        final(s)@ == old(s)@ + decimal(n as nat),
    decreases n,
{
    let ghost start = s@;
    if n >= 10 {
        push_decimal(s, n / 10);
    }
    s.append(digit_str(n % 10));
    assert(s@ =~= start + decimal(n as nat));
}

fn push_bar(s: &mut String, filled: u128)
    ensures
        final(s)@ == old(s)@ + bar(filled as nat),
{
    let ghost start = s@;
    let mut i: u128 = 0;
    while i < 10
        invariant
            i <= 10,
            s@ =~= start + Seq::new(i as nat, |j: int| if j < filled { '▰' } else { '▱' }),
        decreases 10 - i,
    {
        if i < filled {
            proof { reveal_strlit("▰"); }
            s.append("▰");
        } else {
            proof { reveal_strlit("▱"); }
            s.append("▱");
        }
        i = i + 1;
    }
    assert(s@ =~= start + bar(filled as nat));
}

/// The progress line for `count` completions out of `total` possible ones.
pub fn progress_text(count: u128, total: u128) -> (r: String)
    requires
        count <= MAX_TALLY,
        total <= MAX_TALLY,
    ensures
        r@ == spec_progress_text(count as nat, total as nat),
{
    let (filled, tenths) = if total == 0 {
        (0, 0)
    } else {
        let s = (20 * count + total) / (2 * total);
        (if s > 10 {
            10
        } else {
            s
        }, (2000 * count + total) / (2 * total))
    };
    let mut r = String::new();
    push_bar(&mut r, filled);
    proof { reveal_strlit(" "); }
    r.append(" ");
    push_decimal(&mut r, tenths / 10);
    proof { reveal_strlit("."); }
    r.append(".");
    r.append(digit_str(tenths % 10));
    proof { reveal_strlit("%  ("); }
    r.append("%  (");
    push_decimal(&mut r, count);
    proof { reveal_strlit("/"); }
    r.append("/");
    push_decimal(&mut r, total);
    proof { reveal_strlit(")"); }
    r.append(")");
    r
}

} // verus!
