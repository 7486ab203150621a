use vstd::prelude::*;

verus! {

/// Resource counting how many decoy entities this process has seen appear,
/// whether spawned locally or replicated from the other side.
#[derive(Clone, Copy, PartialEq, Eq, Structural, Debug)]
pub struct InputsCount(pub u64);

/// Marker component for the on-screen text that mirrors [`InputsCount`].
#[derive(Clone, Copy, PartialEq, Eq, Structural, Debug)]
pub struct PlayerSpawnCountText;

impl Default for InputsCount {
    fn default() -> (r: Self)
        ensures
            r.0 == 0,
    {
        InputsCount(0)
    }
}

impl InputsCount {
    /// The count so far.
    pub fn count(&self) -> (r: u64)
        ensures
            r == self.0,
    {
        self.0
    }

    /// Notes one newly seen decoy entity.
    pub fn record_spawn(&mut self)
        requires
            old(self).0 < u64::MAX,
        ensures
            final(self).0 == old(self).0 + 1,
    {
        self.0 = self.0 + 1;
    }

    /// The text shown for this count: its decimal digits followed by " total".
    pub fn label(&self) -> (r: String)
        ensures
            r@ == spec_decimal(self.0 as nat) + " total"@,
    {
        spawn_count_label(self.0)
    }
}

/// The decimal digit character for a value below ten.
pub open spec fn spec_digit(d: nat) -> char {
    if d == 0 {
        '0'
    } else if d == 1 {
        '1'
    } else if d == 2 {
        '2'
    } else if d == 3 {
        '3'
    } else if d == 4 {
        '4'
    } else if d == 5 {
        '5'
    } else if d == 6 {
        '6'
    } else if d == 7 {
        '7'
    } else if d == 8 {
        '8'
    } else {
        '9'
    }
}

/// The decimal digits of `n`, most significant first, with no leading zeros
/// (a single '0' for zero itself).
pub open spec fn spec_decimal(n: nat) -> Seq<char>
    decreases n,
{
    if n < 10 {
        seq![spec_digit(n)]
    } else {
        spec_decimal(n / 10) + seq![spec_digit(n % 10)]
    }
}

/// The single-character string for a digit value.
fn digit_str(d: u64) -> (r: &'static str)
    requires
        d < 10,
    ensures
        r@ == seq![spec_digit(d as nat)],
{
    proof {
        reveal_strlit("0");
        reveal_strlit("1");
        reveal_strlit("2");
        reveal_strlit("3");
        reveal_strlit("4");
        reveal_strlit("5");
        reveal_strlit("6");
        reveal_strlit("7");
        reveal_strlit("8");
        reveal_strlit("9");
    }
    let r: &'static str = if d == 0 {
        "0"
    } else if d == 1 {
        "1"
    } else if d == 2 {
        "2"
    } else if d == 3 {
        "3"
    } else if d == 4 {
        "4"
    } else if d == 5 {
        "5"
    } else if d == 6 {
        "6"
    } else if d == 7 {
        "7"
    } else if d == 8 {
        "8"
    } else {
        "9"
    };
    proof {
        assert(r@ =~= seq![spec_digit(d as nat)]);
    }
    r
}

/// Renders `n` in decimal, matching `spec_decimal` digit for digit.
pub fn decimal_string(n: u64) -> (r: String)
    ensures
        r@ == spec_decimal(n as nat),
    decreases n,
{
    if n < 10 {
        String::from_str(digit_str(n))
    } else {
        let mut r = decimal_string(n / 10);
        r.append(digit_str(n % 10));
        proof {
            assert(r@ =~= spec_decimal(n as nat));
        }
        r
    }
}

/// The label a process displays for `n` seen spawns: the decimal digits of
/// `n` followed by " total".
pub fn spawn_count_label(n: u64) -> (r: String)
    ensures
        r@ == spec_decimal(n as nat) + " total"@,
{
    let r = decimal_string(n).concat(" total");
    proof {
        assert(r@ =~= spec_decimal(n as nat) + " total"@);
    }
    r
}

} // verus!
