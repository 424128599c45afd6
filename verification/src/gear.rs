use vstd::prelude::*;

verus! {

/// The position of the gear shifter: parking, neutral, or a forward gear.
#[derive(Clone, Copy, Debug, PartialEq, Eq, Structural)]
pub enum ShifterGear {
    Parking,
    Neutral,
    Drive(u8),
}

/// The highest forward gear.
pub const TOP_GEAR: u8 = 6;

impl Default for ShifterGear {
    fn default() -> (gear: Self)
        ensures
            gear == ShifterGear::Parking,
    {
        ShifterGear::Parking
    }
}

impl ShifterGear {
    /// A gear the shifter can reach: parking, neutral or a forward gear `1..=6`.
    pub open spec fn is_valid(self) -> bool {
        match self {
            ShifterGear::Drive(n) => 1 <= n <= TOP_GEAR,
            _ => true,
        }
    }

    /// A gear the shifter reaches from parking by shifting up and down:
    /// parking or a forward gear `1..=6` (never neutral).
    pub open spec fn is_selectable(self) -> bool {
        match self {
            ShifterGear::Parking => true,
            ShifterGear::Neutral => false,
            ShifterGear::Drive(n) => 1 <= n <= TOP_GEAR,
        }
    }

    /// The gear after shifting up once: parking and neutral go to first gear,
    /// a forward gear below the top one goes one up, any other gear stays.
    pub open spec fn up(self) -> ShifterGear {
        match self {
            ShifterGear::Parking => ShifterGear::Drive(1),
            ShifterGear::Neutral => ShifterGear::Drive(1),
            ShifterGear::Drive(n) => if n < TOP_GEAR {
                ShifterGear::Drive((n + 1) as u8)
            } else {
                ShifterGear::Drive(n)
            },
        }
    }

    /// The gear after shifting down once: a forward gear above first goes one
    /// down, everything else goes to parking.
    pub open spec fn down(self) -> ShifterGear {
        match self {
            ShifterGear::Drive(n) => if n > 1 {
                ShifterGear::Drive((n - 1) as u8)
            } else {
                ShifterGear::Parking
            },
            _ => ShifterGear::Parking,
        }
    }

    /// The text the shifter display shows for a gear.
    pub open spec fn label(self) -> Seq<char> {
        match self {
            ShifterGear::Parking => seq!['P'],
            ShifterGear::Neutral => seq!['N'],
            ShifterGear::Drive(n) => if n == 1 {
                seq!['1']
            } else if n == 2 {
                seq!['2']
            } else if n == 3 {
                seq!['3']
            } else if n == 4 {
                seq!['4']
            } else if n == 5 {
                seq!['5']
            } else if n == 6 {
                seq!['6']
            } else {
                seq!['?']
            },
        }
    }

    /// Shifts up once (see `up`).
    pub fn shifted_up(&self) -> (gear: ShifterGear)
        ensures
            gear == self.up(),
    {
        match *self {
            ShifterGear::Parking => ShifterGear::Drive(1),
            ShifterGear::Neutral => ShifterGear::Drive(1),
            ShifterGear::Drive(n) => if n < TOP_GEAR {
                ShifterGear::Drive(n + 1)
            } else {
                ShifterGear::Drive(n)
            },
        }
    }

    /// Shifts down once (see `down`).
    pub fn shifted_down(&self) -> (gear: ShifterGear)
        ensures
            gear == self.down(),
    {
        match *self {
            ShifterGear::Drive(n) => if n > 1 {
                ShifterGear::Drive(n - 1)
            } else {
                ShifterGear::Parking
            },
            ShifterGear::Neutral => ShifterGear::Parking,
            ShifterGear::Parking => ShifterGear::Parking,
        }
    }

    /// Whether the gear is a forward gear (neither parking nor neutral).
    pub fn is_forward(&self) -> (forward: bool)
        ensures
            forward == (*self is Drive),
    {
        *self != ShifterGear::Parking && *self != ShifterGear::Neutral
    }

    /// The text the shifter display shows: `"P"`, `"N"`, the digit of a
    /// forward gear `1..=6`, and `"?"` for any other forward gear.
    pub fn label_str(&self) -> (text: &'static str)
        ensures
            text@ == self.label(),
    {
        proof {
            reveal_strlit("P");
            reveal_strlit("N");
            reveal_strlit("1");
            reveal_strlit("2");
            reveal_strlit("3");
            reveal_strlit("4");
            reveal_strlit("5");
            reveal_strlit("6");
            reveal_strlit("?");
        }
        match *self {
            ShifterGear::Parking => "P",
            ShifterGear::Neutral => "N",
            ShifterGear::Drive(d) => match d {
                1 => "1",
                2 => "2",
                3 => "3",
                4 => "4",
                5 => "5",
                6 => "6",
                _ => "?",
            },
        }
    }
}

/// Shifting up and then down comes back to the gear one started from, for
/// parking and the forward gears below the top one.
pub proof fn lemma_shift_down_undoes_shift_up(gear: ShifterGear)
    requires
        gear == ShifterGear::Parking || (gear matches ShifterGear::Drive(n) && 1 <= n < TOP_GEAR),
    ensures
        gear.up().down() == gear,
{
}

/// Shifting up or down never leaves the gears the shifter can reach.
pub proof fn lemma_shifting_keeps_gear_valid(gear: ShifterGear)
    requires
        gear.is_valid(),
    ensures
        gear.up().is_valid(),
        gear.down().is_valid(),
{
}

/// Shifting up or down from parking or a forward gear `1..=6` stays among
/// those gears: neutral is never selected.
pub proof fn lemma_shifting_keeps_gear_selectable(gear: ShifterGear)
    requires
        gear.is_selectable(),
    ensures
        gear.up().is_selectable(),
        gear.down().is_selectable(),
{
}

/// Parking and the forward gears `1..=6` are shown as `"P"` or their digit.
pub proof fn lemma_selectable_gear_label(gear: ShifterGear)
    requires
        gear.is_selectable(),
    ensures
        gear.label() == seq!['P'] || gear.label() == seq!['1'] || gear.label() == seq!['2']
            || gear.label() == seq!['3'] || gear.label() == seq!['4'] || gear.label() == seq!['5']
            || gear.label() == seq!['6'],
{
}

/// Shifting down never selects neutral, and shifting up always selects a forward gear.
pub proof fn lemma_shift_targets(gear: ShifterGear)
    ensures
        gear.down() != ShifterGear::Neutral,
        gear.up() is Drive,
{
}

/// The top gear is where shifting up stops, and parking is where shifting down stops.
pub proof fn lemma_shift_limits()
    ensures
        ShifterGear::Drive(TOP_GEAR).up() == ShifterGear::Drive(TOP_GEAR),
        ShifterGear::Parking.down() == ShifterGear::Parking,
{
}

/// A reachable gear is never shown as `"?"`.
pub proof fn lemma_valid_gear_has_label(gear: ShifterGear)
    requires
        gear.is_valid(),
    ensures
        gear.label() != seq!['?'],
        gear.label().len() == 1,
{
    assert(gear.label()[0] != '?');
}

/// Parking shows `P`, neutral shows `N`, each forward gear `n` in `1..=6`
/// shows the single decimal digit of `n`, and any other forward gear shows `?`.
pub proof fn lemma_label_is_gear_digit()
    ensures
        ShifterGear::Parking.label() == seq!['P'],
        ShifterGear::Neutral.label() == seq!['N'],
        forall|n: u8|
            1 <= n <= TOP_GEAR ==> #[trigger] ShifterGear::Drive(n).label().len() == 1
                && ShifterGear::Drive(n).label()[0] as int - '0' as int == n as int,
        forall|n: u8|
            (n == 0 || n > TOP_GEAR) ==> #[trigger] ShifterGear::Drive(n).label() == seq!['?'],
{
    assert forall|n: u8| 1 <= n <= TOP_GEAR implies #[trigger] ShifterGear::Drive(n).label().len()
        == 1 && ShifterGear::Drive(n).label()[0] as int - '0' as int == n as int by {
        let l = ShifterGear::Drive(n).label();
        if n == 1 {
            assert(l[0] == '1');
        } else if n == 2 {
            assert(l[0] == '2');
        } else if n == 3 {
            assert(l[0] == '3');
        } else if n == 4 {
            assert(l[0] == '4');
        } else if n == 5 {
            assert(l[0] == '5');
        } else {
            assert(l[0] == '6');
        }
    }
}

/// Shifting up from parking or neutral engages first gear and from a forward
/// gear `n` below the top engages gear `n + 1`; shifting down from a forward
/// gear `n` above first engages gear `n - 1` and from first gear, neutral or
/// parking goes to parking.
pub proof fn lemma_shift_steps()
    ensures
        ShifterGear::Parking.up() == ShifterGear::Drive(1),
        ShifterGear::Neutral.up() == ShifterGear::Drive(1),
        forall|n: u8|
            1 <= n < TOP_GEAR ==> #[trigger] ShifterGear::Drive(n).up() == ShifterGear::Drive(
                (n + 1) as u8,
            ),
        forall|n: u8|
            n >= TOP_GEAR ==> #[trigger] ShifterGear::Drive(n).up() == ShifterGear::Drive(n),
        forall|n: u8|
            n > 1 ==> #[trigger] ShifterGear::Drive(n).down() == ShifterGear::Drive((n - 1) as u8),
        ShifterGear::Drive(1).down() == ShifterGear::Parking,
        ShifterGear::Drive(0).down() == ShifterGear::Parking,
        ShifterGear::Neutral.down() == ShifterGear::Parking,
        ShifterGear::Parking.down() == ShifterGear::Parking,
{
}

} // verus!
