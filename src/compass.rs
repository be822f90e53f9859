//! Wind direction: an angle in degrees bucketed into eight compass points.
use vstd::prelude::*;

verus! {

/// One of the eight points of the compass.
#[derive(Clone, Copy, Debug, PartialEq, Eq, Structural)]
pub enum Compass {
    N,
    NE,
    E,
    SE,
    S,
    SW,
    W,
    NW,
}

/// The point for an angle, by closed buckets; both 0 and 360 are north, and
/// an angle outside [0, 360] has none.
pub open spec fn compass_of(d: int) -> Option<Compass> {
    if 0 <= d <= 22 {
        Some(Compass::N)
    } else if 23 <= d <= 67 {
        Some(Compass::NE)
    } else if 68 <= d <= 112 {
        Some(Compass::E)
    } else if 113 <= d <= 157 {
        Some(Compass::SE)
    } else if 158 <= d <= 202 {
        Some(Compass::S)
    } else if 203 <= d <= 247 {
        Some(Compass::SW)
    } else if 248 <= d <= 292 {
        Some(Compass::W)
    } else if 293 <= d <= 337 {
        Some(Compass::NW)
    } else if 338 <= d <= 360 {
        Some(Compass::N)
    } else {
        None
    }
}

/// The text of a compass point.
pub open spec fn label_of(c: Compass) -> Seq<char> {
    match c {
        Compass::N => "N"@,
        Compass::NE => "NE"@,
        Compass::E => "E"@,
        Compass::SE => "SE"@,
        Compass::S => "S"@,
        Compass::SW => "SW"@,
        Compass::W => "W"@,
        Compass::NW => "NW"@,
    }
}

/// The text given in place of a label for an angle outside [0, 360].
pub open spec fn no_direction() -> Seq<char> {
    "error getting direction"@
}

/// The text for an angle: its point's label, or the marker when it has none.
pub open spec fn compass_text(d: int) -> Seq<char> {
    match compass_of(d) {
        Some(c) => label_of(c),
        None => no_direction(),
    }
}

/// Whether a text is one of the eight labels.
pub open spec fn is_label(t: Seq<char>) -> bool {
    exists|c: Compass| label_of(c) == t
}

impl Compass {
    /// The label of this point.
    pub fn label(&self) -> (r: &'static str)
        ensures
            r@ == label_of(*self),
    {
        match self {
            Compass::N => "N",
            Compass::NE => "NE",
            Compass::E => "E",
            Compass::SE => "SE",
            Compass::S => "S",
            Compass::SW => "SW",
            Compass::W => "W",
            Compass::NW => "NW",
        }
    }
}

/// The compass point of an angle in degrees, or `None` above 360.
pub fn compass_point(deg: u32) -> (r: Option<Compass>)
    ensures
        r == compass_of(deg as int),
{
    if deg <= 22 {
        Some(Compass::N)
    } else if deg <= 67 {
        Some(Compass::NE)
    } else if deg <= 112 {
        Some(Compass::E)
    } else if deg <= 157 {
        Some(Compass::SE)
    } else if deg <= 202 {
        Some(Compass::S)
    } else if deg <= 247 {
        Some(Compass::SW)
    } else if deg <= 292 {
        Some(Compass::W)
    } else if deg <= 337 {
        Some(Compass::NW)
    } else if deg <= 360 {
        Some(Compass::N)
    } else {
        None
    }
}

/// The label of an angle's compass point, or the marker text
/// "error getting direction" for an angle above 360.
pub fn degree_to_compass(deg: u32) -> (r: &'static str)
    ensures
        r@ == compass_text(deg as int),
{
    match compass_point(deg) {
        Some(c) => c.label(),
        None => "error getting direction",
    }
}

/// Every angle in [0, 360] has a compass point, so its text is one of the
/// eight labels; 0 and 360 are both north.
pub proof fn lemma_in_range_is_label(d: int)
    requires
        0 <= d <= 360,
    ensures
        compass_of(d) is Some,
        compass_text(d) == label_of(compass_of(d)->0),
        is_label(compass_text(d)),
        compass_of(0) == Some(Compass::N),
        compass_of(360) == Some(Compass::N),
{
    let c = compass_of(d)->0;
    assert(label_of(c) == compass_text(d));
}

/// An angle outside [0, 360] gives the marker text, which is none of the
/// eight labels.
pub proof fn lemma_out_of_range_is_marker(d: int)
    requires
        d < 0 || d > 360,
    ensures
        compass_of(d) is None,
        compass_text(d) == no_direction(),
        !is_label(compass_text(d)),
{
    reveal_strlit("error getting direction");
    reveal_strlit("N");
    reveal_strlit("NE");
    reveal_strlit("E");
    reveal_strlit("SE");
    reveal_strlit("S");
    reveal_strlit("SW");
    reveal_strlit("W");
    reveal_strlit("NW");
    assert forall|c: Compass| label_of(c) != no_direction() by {
        assert(label_of(c).len() <= 2);
    }
}

} // verus!
