use vstd::prelude::*;

verus! {

/// Seconds in one calendar day.
pub const SECONDS_PER_DAY: i64 = 86_400;

/// Seconds in one hour.
pub const SECONDS_PER_HOUR: i64 = 3_600;

/// The furthest a local calendar day may lie from 1970-01-01, in days, on
/// either side.
pub const MAX_DAY: i64 = 100_000_000;

/// The number of the local calendar day on which the instant `secs` falls at
/// `offset` seconds east of UTC. Day 0 is 1970-01-01.
pub open spec fn day_number(secs: int, offset: int) -> int {
    (secs + offset) / 86_400
}

/// The seconds that have passed since local midnight.
pub open spec fn second_of_day(secs: int, offset: int) -> int {
    (secs + offset) % 86_400
}

/// The hour of the local wall clock, from 0 to 23.
pub open spec fn hour_of_day(secs: int, offset: int) -> int {
    second_of_day(secs, offset) / 3_600
}

/// The day of the week of calendar day `day`, counted from Monday = 0 to
/// Sunday = 6. Day 0 was a Thursday.
pub open spec fn weekday_index(day: int) -> int {
    (day + 3) % 7
}

/// Monday to Friday.
pub open spec fn is_working_day(day: int) -> bool {
    weekday_index(day) < 5
}

/// How many of the calendar days `first ..= last` are working days.
pub open spec fn working_days_between(first: int, last: int) -> nat
    decreases last - first + 1,
{
    if last < first {
        0
    } else {
        let today: nat = if is_working_day(last) { 1 } else { 0 };
        working_days_between(first, last - 1) + today
    }
}

/// The instant at which local day `day` begins at `offset`.
pub open spec fn day_start(day: int, offset: int) -> int {
    day * 86_400 - offset
}

/// A day of the week.
#[derive(Clone, Copy, Debug, PartialEq, Eq, Structural)]
pub enum Weekday {
    Mon,
    Tue,
    Wed,
    Thu,
    Fri,
    Sat,
    Sun,
}

impl Weekday {
    /// The position in the week, Monday = 0.
    pub open spec fn index(self) -> int {
        match self {
            Weekday::Mon => 0,
            Weekday::Tue => 1,
            Weekday::Wed => 2,
            Weekday::Thu => 3,
            Weekday::Fri => 4,
            Weekday::Sat => 5,
            Weekday::Sun => 6,
        }
    }

    /// The weekday of the calendar day with number `day`.
    pub fn of_day(day: i64) -> (w: Weekday)
        ensures
            w.index() == weekday_index(day as int),
    {
        let index: i64 = (floor_mod_seven(day) + 3) % 7;
        if index == 0 {
            Weekday::Mon
        } else if index == 1 {
            Weekday::Tue
        } else if index == 2 {
            Weekday::Wed
        } else if index == 3 {
            Weekday::Thu
        } else if index == 4 {
            Weekday::Fri
        } else if index == 5 {
            Weekday::Sat
        } else {
            Weekday::Sun
        }
    }

    /// The position in the week, Monday = 0.
    pub fn num_days_from_monday(&self) -> (n: u32)
        ensures
            n == self.index(),
    {
        match self {
            Weekday::Mon => 0,
            Weekday::Tue => 1,
            Weekday::Wed => 2,
            Weekday::Thu => 3,
            Weekday::Fri => 4,
            Weekday::Sat => 5,
            Weekday::Sun => 6,
        }
    }

    /// Saturday or Sunday.
    pub fn is_weekend(&self) -> (b: bool)
        ensures
            b == (self.index() >= 5),
    {
        match self {
            Weekday::Sat | Weekday::Sun => true,
            _ => false,
        }
    }
}

/// What a `Timestamp` stands for: an instant, in whole seconds since
/// 1970-01-01T00:00:00 UTC, and the offset of the local clock it is read on,
/// in seconds east of UTC.
pub struct Moment {
    pub secs: int,
    pub offset: int,
}

impl Moment {
    /// The offset lies strictly within one day, and the local calendar day
    /// lies within `MAX_DAY` days of 1970-01-01.
    pub open spec fn valid(self) -> bool {
        &&& -86_400 < self.offset < 86_400
        &&& -MAX_DAY <= day_number(self.secs, self.offset) <= MAX_DAY
    }
}

/// An instant together with a fixed offset from UTC, to the second.
#[derive(Clone, Copy, Debug, PartialEq, Eq, Structural)]
pub struct Timestamp {
    secs: i64,
    offset: i32,
}

impl View for Timestamp {
    type V = Moment;

    closed spec fn view(&self) -> Moment {
        Moment { secs: self.secs as int, offset: self.offset as int }
    }
}

impl Timestamp {
    /// Every timestamp stands for a valid moment.
    #[verifier::type_invariant]
    pub open spec fn wf(self) -> bool {
        self@.valid()
    }

    /// The timestamp of `secs` seconds since the epoch, read at `offset`
    /// seconds east of UTC; `None` where that is no valid moment.
    pub fn new(secs: i64, offset: i32) -> (r: Option<Timestamp>)
        ensures
            r is Some <==> (Moment { secs: secs as int, offset: offset as int }).valid(),
            r matches Some(t) ==> t@ == (Moment { secs: secs as int, offset: offset as int }),
    {
        if offset <= -86_400 || offset >= 86_400 {
            return None;
        }
        let bound: i64 = (MAX_DAY + 2) * SECONDS_PER_DAY;
        if secs < -bound || secs > bound {
            return None;
        }
        let day = floor_div(secs + offset as i64, SECONDS_PER_DAY);
        if day < -MAX_DAY || day > MAX_DAY {
            return None;
        }
        Some(Timestamp { secs, offset })
    }

    /// Whole seconds since 1970-01-01T00:00:00 UTC.
    pub fn secs(&self) -> (s: i64)
        ensures
            s == self@.secs,
    {
        self.secs
    }

    /// Seconds east of UTC.
    pub fn offset(&self) -> (o: i32)
        ensures
            o == self@.offset,
            -86_400 < o < 86_400,
    {
        proof {
            use_type_invariant(self);
        }
        self.offset
    }

    /// The number of the calendar day on which this instant falls on the
    /// clock of `zone`.
    pub fn day_in_zone_of(&self, zone: &Timestamp) -> (d: i64)
        ensures
            d == day_number(self@.secs, zone@.offset),
            -MAX_DAY - 2 <= d <= MAX_DAY + 2,
    {
        proof {
            use_type_invariant(self);
            use_type_invariant(zone);
        }
        floor_div(self.secs + zone.offset as i64, SECONDS_PER_DAY)
    }

    /// The number of the local calendar day.
    pub fn day(&self) -> (d: i64)
        ensures
            d == day_number(self@.secs, self@.offset),
            -MAX_DAY <= d <= MAX_DAY,
    {
        proof {
            use_type_invariant(self);
        }
        self.day_in_zone_of(self)
    }

    /// The day of the week on the clock of `zone`.
    pub fn weekday_in_zone_of(&self, zone: &Timestamp) -> (w: Weekday)
        ensures
            w.index() == weekday_index(day_number(self@.secs, zone@.offset)),
    {
        Weekday::of_day(self.day_in_zone_of(zone))
    }

    /// The day of the week on the local clock.
    pub fn weekday(&self) -> (w: Weekday)
        ensures
            w.index() == weekday_index(day_number(self@.secs, self@.offset)),
    {
        self.weekday_in_zone_of(self)
    }

    /// The hour, from 0 to 23, on the clock of `zone`.
    pub fn hour_in_zone_of(&self, zone: &Timestamp) -> (h: u32)
        ensures
            h == hour_of_day(self@.secs, zone@.offset),
            h < 24,
    {
        proof {
            use_type_invariant(self);
            use_type_invariant(zone);
        }
        let second = floor_mod(self.secs + zone.offset as i64, SECONDS_PER_DAY);
        (second / SECONDS_PER_HOUR) as u32
    }

    /// The hour, from 0 to 23, on the local clock.
    pub fn hour(&self) -> (h: u32)
        ensures
            h == hour_of_day(self@.secs, self@.offset),
            h < 24,
    {
        self.hour_in_zone_of(self)
    }

    /// Whether this instant is earlier than `other`. Offsets play no part.
    pub fn is_before(&self, other: &Timestamp) -> (b: bool)
        ensures
            b == (self@.secs < other@.secs),
    {
        self.secs < other.secs
    }

    /// Whether this instant is later than `other`. Offsets play no part.
    pub fn is_after(&self, other: &Timestamp) -> (b: bool)
        ensures
            b == (self@.secs > other@.secs),
    {
        self.secs > other.secs
    }
}

/// The remainder of `x` by 7, never negative.
fn floor_mod_seven(x: i64) -> (r: i64)
    ensures
        r == (x as int) % 7,
        0 <= r < 7,
{
    let r: i64 = x % 7;
    if r < 0 {
        r + 7
    } else {
        r
    }
}

/// Division that rounds towards negative infinity.
fn floor_div(x: i64, d: i64) -> (q: i64)
    requires
        d > 0,
        i64::MIN + d < x,
    ensures
        q == (x as int) / (d as int),
{
    if x >= 0 {
        x / d
    } else {
        let q: i64 = (x - (d - 1)) / d;
        proof {
            let xi: int = x as int;
            let di: int = d as int;
            let qi: int = q as int;
            assert(qi == xi / di) by (nonlinear_arith)
                requires
                    di > 0,
                    xi < 0,
                    qi == -(((di - 1) - xi) / di),
            ;
        }
        q
    }
}

/// The remainder that goes with `floor_div`, never negative.
fn floor_mod(x: i64, d: i64) -> (r: i64)
    requires
        d > 0,
        i64::MIN + d < x,
    ensures
        r == (x as int) % (d as int),
        0 <= r < d,
{
    let q = floor_div(x, d);
    proof {
        let xi: int = x as int;
        let di: int = d as int;
        let qi: int = q as int;
        assert(xi == di * (xi / di) + xi % di && 0 <= xi % di && xi % di < di)
            by (nonlinear_arith)
            requires
                di > 0,
        ;
        assert(qi * di == di * qi) by (nonlinear_arith);
    }
    x - q * d
}

/// The first and the last second of the local calendar day of `time`:
/// 00:00:00 and 23:59:59 on the clock that `time` is read on.
pub fn get_today_range(time: &Timestamp) -> (range: (Timestamp, Timestamp))
    ensures
        range.0@.offset == time@.offset,
        range.1@.offset == time@.offset,
        range.0@.secs == day_start(day_number(time@.secs, time@.offset), time@.offset),
        range.1@.secs == range.0@.secs + 86_399,
{
    proof {
        use_type_invariant(time);
    }
    let second = floor_mod(time.secs + time.offset as i64, SECONDS_PER_DAY);
    let start: i64 = time.secs - second;
    let end: i64 = start + (SECONDS_PER_DAY - 1);
    (Timestamp { secs: start, offset: time.offset }, Timestamp { secs: end, offset: time.offset })
}

/// The range that `get_today_range` gives holds the instants of one local
/// calendar day and no other: an instant lies between the first and the
/// last second of the day of `secs` exactly when it falls on that day.
pub proof fn lemma_today_range_is_the_day(secs: int, other: int, offset: int)
    ensures
        day_number(other, offset) == day_number(secs, offset) <==> day_start(
            day_number(secs, offset),
            offset,
        ) <= other <= day_start(day_number(secs, offset), offset) + 86_399,
{
}

/// The number of days from Monday to Friday among the calendar days from the
/// day of `start` to the day of `end`, both included, whatever the time of
/// day of either. The days are those of the clock that `start` is read on.
pub fn count_working_days(start: Timestamp, end: Timestamp) -> (working_days: i64)
    ensures
        working_days == working_days_between(
            day_number(start@.secs, start@.offset),
            day_number(end@.secs, start@.offset),
        ),
{
    let first = start.day();
    let last = end.day_in_zone_of(&start);
    let mut working_days: i64 = 0;
    let mut day: i64 = first;
    while day <= last
        invariant
            first <= day || last < first,
            day <= last + 1 || last < first,
            -MAX_DAY <= first <= MAX_DAY,
            -MAX_DAY - 2 <= last <= MAX_DAY + 2,
            last < first ==> day == first && working_days == 0,
            first <= last ==> working_days == working_days_between(first as int, day - 1),
            first <= last ==> 0 <= working_days <= day - first,
        decreases last + 1 - day,
    {
        if !Weekday::of_day(day).is_weekend() {
            working_days = working_days + 1;
        }
        day = day + 1;
    }
    working_days
}

} // verus!
