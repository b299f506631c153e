//! Durations and time zones: the playtime rendering, the current time in a
//! named zone, and zone-name suggestions.

use vstd::prelude::*;
use crate::text::{
    all_digits, append_pad2, dec_nat, is_digit, lemma_dec_nat_digits, lemma_pad_zero2_denotes, occurs_in, pad_zero2,
    parsed_i64, views,
};

verus! {

/// Integer division rounding toward zero, as Rust's `/` does on integers.
pub open spec fn trunc_div(a: int, b: int) -> int
    recommends
        b > 0,
{
    if a >= 0 {
        a / b
    } else {
        -((-a) / b)
    }
}

/// The remainder that goes with [`trunc_div`], as Rust's `%`; it has the sign of `a`.
pub open spec fn trunc_rem(a: int, b: int) -> int
    recommends
        b > 0,
{
    a - b * trunc_div(a, b)
}

/// Whole hours in a duration of `secs` seconds.
pub open spec fn duration_hours(secs: int) -> int {
    trunc_div(secs, 3600)
}

/// Minutes left over after the whole hours.
pub open spec fn duration_minutes(secs: int) -> int {
    trunc_div(trunc_rem(secs, 3600), 60)
}

/// Seconds left over after the whole minutes.
pub open spec fn duration_seconds(secs: int) -> int {
    trunc_rem(secs, 60)
}

/// `{:02}h {:02}m {:02}s` of the hours, minutes and seconds of a duration.
pub open spec fn duration_text(secs: int) -> Seq<char> {
    pad_zero2(duration_hours(secs)) + "h "@ + pad_zero2(duration_minutes(secs)) + "m "@
        + pad_zero2(duration_seconds(secs)) + "s"@
}

/// Renders a duration in seconds as hours, minutes and seconds.
pub fn format_duration_seconds(secs: i64) -> (r: String)
    ensures
        r@ == duration_text(secs as int),
{
    let hours: i64 = secs / 3600;
    let minutes: i64 = (secs % 3600) / 60;
    let seconds: i64 = secs % 60;
    assert(hours == duration_hours(secs as int));
    assert(minutes == duration_minutes(secs as int));
    assert(seconds == duration_seconds(secs as int));
    let mut r = String::new();
    append_pad2(&mut r, hours);
    r.append("h ");
    append_pad2(&mut r, minutes);
    r.append("m ");
    append_pad2(&mut r, seconds);
    r.append("s");
    r
}

} // verus!

verus! {

/// The hours, minutes and seconds shown add back up to the duration; the
/// minutes and seconds stay below sixty in size and share the duration's sign.
pub proof fn lemma_duration_parts(secs: int)
    ensures
        duration_hours(secs) * 3600 + duration_minutes(secs) * 60 + duration_seconds(secs) == secs,
        secs >= 0 ==> 0 <= duration_minutes(secs) < 60 && 0 <= duration_seconds(secs) < 60,
        secs < 0 ==> -60 < duration_minutes(secs) <= 0 && -60 < duration_seconds(secs) <= 0,
{
    if secs >= 0 {
        assert(secs == (secs / 3600) * 3600 + secs % 3600) by (nonlinear_arith);
        let r = secs % 3600;
        assert(r == (r / 60) * 60 + r % 60) by (nonlinear_arith);
        assert(secs % 60 == r % 60) by (nonlinear_arith)
            requires
                secs == (secs / 3600) * 3600 + r,
                0 <= r < 3600,
                secs >= 0,
        {
            assert(secs == ((secs / 3600) * 60 + r / 60) * 60 + r % 60);
        }
    } else {
        let a = -secs;
        assert(a == (a / 3600) * 3600 + a % 3600) by (nonlinear_arith);
        let r = a % 3600;
        assert(r == (r / 60) * 60 + r % 60) by (nonlinear_arith);
        assert(a % 60 == r % 60) by (nonlinear_arith)
            requires
                a == (a / 3600) * 3600 + r,
                0 <= r < 3600,
                a > 0,
        {
            assert(a == ((a / 3600) * 60 + r / 60) * 60 + r % 60);
        }
    }
}


/// A part from zero to fifty-nine, as `{:02}` writes it, takes two characters.
proof fn lemma_pad_zero2_below_sixty(v: i64)
    requires
        0 <= v < 60,
    ensures
        pad_zero2(v as int).len() == 2,
{
    lemma_pad_zero2_denotes(v);
    if v >= 10 {
        assert(dec_nat((v / 10) as nat).len() == 1);
    }
}

/// The rendered duration reads back as its parts: it is hours, `h `,
/// minutes, `m `, seconds and `s`, where each part is a decimal number that
/// denotes the hours, minutes and seconds of the duration; for a duration
/// that is not negative the minutes and seconds take two digits each and
/// the hours at least two.
pub proof fn lemma_duration_text_reads_back(secs: i64)
    ensures
        exists|h: Seq<char>, m: Seq<char>, s: Seq<char>|
            #![trigger parsed_i64(h), parsed_i64(m), parsed_i64(s)]
            duration_text(secs as int) == h + "h "@ + m + "m "@ + s + "s"@
            && parsed_i64(h) is Some && parsed_i64(h).unwrap() == duration_hours(secs as int)
            && parsed_i64(m) is Some && parsed_i64(m).unwrap() == duration_minutes(secs as int)
            && parsed_i64(s) is Some && parsed_i64(s).unwrap() == duration_seconds(secs as int)
            && (secs >= 0 ==> h.len() >= 2 && m.len() == 2 && s.len() == 2),
{
    lemma_duration_parts(secs as int);
    let hh = duration_hours(secs as int);
    let mm = duration_minutes(secs as int);
    let ss = duration_seconds(secs as int);
    assert(i64::MIN <= hh <= i64::MAX);
    let hv = hh as i64;
    let mv = mm as i64;
    let sv = ss as i64;
    lemma_pad_zero2_denotes(hv);
    lemma_pad_zero2_denotes(mv);
    lemma_pad_zero2_denotes(sv);
    let h = pad_zero2(hh);
    let m = pad_zero2(mm);
    let s = pad_zero2(ss);
    if secs >= 0 {
        lemma_pad_zero2_below_sixty(mv);
        lemma_pad_zero2_below_sixty(sv);
        if hh >= 10 {
            lemma_dec_nat_digits((hh / 10) as nat);
            assert(h == dec_nat((hh / 10) as nat).push(crate::text::digit_char((hh % 10) as nat)));
        }
        assert(h.len() >= 2);
    }
    assert(duration_text(secs as int) == h + "h "@ + m + "m "@ + s + "s"@);
    assert(parsed_i64(h) == Some(hv));
    assert(parsed_i64(m) == Some(mv));
    assert(parsed_i64(s) == Some(sv));
}

} // verus!

verus! {

/// Whether chrono-tz knows a zone by exactly this name.
pub uninterp spec fn zone_known(name: Seq<char>) -> bool;

/// The lowercase form of a text, as `str::to_lowercase` computes it.
pub uninterp spec fn lowercase(s: Seq<char>) -> Seq<char>;

/// What chrono writes for the instant `secs` seconds and `nanos`
/// nanoseconds after the Unix epoch, told in the zone named `zone` and laid
/// out by the strftime text `layout`.
pub uninterp spec fn zone_time_text(secs: i64, nanos: u32, zone: Seq<char>, layout: Seq<char>) -> Seq<char>;

/// `<chrono_tz::Tz as FromStr>::from_str`: looks the exact name up in
/// chrono-tz's table of zones. The contract claims only that the lookup
/// succeeds on the names the table knows, which `zone_known` stands for.
#[verifier::external_body]
fn knows_zone(name: &str) -> (b: bool)
    ensures
        b == zone_known(name@),
{
    name.parse::<chrono_tz::Tz>().is_ok()
}

/// The names (`Tz::name`) of the zones in `chrono_tz::TZ_VARIANTS`, in the
/// crate's order. The contract claims that these are exactly the names that
/// parse (in the crate's source the names of the variants and the keys of the
/// table that `from_str` reads are the same set) and that the crate lists them
/// in strictly ascending order; it does not list the names.
#[verifier::external_body]
fn zone_catalogue() -> (names: Vec<&'static str>)
    ensures
        forall|i: int| 0 <= i < names.len() ==> zone_known(#[trigger] names[i]@),
        forall|s: Seq<char>| #[trigger] zone_known(s) ==> exists|i: int| 0 <= i < names.len() && names[i]@ == s,
        forall|i: int, j: int| 0 <= i < j < names.len() ==> text_lt(#[trigger] names[i]@, #[trigger] names[j]@),
{
    let mut names = Vec::new();
    for tz in chrono_tz::TZ_VARIANTS.iter() {
        names.push(tz.name());
    }
    names
}

/// `str::to_lowercase`, named by [`lowercase`].
#[verifier::external_body]
fn to_lowercase(s: &str) -> (r: String)
    ensures
        r@ == lowercase(s@),
{
    s.to_lowercase()
}

/// The earliest instant chrono represents, in seconds from the Unix epoch
/// (`DateTime::<Utc>::MIN_UTC`, the first second of the year -262143).
pub const EARLIEST_TIMESTAMP: i64 = -8334601228800;

/// The latest whole second chrono represents, from the Unix epoch
/// (`DateTime::<Utc>::MAX_UTC`, the last second of the year 262142).
pub const LATEST_TIMESTAMP: i64 = 8210266876799;

/// `chrono::Utc::now`, taken apart into whole seconds and nanoseconds since
/// the Unix epoch (`timestamp`, `timestamp_subsec_nanos`). Which instant the
/// clock gives is not claimed. What is claimed holds of every reading that
/// comes back: `Utc::now` unwraps `DateTime::from_timestamp`, so it panics on
/// a reading that chrono cannot represent, and the nanoseconds are those of a
/// `Duration`, below one billion.
#[verifier::external_body]
fn clock_now() -> (r: (i64, u32))
    ensures
        EARLIEST_TIMESTAMP <= r.0 <= LATEST_TIMESTAMP,
        r.1 < 1_000_000_000,
{
    let now = chrono::Utc::now();
    (now.timestamp(), now.timestamp_subsec_nanos())
}

/// The strftime fields a time layout of this library may use.
pub open spec fn layout_field(c: char) -> bool {
    c == 'Y' || c == 'm' || c == 'd' || c == 'H' || c == 'M' || c == 'S' || c == 'Z'
}

/// Whether every `%` of a layout starts one of the fields of [`layout_field`].
pub open spec fn plain_layout(layout: Seq<char>) -> bool {
    forall|i: int| 0 <= i < layout.len() && #[trigger] layout[i] == '%' ==> i + 1 < layout.len() && layout_field(layout[i + 1])
}

/// `DateTime::from_timestamp(secs, nanos)`, moved into the zone named `zone`
/// with `with_timezone` and written with `format(layout)`, named by
/// [`zone_time_text`]. The `requires` keeps to the instants chrono
/// represents, to the zones chrono-tz knows and to layouts whose fields all
/// format (an unknown field makes `to_string` panic). For the layout
/// `%Y-%m-%d %H:%M:%S %Z` the contract also claims the text's shape, which
/// chrono's formatting code fixes: the year (four digits, or a sign and at
/// least four digits outside the years 0 to 9999), the two-digit month, day,
/// hour, minute and second with their separators, then the zone's
/// abbreviation, which chrono-tz writes as its name or else as a signed
/// offset, never empty.
#[verifier::external_body]
fn format_in_zone(secs: i64, nanos: u32, zone: &str, layout: &str) -> (t: String)
    requires
        EARLIEST_TIMESTAMP <= secs <= LATEST_TIMESTAMP,
        nanos < 1_000_000_000,
        zone_known(zone@),
        plain_layout(layout@),
    ensures
        t@ == zone_time_text(secs, nanos, zone@, layout@),
        layout@ == "%Y-%m-%d %H:%M:%S %Z"@ ==> time_text_shape(t@),
{
    let tz: chrono_tz::Tz = zone.parse().unwrap();
    chrono::DateTime::from_timestamp(secs, nanos).unwrap().with_timezone(&tz).format(layout).to_string()
}

/// Whether `a` comes before `b` in the order of `str`: at the first place
/// where they differ `a` has the smaller character, or `a` is a proper prefix of `b`.
pub open spec fn text_lt(a: Seq<char>, b: Seq<char>) -> bool {
    exists|i: int|
        0 <= i <= a.len() && i <= b.len() && #[trigger] a.take(i) == b.take(i) && ((i == a.len() && i < b.len())
            || (i < a.len() && i < b.len() && (a[i] as u32) < (b[i] as u32)))
}

/// What the zone suggestions for `query` are: at most ten zone names that
/// chrono-tz knows and whose lowercase form holds the lowercase query, in
/// ascending order, the smallest such names: every other such name comes
/// after all of them, and there is none when fewer than ten are listed.
pub open spec fn suggestions_for(query: Seq<char>, s: Seq<Seq<char>>) -> bool {
    &&& s.len() <= SUGGESTION_LIMIT
    &&& forall|i: int| 0 <= i < s.len() ==> zone_known(#[trigger] s[i])
    &&& forall|i: int| 0 <= i < s.len() ==> occurs_in(lowercase(#[trigger] s[i]), lowercase(query))
    &&& forall|i: int, j: int| 0 <= i < j < s.len() ==> text_lt(#[trigger] s[i], #[trigger] s[j])
    &&& forall|name: Seq<char>|
        #[trigger] zone_known(name) && occurs_in(lowercase(name), lowercase(query)) && !s.contains(name) ==> {
            &&& s.len() == SUGGESTION_LIMIT
            &&& forall|i: int| 0 <= i < s.len() ==> text_lt(#[trigger] s[i], name)
        }
}

/// Whether a text is a year as chrono's `%Y` writes it.
pub open spec fn year_text(y: Seq<char>) -> bool {
    ||| y.len() == 4 && all_digits(y)
    ||| y.len() >= 5 && (y[0] == '+' || y[0] == '-') && all_digits(y.drop_first())
}

/// Whether the characters at `at` and `at + 1` are digits.
pub open spec fn two_digits(t: Seq<char>, at: int) -> bool {
    is_digit(t[at]) && is_digit(t[at + 1])
}

/// Whether a text has the layout `YYYY-MM-DD HH:MM:SS ZONE`, with a year as
/// `%Y` writes it and a non-empty zone abbreviation.
pub open spec fn time_text_shape(t: Seq<char>) -> bool {
    exists|k: int|
        4 <= k && k + 16 < t.len() && #[trigger] year_text(t.take(k)) && t[k] == '-' && two_digits(t, k + 1)
            && t[k + 3] == '-' && two_digits(t, k + 4) && t[k + 6] == ' ' && two_digits(t, k + 7) && t[k + 9]
            == ':' && two_digits(t, k + 10) && t[k + 12] == ':' && two_digits(t, k + 13) && t[k + 15] == ' '
}

/// Why a time could not be told.
#[derive(Debug, Clone, PartialEq, Eq)]
pub enum TimeError {
    /// The zone name is not one that chrono-tz knows.
    InvalidTimezone(String),
}

impl TimeError {
    /// The message the bot logs for this error.
    pub fn message(&self) -> (m: String)
        ensures
            m@ == (match self {
                TimeError::InvalidTimezone(name) => "Invalid timezone: "@ + name@,
            }),
    {
        match self {
            TimeError::InvalidTimezone(name) => {
                let mut m = String::new();
                m.append("Invalid timezone: ");
                m.append(name.as_str());
                m
            },
        }
    }
}

/// The layout in which the bot tells a time: date, time of day and the
/// zone's abbreviation.
pub open spec fn time_layout() -> Seq<char> {
    "%Y-%m-%d %H:%M:%S %Z"@
}

fn time_layout_str() -> (l: &'static str)
    ensures
        l@ == time_layout(),
        plain_layout(l@),
{
    let l = "%Y-%m-%d %H:%M:%S %Z";
    proof {
        reveal_strlit("%Y-%m-%d %H:%M:%S %Z");
        assert forall|i: int| 0 <= i < l@.len() && #[trigger] l@[i] == '%' implies i + 1 < l@.len()
            && layout_field(l@[i + 1]) by {
            assert(i == 0 || i == 3 || i == 6 || i == 9 || i == 12 || i == 15 || i == 18);
        }
    }
    l
}

/// The time in the zone named `tz_str` at the instant `secs` seconds and
/// `nanos` nanoseconds after the Unix epoch; an error exactly when chrono-tz
/// does not know the name.
pub fn time_in_zone(tz_str: &str, secs: i64, nanos: u32) -> (r: Result<String, TimeError>)
    requires
        EARLIEST_TIMESTAMP <= secs <= LATEST_TIMESTAMP,
        nanos < 1_000_000_000,
    ensures
        r.is_ok() == zone_known(tz_str@),
        r matches Err(TimeError::InvalidTimezone(name)) ==> name@ == tz_str@,
        r matches Ok(t) ==> t@ == zone_time_text(secs, nanos, tz_str@, time_layout()) && time_text_shape(t@),
{
    if knows_zone(tz_str) {
        let layout = time_layout_str();
        Ok(format_in_zone(secs, nanos, tz_str, layout))
    } else {
        Err(TimeError::InvalidTimezone(tz_str.to_owned()))
    }
}

/// The current time in the zone named `tz_str`; an error exactly when
/// chrono-tz does not know the name. The time told is the one chrono writes
/// for some instant the clock gave, in that zone.
pub fn now_in_timezone(tz_str: &str) -> (r: Result<String, TimeError>)
    ensures
        r.is_ok() == zone_known(tz_str@),
        r matches Err(TimeError::InvalidTimezone(name)) ==> name@ == tz_str@,
        r matches Ok(t) ==> time_text_shape(t@) && exists|secs: i64, nanos: u32|
            EARLIEST_TIMESTAMP <= secs <= LATEST_TIMESTAMP && nanos < 1_000_000_000 && t@ == zone_time_text(
                secs,
                nanos,
                tz_str@,
                time_layout(),
            ),
{
    let (secs, nanos) = clock_now();
    time_in_zone(tz_str, secs, nanos)
}

} // verus!

verus! {

/// The most zone names a suggestion list holds.
pub const SUGGESTION_LIMIT: usize = 10;

/// The names among the first `k` whose lowercase form holds `query`, in order.
pub open spec fn matching_names(names: Seq<Seq<char>>, lowered: Seq<Seq<char>>, query: Seq<char>, k: int) -> Seq<Seq<char>>
    decreases k,
{
    if k <= 0 {
        seq![]
    } else {
        let before = matching_names(names, lowered, query, k - 1);
        if occurs_in(lowered[k - 1], query) {
            before.push(names[k - 1])
        } else {
            before
        }
    }
}

/// At most the first `n` items.
pub open spec fn first_n<A>(s: Seq<A>, n: nat) -> Seq<A> {
    if s.len() <= n {
        s
    } else {
        s.take(n as int)
    }
}

/// The names of a catalogue.
pub open spec fn str_views(v: Seq<&'static str>) -> Seq<Seq<char>> {
    v.map_values(|x: &'static str| x@)
}

/// The first ten names, in catalogue order, whose lowercase form
/// (`lowered[i]` for `names[i]`) holds the lowercase `query`.
pub fn select_timezones(names: &Vec<&'static str>, lowered: &Vec<String>, query: &str) -> (r: Vec<String>)
    requires
        names.len() == lowered.len(),
    ensures
        views(r@) == first_n(
            matching_names(str_views(names@), views(lowered@), query@, names.len() as int),
            SUGGESTION_LIMIT as nat,
        ),
{
    let q = crate::text::chars_of(query);
    let ghost nv = str_views(names@);
    let ghost lv = views(lowered@);
    let mut r: Vec<String> = Vec::new();
    let mut k: usize = 0;
    while k < names.len()
        invariant
            k <= names.len() == lowered.len(),
            q@ == query@,
            nv == str_views(names@),
            lv == views(lowered@),
            views(r@) == first_n(matching_names(nv, lv, query@, k as int), SUGGESTION_LIMIT as nat),
        decreases names.len() - k,
    {
        let ghost before = matching_names(nv, lv, query@, k as int);
        let candidate = crate::text::chars_of(lowered[k].as_str());
        let hit = crate::text::contains_chars(&candidate, &q);
        assert(lv[k as int] == lowered@[k as int]@);
        assert(nv[k as int] == names@[k as int]@);
        if hit && r.len() < SUGGESTION_LIMIT {
            assert(views(r@).len() == r@.len());
            assert(views(r@) == before);
            let ghost old_r = r@;
            let name = names[k].to_owned();
            r.push(name);
            assert(r@ == old_r.push(name));
            assert(views(r@) =~= before.push(nv[k as int]));
        } else if hit {
            assert(before.push(nv[k as int]).take(10) =~= before.take(10));
        }
        k = k + 1;
    }
    r
}

/// Up to ten zone names that hold `query`, ignoring case.
pub fn list_timezones(query: &str) -> (r: Vec<String>)
    ensures
        r.len() <= SUGGESTION_LIMIT,
        suggestions_for(query@, views(r@)),
{
    let q = to_lowercase(query);
    let names = zone_catalogue();
    let mut lowered: Vec<String> = Vec::new();
    let mut k: usize = 0;
    while k < names.len()
        invariant
            k <= names.len(),
            lowered.len() == k,
            forall|j: int| 0 <= j < k ==> #[trigger] lowered@[j]@ == lowercase(names@[j]@),
        decreases names.len() - k,
    {
        lowered.push(to_lowercase(names[k]));
        k = k + 1;
    }
    let r = select_timezones(&names, &lowered, q.as_str());
    proof {
        let nv = str_views(names@);
        let lv = views(lowered@);
        let n = names.len() as int;
        let m = matching_names(nv, lv, q@, n);
        let rv = views(r@);
        assert forall|i: int, j: int| 0 <= i < j < nv.len() implies text_lt(#[trigger] nv[i], #[trigger] nv[j]) by {
            assert(nv[i] == names@[i]@);
            assert(nv[j] == names@[j]@);
        }
        lemma_matching_names_sound(nv, lv, q@, n);
        lemma_matching_names_ordered(nv, lv, q@, n);
        lemma_matching_names_complete(nv, lv, q@, n);
        assert(rv == first_n(m, 10));
        assert(rv.len() <= m.len());
        assert forall|i: int| 0 <= i < rv.len() implies rv[i] == m[i] by {}
        assert forall|i: int| 0 <= i < rv.len() implies zone_known(#[trigger] rv[i]) && occurs_in(
            lowercase(rv[i]),
            lowercase(query@),
        ) by {
            assert(rv[i] == m[i]);
            assert(listed_match(nv, lv, q@, n, m[i]));
            let j = choose|j: int| 0 <= j < n && m[i] == nv[j] && occurs_in(lv[j], q@);
            assert(nv[j] == names@[j]@);
            assert(lv[j] == lowered@[j]@);
        }
        assert forall|i: int, j: int| 0 <= i < j < rv.len() implies text_lt(#[trigger] rv[i], #[trigger] rv[j]) by {
            assert(rv[i] == m[i]);
            assert(rv[j] == m[j]);
        }
        assert forall|name: Seq<char>|
            #[trigger] zone_known(name) && occurs_in(lowercase(name), lowercase(query@)) && !rv.contains(name) implies {
                &&& rv.len() == SUGGESTION_LIMIT
                &&& forall|i: int| 0 <= i < rv.len() ==> text_lt(#[trigger] rv[i], name)
            } by {
            let j = choose|j: int| 0 <= j < names.len() && names@[j]@ == name;
            assert(nv[j] == name);
            assert(lv[j] == lowered@[j]@);
            assert(occurs_in(lv[j], q@));
            assert(m.contains(name));
            let p = choose|p: int| 0 <= p < m.len() && m[p] == name;
            if p < rv.len() {
                assert(rv[p] == name);
                assert(rv.contains(name));
            }
            assert(m.len() > rv.len());
            assert forall|i: int| 0 <= i < rv.len() implies text_lt(#[trigger] rv[i], name) by {
                assert(rv[i] == m[i]);
                assert(i < p);
            }
        }
    }
    r
}

/// In a catalogue listed in ascending order, the matching names ascend too.
pub proof fn lemma_matching_names_ordered(names: Seq<Seq<char>>, lowered: Seq<Seq<char>>, query: Seq<char>, k: int)
    requires
        0 <= k <= names.len() == lowered.len(),
        forall|i: int, j: int| 0 <= i < j < names.len() ==> text_lt(#[trigger] names[i], #[trigger] names[j]),
    ensures
        forall|i: int, j: int|
            0 <= i < j < matching_names(names, lowered, query, k).len() ==> text_lt(
                #[trigger] matching_names(names, lowered, query, k)[i],
                #[trigger] matching_names(names, lowered, query, k)[j],
            ),
    decreases k,
{
    if k > 0 {
        lemma_matching_names_ordered(names, lowered, query, k - 1);
        lemma_matching_names_sound(names, lowered, query, k - 1);
        let before = matching_names(names, lowered, query, k - 1);
        let m = matching_names(names, lowered, query, k);
        if occurs_in(lowered[k - 1], query) {
            assert(m == before.push(names[k - 1]));
            assert forall|i: int, j: int| 0 <= i < j < m.len() implies text_lt(#[trigger] m[i], #[trigger] m[j]) by {
                if j < before.len() {
                    assert(m[i] == before[i] && m[j] == before[j]);
                } else {
                    assert(m[i] == before[i]);
                    assert(listed_match(names, lowered, query, k - 1, before[i]));
                    let t = choose|t: int| 0 <= t < k - 1 && before[i] == names[t] && occurs_in(lowered[t], query);
                    assert(m[j] == names[k - 1]);
                }
            }
        } else {
            assert(m == before);
        }
    }
}

/// Every name among the first `k` whose lowercase form holds the query is
/// one of the matching names.
pub proof fn lemma_matching_names_complete(names: Seq<Seq<char>>, lowered: Seq<Seq<char>>, query: Seq<char>, k: int)
    requires
        0 <= k <= names.len() == lowered.len(),
    ensures
        forall|j: int| 0 <= j < k && occurs_in(lowered[j], query) ==> #[trigger] matching_names(
            names,
            lowered,
            query,
            k,
        ).contains(names[j]),
    decreases k,
{
    if k > 0 {
        lemma_matching_names_complete(names, lowered, query, k - 1);
        let before = matching_names(names, lowered, query, k - 1);
        let m = matching_names(names, lowered, query, k);
        if occurs_in(lowered[k - 1], query) {
            assert(m == before.push(names[k - 1]));
        } else {
            assert(m == before);
        }
        assert forall|j: int| 0 <= j < k && occurs_in(lowered[j], query) implies #[trigger] matching_names(
            names,
            lowered,
            query,
            k,
        ).contains(names[j]) by {
            if j < k - 1 {
                assert(before.contains(names[j]));
                let i = choose|i: int| 0 <= i < before.len() && before[i] == names[j];
                assert(m[i] == names[j]);
            } else {
                assert(m[before.len() as int] == names[j]);
            }
        }
    }
}

/// Whether `x` is one of the first `k` names and its lowercase form holds `query`.
pub open spec fn listed_match(names: Seq<Seq<char>>, lowered: Seq<Seq<char>>, query: Seq<char>, k: int, x: Seq<char>) -> bool {
    exists|j: int| 0 <= j < k && x == names[j] && occurs_in(lowered[j], query)
}

/// Every matching name comes from the catalogue with a lowercase form that
/// holds the query.
pub proof fn lemma_matching_names_sound(names: Seq<Seq<char>>, lowered: Seq<Seq<char>>, query: Seq<char>, k: int)
    requires
        0 <= k <= names.len() == lowered.len(),
    ensures
        matching_names(names, lowered, query, k).len() <= k,
        forall|i: int| 0 <= i < matching_names(names, lowered, query, k).len() ==> listed_match(
            names,
            lowered,
            query,
            k,
            #[trigger] matching_names(names, lowered, query, k)[i],
        ),
    decreases k,
{
    if k > 0 {
        lemma_matching_names_sound(names, lowered, query, k - 1);
        let before = matching_names(names, lowered, query, k - 1);
        let m = matching_names(names, lowered, query, k);
        if occurs_in(lowered[k - 1], query) {
            assert(m == before.push(names[k - 1]));
        } else {
            assert(m == before);
        }
        assert forall|i: int| 0 <= i < m.len() implies listed_match(names, lowered, query, k, #[trigger] m[i]) by {
            if i < before.len() {
                assert(m[i] == before[i]);
                assert(listed_match(names, lowered, query, k - 1, before[i]));
                let j = choose|j: int| 0 <= j < k - 1 && before[i] == names[j] && occurs_in(lowered[j], query);
                assert(m[i] == names[j]);
            } else {
                assert(m[i] == names[k - 1]);
            }
        }
    }
}

} // verus!
