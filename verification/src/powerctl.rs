//! Formatting used by the command-line client.

use crate::text::{decimal, text_eq, texts, to_decimal};
use vstd::prelude::*;

verus! {

/// `<hours>h <minutes>m` for a duration in seconds (seconds dropped).
pub open spec fn hm_text(total_secs: u64) -> Seq<char> {
    decimal((total_secs / 3600) as nat) + "h "@ + decimal(((total_secs % 3600) / 60) as nat) + "m"@
}

pub fn format_hm(total_secs: u64) -> (r: String)
    ensures
        r@ == hm_text(total_secs),
{
    let hours = to_decimal(total_secs / 3600);
    let minutes = to_decimal((total_secs % 3600) / 60);
    hours.concat("h ").concat(minutes.as_str()).concat("m")
}

/// What the daemon reports of one battery, as the client prints it. The
/// charge arrives already rounded to whole percent.
#[derive(Debug, Clone)]
pub struct BatterySummary {
    pub id: Option<String>,
    pub percent: Option<String>,
    pub status: Option<String>,
    pub health: Option<String>,
    pub time_to_empty_secs: Option<u64>,
    pub time_to_full_secs: Option<u64>,
    pub cycle_count: Option<u64>,
}

/// The text of `t`, or `fallback` when there is none.
pub open spec fn text_or(t: Option<String>, fallback: Seq<char>) -> Seq<char> {
    match t {
        Some(s) => s@,
        None => fallback,
    }
}

/// The line `label` followed by `value`, if there is a value.
pub open spec fn optional_line(label: Seq<char>, value: Option<Seq<char>>) -> Seq<Seq<char>> {
    match value {
        Some(v) => seq![label + v],
        None => Seq::empty(),
    }
}

/// The lines printed for one battery: its id, then its charge, status,
/// health, time to empty, time to full and cycle count, each only where the
/// daemon reported it (status and health fall back to `unknown`).
pub open spec fn summary_lines(b: BatterySummary) -> Seq<Seq<char>> {
    seq![text_or(b.id, "?"@)] + optional_line(
        "  Charge   : "@,
        match b.percent {
            Some(p) => Some(p@ + "%"@),
            None => None,
        },
    ) + seq![
        "  Status   : "@ + text_or(b.status, "unknown"@),
        "  Health   : "@ + text_or(b.health, "unknown"@),
    ] + optional_line(
        "  Empty in : "@,
        match b.time_to_empty_secs {
            Some(t) => Some(hm_text(t)),
            None => None,
        },
    ) + optional_line(
        "  Full in  : "@,
        match b.time_to_full_secs {
            Some(t) => Some(hm_text(t)),
            None => None,
        },
    ) + optional_line(
        "  Cycles   : "@,
        match b.cycle_count {
            Some(n) => Some(decimal(n as nat)),
            None => None,
        },
    )
}

/// The lines of every battery of `bs`, in order.
pub open spec fn summaries_lines(bs: Seq<BatterySummary>) -> Seq<Seq<char>>
    decreases bs.len(),
{
    if bs.len() == 0 {
        Seq::empty()
    } else {
        summaries_lines(bs.drop_last()) + summary_lines(bs.last())
    }
}

/// The battery report: a note when the daemon sent no battery list, another
/// when the list is empty, else the lines of each battery.
pub open spec fn battery_report(batteries: Option<Seq<BatterySummary>>) -> Seq<Seq<char>> {
    match batteries {
        None => seq!["No battery data available"@],
        Some(bs) => if bs.len() == 0 {
            seq!["No battery present (desktop or VM?)"@]
        } else {
            summaries_lines(bs)
        },
    }
}

fn push_line(out: &mut Vec<String>, line: String)
    ensures
        texts(final(out)@) == texts(old(out)@).push(line@),
{
    let ghost before = out@;
    out.push(line);
    assert(texts(out@) =~= texts(before).push(line@));
}

fn push_optional(out: &mut Vec<String>, label: &str, value: Option<String>)
    ensures
        texts(final(out)@) == texts(old(out)@) + optional_line(
            label@,
            match value {
                Some(v) => Some(v@),
                None => None,
            },
        ),
{
    match value {
        Some(v) => {
            push_line(out, String::from_str(label).concat(v.as_str()));
            assert(texts(out@) =~= texts(old(out)@) + seq![label@ + v@]);
        },
        None => {
            assert(texts(out@) =~= texts(old(out)@) + Seq::<Seq<char>>::empty());
        },
    }
}

fn text_or_else(t: &Option<String>, fallback: &str) -> (r: String)
    ensures
        r@ == text_or(*t, fallback@),
{
    match t {
        Some(s) => s.clone(),
        None => String::from_str(fallback),
    }
}

fn push_summary(out: &mut Vec<String>, b: &BatterySummary)
    ensures
        texts(final(out)@) == texts(old(out)@) + summary_lines(*b),
{
    let ghost start = texts(out@);
    push_line(out, text_or_else(&b.id, "?"));
    let percent = match &b.percent {
        Some(p) => Some(p.clone().concat("%")),
        None => None,
    };
    push_optional(out, "  Charge   : ", percent);
    push_line(out, String::from_str("  Status   : ").concat(text_or_else(&b.status, "unknown").as_str()));
    push_line(out, String::from_str("  Health   : ").concat(text_or_else(&b.health, "unknown").as_str()));
    let empty_in = match b.time_to_empty_secs {
        Some(t) => Some(format_hm(t)),
        None => None,
    };
    push_optional(out, "  Empty in : ", empty_in);
    let full_in = match b.time_to_full_secs {
        Some(t) => Some(format_hm(t)),
        None => None,
    };
    push_optional(out, "  Full in  : ", full_in);
    let cycles = match b.cycle_count {
        Some(n) => Some(to_decimal(n)),
        None => None,
    };
    push_optional(out, "  Cycles   : ", cycles);
    assert(texts(out@) =~= start + summary_lines(*b));
}

/// The lines that `mitos-powerctl battery` prints for what the daemon
/// answered: `None` when the answer held no battery list.
pub fn battery_lines(batteries: Option<&Vec<BatterySummary>>) -> (r: Vec<String>)
    ensures
        texts(r@) == battery_report(
            match batteries {
                Some(v) => Some(v@),
                None => None,
            },
        ),
{
    let mut out: Vec<String> = Vec::new();
    match batteries {
        None => {
            push_line(&mut out, String::from_str("No battery data available"));
            assert(texts(out@) =~= seq!["No battery data available"@]);
        },
        Some(bs) => {
            if bs.len() == 0 {
                push_line(&mut out, String::from_str("No battery present (desktop or VM?)"));
                assert(texts(out@) =~= seq!["No battery present (desktop or VM?)"@]);
            } else {
                let mut i: usize = 0;
                assert(texts(out@) =~= summaries_lines(bs@.take(0)));
                while i < bs.len()
                    invariant
                        i <= bs@.len(),
                        texts(out@) == summaries_lines(bs@.take(i as int)),
                    decreases bs@.len() - i,
                {
                    push_summary(&mut out, &bs[i]);
                    assert(bs@.take(i as int + 1).drop_last() =~= bs@.take(i as int));
                    i = i + 1;
                }
                assert(bs@.take(bs@.len() as int) =~= bs@);
            }
        },
    }
    out
}

// ---- shared layout ---------------------------------------------------------

/// `s` padded on the right with spaces to `width` characters (left as it is
/// when it is already that long), as `{:<width}` formats it.
pub open spec fn padded(s: Seq<char>, width: nat) -> Seq<char> {
    if s.len() >= width {
        s
    } else {
        s + Seq::new((width - s.len()) as nat, |i: int| ' ')
    }
}

fn pad_to(s: &str, width: usize) -> (r: String)
    ensures
        r@ == padded(s@, width as nat),
{
    let n = s.unicode_len();
    let mut out = String::from_str(s);
    if n >= width {
        return out;
    }
    let mut k: usize = n;
    proof {
        reveal_strlit(" ");
        assert(out@ =~= s@ + Seq::new((k - n) as nat, |i: int| ' '));
    }
    while k < width
        invariant
            n == s@.len(),
            n <= k <= width,
            out@ == s@ + Seq::new((k - n) as nat, |i: int| ' '),
        decreases width - k,
    {
        out.append(" ");
        proof {
            reveal_strlit(" ");
        }
        assert(out@ =~= s@ + Seq::new((k + 1 - n) as nat, |i: int| ' '));
        k = k + 1;
    }
    out
}

/// `value` followed by `unit`, if there is a value.
pub open spec fn with_unit(value: Option<String>, unit: Seq<char>) -> Option<Seq<char>> {
    match value {
        Some(v) => Some(v@ + unit),
        None => None,
    }
}

fn text_with_unit(value: &Option<String>, unit: &str) -> (r: Option<String>)
    ensures
        match r {
            Some(t) => with_unit(*value, unit@) == Some(t@),
            None => value is None,
        },
{
    match value {
        Some(v) => Some(v.clone().concat(unit)),
        None => None,
    }
}

/// The decimal digits of `n`, if there is a number.
pub open spec fn number_text(n: Option<u64>, unit: Seq<char>) -> Option<Seq<char>> {
    match n {
        Some(v) => Some(decimal(v as nat) + unit),
        None => None,
    }
}

fn optional_number(n: Option<u64>, unit: &str) -> (r: Option<String>)
    ensures
        match r {
            Some(t) => number_text(n, unit@) == Some(t@),
            None => n is None,
        },
{
    match n {
        Some(v) => Some(to_decimal(v).concat(unit)),
        None => None,
    }
}

fn push_some(out: &mut Vec<String>, label: &str, value: Option<String>, Ghost(spec): Ghost<
    Option<Seq<char>>,
>)
    requires
        match value {
            Some(t) => spec == Some(t@),
            None => spec is None,
        },
    ensures
        texts(final(out)@) == texts(old(out)@) + optional_line(label@, spec),
{
    push_optional(out, label, value);
}

// ---- status ----------------------------------------------------------------

/// What `GetPowerState` and `GetProfile` report, as the status command
/// prints it. The battery charge arrives already rounded to whole percent.
#[derive(Debug, Clone)]
pub struct StatusSummary {
    pub on_ac: Option<bool>,
    pub percent: Option<String>,
    pub profile: Option<String>,
    pub thermal_level: Option<String>,
    pub brightness_percent: Option<u64>,
    pub active_inhibitors: Option<u64>,
    pub idle_seconds: Option<u64>,
}

/// The one-screen status: power source (battery unless AC is reported),
/// charge and brightness where reported, profile and thermal level
/// (`unknown` when missing), inhibitor count and idle time (0 when missing).
pub open spec fn status_report(s: StatusSummary) -> Seq<Seq<char>> {
    seq![
        "Power source : "@ + (if s.on_ac == Some(true) {
            "AC"@
        } else {
            "Battery"@
        }),
    ] + optional_line("Battery      : "@, with_unit(s.percent, "%"@)) + seq![
        "Profile      : "@ + text_or(s.profile, "unknown"@),
        "Thermal      : "@ + text_or(s.thermal_level, "unknown"@),
    ] + optional_line("Brightness   : "@, number_text(s.brightness_percent, "%"@)) + seq![
        "Inhibitors   : "@ + decimal(
            (match s.active_inhibitors {
                Some(n) => n,
                None => 0u64,
            }) as nat,
        ) + " active"@,
        "Idle for     : "@ + decimal(
            (match s.idle_seconds {
                Some(n) => n,
                None => 0u64,
            }) as nat,
        ) + "s"@,
    ]
}

/// The lines that `mitos-powerctl status` prints.
pub fn status_lines(s: &StatusSummary) -> (r: Vec<String>)
    ensures
        texts(r@) == status_report(*s),
{
    let mut out: Vec<String> = Vec::new();
    let on_ac = match s.on_ac {
        Some(b) => b,
        None => false,
    };
    let source = if on_ac {
        "AC"
    } else {
        "Battery"
    };
    push_line(&mut out, String::from_str("Power source : ").concat(source));
    let percent = text_with_unit(&s.percent, "%");
    push_some(&mut out, "Battery      : ", percent, Ghost(with_unit(s.percent, "%"@)));
    push_line(&mut out, String::from_str("Profile      : ").concat(text_or_else(&s.profile, "unknown").as_str()));
    push_line(
        &mut out,
        String::from_str("Thermal      : ").concat(text_or_else(&s.thermal_level, "unknown").as_str()),
    );
    let brightness = optional_number(s.brightness_percent, "%");
    push_some(&mut out, "Brightness   : ", brightness, Ghost(number_text(s.brightness_percent, "%"@)));
    let active = match s.active_inhibitors {
        Some(n) => n,
        None => 0,
    };
    push_line(
        &mut out,
        String::from_str("Inhibitors   : ").concat(to_decimal(active).as_str()).concat(" active"),
    );
    let idle = match s.idle_seconds {
        Some(n) => n,
        None => 0,
    };
    push_line(&mut out, String::from_str("Idle for     : ").concat(to_decimal(idle).as_str()).concat("s"));
    assert(texts(out@) =~= status_report(*s));
    out
}

// ---- thermal ---------------------------------------------------------------

/// What `GetThermalState` reports, with each temperature already written to
/// one decimal place.
#[derive(Debug, Clone)]
pub struct ThermalSummary {
    pub level: Option<String>,
    pub highest_temp: Option<String>,
    pub warning_temp: Option<String>,
    pub critical_temp: Option<String>,
}

/// One zone of `GetThermalZones`, its temperature written to one decimal
/// place.
#[derive(Debug, Clone)]
pub struct ZoneSummary {
    pub id: Option<String>,
    pub zone_type: Option<String>,
    pub temperature: Option<String>,
}

/// The line of one zone: id and type padded to columns, then the
/// temperature or `(unavailable)`.
pub open spec fn zone_line(z: ZoneSummary) -> Seq<char> {
    "  "@ + padded(text_or(z.id, "?"@), 16) + " "@ + padded(text_or(z.zone_type, "?"@), 14) + " "@
        + match z.temperature {
        Some(t) => t@ + "\u{b0}C"@,
        None => "(unavailable)"@,
    }
}

/// The lines of every zone of `zs`, in order.
pub open spec fn zones_lines(zs: Seq<ZoneSummary>) -> Seq<Seq<char>>
    decreases zs.len(),
{
    if zs.len() == 0 {
        Seq::empty()
    } else {
        zones_lines(zs.drop_last()).push(zone_line(zs.last()))
    }
}

/// The thermal report: the level (`unknown` when missing), the hottest
/// zone's temperature where reported, the warning and critical thresholds
/// (`0.0` when missing), and, for a non-empty zone list, a blank line, a
/// heading and one line per zone.
pub open spec fn thermal_report(s: ThermalSummary, zones: Option<Seq<ZoneSummary>>) -> Seq<
    Seq<char>,
> {
    seq!["Thermal level : "@ + text_or(s.level, "unknown"@)] + optional_line(
        "Highest zone  : "@,
        with_unit(s.highest_temp, "\u{b0}C"@),
    ) + seq![
        "Warning / crit: "@ + text_or(s.warning_temp, "0.0"@) + "\u{b0}C / "@ + text_or(
            s.critical_temp,
            "0.0"@,
        ) + "\u{b0}C"@,
    ] + match zones {
        Some(zs) => if zs.len() > 0 {
            seq![""@, "Zones:"@] + zones_lines(zs)
        } else {
            Seq::empty()
        },
        None => Seq::empty(),
    }
}

fn zone_text(z: &ZoneSummary) -> (r: String)
    ensures
        r@ == zone_line(*z),
{
    let id = pad_to(text_or_else(&z.id, "?").as_str(), 16);
    let kind = pad_to(text_or_else(&z.zone_type, "?").as_str(), 14);
    let temp = match &z.temperature {
        Some(t) => t.clone().concat("\u{b0}C"),
        None => String::from_str("(unavailable)"),
    };
    String::from_str("  ").concat(id.as_str()).concat(" ").concat(kind.as_str()).concat(" ").concat(
        temp.as_str(),
    )
}

/// The lines that `mitos-powerctl thermal` prints for the daemon's thermal
/// state and its zone list (`None` when the answer held no list).
pub fn thermal_lines(s: &ThermalSummary, zones: Option<&Vec<ZoneSummary>>) -> (r: Vec<String>)
    ensures
        texts(r@) == thermal_report(
            *s,
            match zones {
                Some(v) => Some(v@),
                None => None,
            },
        ),
{
    let mut out: Vec<String> = Vec::new();
    push_line(&mut out, String::from_str("Thermal level : ").concat(text_or_else(&s.level, "unknown").as_str()));
    let highest = text_with_unit(&s.highest_temp, "\u{b0}C");
    push_some(&mut out, "Highest zone  : ", highest, Ghost(with_unit(s.highest_temp, "\u{b0}C"@)));
    push_line(
        &mut out,
        String::from_str("Warning / crit: ").concat(text_or_else(&s.warning_temp, "0.0").as_str()).concat(
            "\u{b0}C / ",
        ).concat(text_or_else(&s.critical_temp, "0.0").as_str()).concat("\u{b0}C"),
    );
    let ghost head = texts(out@);
    match zones {
        Some(zs) => {
            if zs.len() > 0 {
                push_line(&mut out, String::from_str(""));
                push_line(&mut out, String::from_str("Zones:"));
                let ghost top = texts(out@);
                let mut i: usize = 0;
                assert(zones_lines(zs@.take(0)) =~= Seq::<Seq<char>>::empty());
                assert(top =~= top + zones_lines(zs@.take(0)));
                while i < zs.len()
                    invariant
                        i <= zs@.len(),
                        texts(out@) == top + zones_lines(zs@.take(i as int)),
                    decreases zs@.len() - i,
                {
                    push_line(&mut out, zone_text(&zs[i]));
                    assert(zs@.take(i as int + 1).drop_last() =~= zs@.take(i as int));
                    assert(texts(out@) =~= top + zones_lines(zs@.take(i as int + 1)));
                    i = i + 1;
                }
                assert(zs@.take(zs@.len() as int) =~= zs@);
                assert(texts(out@) =~= head + (seq![""@, "Zones:"@] + zones_lines(zs@)));
            } else {
                assert(texts(out@) =~= head + Seq::<Seq<char>>::empty());
            }
        },
        None => {
            assert(texts(out@) =~= head + Seq::<Seq<char>>::empty());
        },
    }
    out
}

// ---- profiles --------------------------------------------------------------

/// One entry of `ListProfiles`: its name and its description.
#[derive(Debug, Clone)]
pub struct ProfileEntry {
    pub name: Option<String>,
    pub description: Option<String>,
}

/// The line confirming a profile change.
pub open spec fn profile_set_text(name: Seq<char>) -> Seq<char> {
    "Profile set to '"@ + name + "'"@
}

pub fn profile_set_line(name: &str) -> (r: String)
    ensures
        r@ == profile_set_text(name@),
{
    String::from_str("Profile set to '").concat(name).concat("'")
}

/// The line of one available profile: a `*` marks the current one, the name
/// is padded to a column, then the description.
pub open spec fn profile_line(p: ProfileEntry, current: Seq<char>) -> Seq<char> {
    let name = text_or(p.name, "?"@);
    " "@ + (if name == current {
        "*"@
    } else {
        " "@
    }) + " "@ + padded(name, 14) + " "@ + text_or(p.description, ""@)
}

pub open spec fn profiles_lines(ps: Seq<ProfileEntry>, current: Seq<char>) -> Seq<Seq<char>>
    decreases ps.len(),
{
    if ps.len() == 0 {
        Seq::empty()
    } else {
        profiles_lines(ps.drop_last(), current).push(profile_line(ps.last(), current))
    }
}

/// The profile report: the current profile (`unknown` when missing) and,
/// when the daemon sent a list, a blank line, a heading and every profile.
pub open spec fn profile_report(current: Option<String>, profiles: Option<Seq<ProfileEntry>>) -> Seq<
    Seq<char>,
> {
    let cur = text_or(current, "unknown"@);
    seq!["Current profile: "@ + cur] + match profiles {
        Some(ps) => seq![""@, "Available profiles:"@] + profiles_lines(ps, cur),
        None => Seq::empty(),
    }
}

fn profile_text(p: &ProfileEntry, current: &str) -> (r: String)
    ensures
        r@ == profile_line(*p, current@),
{
    let name = text_or_else(&p.name, "?");
    let marker = if text_eq(name.as_str(), current) {
        "*"
    } else {
        " "
    };
    String::from_str(" ").concat(marker).concat(" ").concat(pad_to(name.as_str(), 14).as_str()).concat(
        " ",
    ).concat(text_or_else(&p.description, "").as_str())
}

/// The lines that `mitos-powerctl profile` prints when asked for the current
/// profile: the `GetProfile` name and the `ListProfiles` entries (`None`
/// when the answer held no list).
pub fn profile_lines(current: &Option<String>, profiles: Option<&Vec<ProfileEntry>>) -> (r: Vec<
    String,
>)
    ensures
        texts(r@) == profile_report(
            *current,
            match profiles {
                Some(v) => Some(v@),
                None => None,
            },
        ),
{
    let mut out: Vec<String> = Vec::new();
    let cur = text_or_else(current, "unknown");
    push_line(&mut out, String::from_str("Current profile: ").concat(cur.as_str()));
    let ghost head = texts(out@);
    match profiles {
        Some(ps) => {
            push_line(&mut out, String::from_str(""));
            push_line(&mut out, String::from_str("Available profiles:"));
            let ghost top = texts(out@);
            let mut i: usize = 0;
            assert(profiles_lines(ps@.take(0), cur@) =~= Seq::<Seq<char>>::empty());
            assert(top =~= top + profiles_lines(ps@.take(0), cur@));
            while i < ps.len()
                invariant
                    i <= ps@.len(),
                    texts(out@) == top + profiles_lines(ps@.take(i as int), cur@),
                decreases ps@.len() - i,
            {
                push_line(&mut out, profile_text(&ps[i], cur.as_str()));
                assert(ps@.take(i as int + 1).drop_last() =~= ps@.take(i as int));
                assert(texts(out@) =~= top + profiles_lines(ps@.take(i as int + 1), cur@));
                i = i + 1;
            }
            assert(ps@.take(ps@.len() as int) =~= ps@);
            assert(texts(out@) =~= head + (seq![""@, "Available profiles:"@] + profiles_lines(
                ps@,
                cur@,
            )));
        },
        None => {
            assert(texts(out@) =~= head + Seq::<Seq<char>>::empty());
        },
    }
    out
}

// ---- brightness ------------------------------------------------------------

pub open spec fn brightness_set_text(percent: u8) -> Seq<char> {
    "Brightness set to "@ + decimal(percent as nat) + "%"@
}

/// The line confirming a brightness change.
pub fn brightness_set_line(percent: u8) -> (r: String)
    ensures
        r@ == brightness_set_text(percent),
{
    String::from_str("Brightness set to ").concat(to_decimal(percent as u64).as_str()).concat("%")
}

pub open spec fn brightness_text(percent: Option<u64>) -> Seq<char> {
    "Brightness: "@ + decimal(
        (match percent {
            Some(p) => p,
            None => 0u64,
        }) as nat,
    ) + "%"@
}

/// The line reporting the brightness that `GetBrightness` answered (0 when
/// the answer held none).
pub fn brightness_line(percent: Option<u64>) -> (r: String)
    ensures
        r@ == brightness_text(percent),
{
    let p = match percent {
        Some(p) => p,
        None => 0,
    };
    String::from_str("Brightness: ").concat(to_decimal(p).as_str()).concat("%")
}

// ---- inhibitors ------------------------------------------------------------

/// One entry of `ListInhibitors`, as the client prints it.
#[derive(Debug, Clone)]
pub struct InhibitorSummary {
    pub who: Option<String>,
    pub why: Option<String>,
    pub what: Option<String>,
}

/// The line of one inhibitor: who, padded; what, padded and bracketed; why.
pub open spec fn inhibitor_line(i: InhibitorSummary) -> Seq<char> {
    padded(text_or(i.who, "?"@), 20) + " ["@ + padded(text_or(i.what, "?"@), 8) + "] "@ + text_or(
        i.why,
        "?"@,
    )
}

pub open spec fn inhibitors_lines(is: Seq<InhibitorSummary>) -> Seq<Seq<char>>
    decreases is.len(),
{
    if is.len() == 0 {
        Seq::empty()
    } else {
        inhibitors_lines(is.drop_last()).push(inhibitor_line(is.last()))
    }
}

/// The inhibitor report: nothing when the answer held no list, a note when
/// the list is empty, else one line per inhibitor.
pub open spec fn inhibitor_report(list: Option<Seq<InhibitorSummary>>) -> Seq<Seq<char>> {
    match list {
        None => Seq::empty(),
        Some(is) => if is.len() == 0 {
            seq!["No active inhibitors"@]
        } else {
            inhibitors_lines(is)
        },
    }
}

fn inhibitor_text(i: &InhibitorSummary) -> (r: String)
    ensures
        r@ == inhibitor_line(*i),
{
    pad_to(text_or_else(&i.who, "?").as_str(), 20).concat(" [").concat(
        pad_to(text_or_else(&i.what, "?").as_str(), 8).as_str(),
    ).concat("] ").concat(text_or_else(&i.why, "?").as_str())
}

/// The lines that `mitos-powerctl inhibitors` prints.
pub fn inhibitor_lines(list: Option<&Vec<InhibitorSummary>>) -> (r: Vec<String>)
    ensures
        texts(r@) == inhibitor_report(
            match list {
                Some(v) => Some(v@),
                None => None,
            },
        ),
{
    let mut out: Vec<String> = Vec::new();
    assert(texts(out@) =~= Seq::<Seq<char>>::empty());
    match list {
        None => {},
        Some(is) => {
            if is.len() == 0 {
                push_line(&mut out, String::from_str("No active inhibitors"));
                assert(texts(out@) =~= seq!["No active inhibitors"@]);
            } else {
                let mut i: usize = 0;
                assert(inhibitors_lines(is@.take(0)) =~= Seq::<Seq<char>>::empty());
                while i < is.len()
                    invariant
                        i <= is@.len(),
                        texts(out@) == inhibitors_lines(is@.take(i as int)),
                    decreases is@.len() - i,
                {
                    push_line(&mut out, inhibitor_text(&is[i]));
                    assert(is@.take(i as int + 1).drop_last() =~= is@.take(i as int));
                    i = i + 1;
                }
                assert(is@.take(is@.len() as int) =~= is@);
            }
        },
    }
    out
}

// ---- power commands --------------------------------------------------------

/// The commands that make one call to the daemon and announce it.
#[derive(Debug, Clone, Copy, PartialEq, Eq, Structural)]
pub enum PowerCommand {
    Suspend,
    Hibernate,
    HybridSleep,
    SuspendThenHibernate,
    Reboot,
    Shutdown,
    Poweroff,
}

/// The call a command makes: the method, the `force` parameter where the
/// method takes one, and the message printed once the daemon accepted it.
#[derive(Debug, Clone)]
pub struct PowerCall {
    pub method: String,
    pub force: Option<bool>,
    pub message: String,
}

pub open spec fn command_method(c: PowerCommand) -> Seq<char> {
    match c {
        PowerCommand::Suspend => "Suspend"@,
        PowerCommand::Hibernate => "Hibernate"@,
        PowerCommand::HybridSleep => "HybridSleep"@,
        PowerCommand::SuspendThenHibernate => "SuspendThenHibernate"@,
        PowerCommand::Reboot => "Reboot"@,
        PowerCommand::Shutdown => "Shutdown"@,
        PowerCommand::Poweroff => "Poweroff"@,
    }
}

pub open spec fn command_message(c: PowerCommand) -> Seq<char> {
    match c {
        PowerCommand::Suspend => "Suspending..."@,
        PowerCommand::Hibernate => "Hibernating..."@,
        PowerCommand::HybridSleep => "Hybrid-sleeping..."@,
        PowerCommand::SuspendThenHibernate => "Suspending (will hibernate later if untouched)..."@,
        PowerCommand::Reboot => "Rebooting..."@,
        PowerCommand::Shutdown => "Shutting down..."@,
        PowerCommand::Poweroff => "Powering off..."@,
    }
}

/// Only rebooting and shutting down take a `force` parameter.
pub open spec fn takes_force(c: PowerCommand) -> bool {
    c == PowerCommand::Reboot || c == PowerCommand::Shutdown
}

/// The call that `command` makes, with `force` as given on the command line
/// where the method takes it.
pub fn power_call(command: PowerCommand, force: bool) -> (r: PowerCall)
    ensures
        r.method@ == command_method(command),
        r.message@ == command_message(command),
        r.force == (if takes_force(command) {
            Some(force)
        } else {
            None::<bool>
        }),
{
    let (method, message) = match command {
        PowerCommand::Suspend => ("Suspend", "Suspending..."),
        PowerCommand::Hibernate => ("Hibernate", "Hibernating..."),
        PowerCommand::HybridSleep => ("HybridSleep", "Hybrid-sleeping..."),
        PowerCommand::SuspendThenHibernate => (
            "SuspendThenHibernate",
            "Suspending (will hibernate later if untouched)...",
        ),
        PowerCommand::Reboot => ("Reboot", "Rebooting..."),
        PowerCommand::Shutdown => ("Shutdown", "Shutting down..."),
        PowerCommand::Poweroff => ("Poweroff", "Powering off..."),
    };
    let takes = match command {
        PowerCommand::Reboot => true,
        PowerCommand::Shutdown => true,
        _ => false,
    };
    PowerCall {
        method: String::from_str(method),
        force: if takes {
            Some(force)
        } else {
            None
        },
        message: String::from_str(message),
    }
}

} // verus!
