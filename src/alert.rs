//! Creating alerts and the announcements that mirror them: the schedule
//! text and identity of a new alert, the fields of its announcement, and the
//! decisions taken on reactions and on re-synchronization.
use vstd::prelude::*;
use chrono::{Datelike, NaiveDateTime, Timelike};
use crate::alert_connector::AlertConnector;
use crate::bucket::{
    all_buckets, bucket_of_reaction, bucket_of_reaction_spec, bucket_table, reaction_table, reactions,
    Bucket, BUCKET_COUNT,
};
use crate::identity::{derive_identity, identity_spec, lower_of, lowercase};
use crate::render::{
    blank, bucket_title, field, fields_view, render_bucket_title, spacer, EmbedField, ROSTER_FIELD_COUNT,
};
use crate::text::{decimal, decimal_string, push_char, push_str, zero_pad};
use crate::war_message::WarMessage;

verus! {

/// A parsed date and time, with the day of the week counted from Monday = 0.
#[derive(Clone, Copy, PartialEq, Eq, Structural, Debug)]
pub struct AlertDateTime {
    pub year: i32,
    pub month: u32,
    pub day: u32,
    pub hour: u32,
    pub minute: u32,
    pub weekday: u32,
}

impl AlertDateTime {
    /// The ranges that every calendar date and clock time keeps.
    pub open spec fn valid(&self) -> bool {
        &&& 1 <= self.month <= 12
        &&& 1 <= self.day <= 31
        &&& self.hour < 24
        &&& self.minute < 60
        &&& self.weekday < 7
    }
}

/// What `chrono::NaiveDateTime::parse_from_str` with the format
/// `%m/%e/%Y@%I:%M%P` gives for `s`, read into calendar fields.
pub uninterp spec fn date_time_of(s: Seq<char>) -> Option<AlertDateTime>;

/// Relies on `chrono::NaiveDateTime::parse_from_str` with the format
/// `%m/%e/%Y@%I:%M%P`, and on the calendar fields of the value it returns:
/// the result depends on the text alone, and the fields are in range.
#[verifier::external_body]
fn parse_date_time(s: &str) -> (r: Option<AlertDateTime>)
    ensures
        r == date_time_of(s@),
        r matches Some(dt) ==> dt.valid(),
{
    match NaiveDateTime::parse_from_str(s, "%m/%e/%Y@%I:%M%P") {
        Ok(dt) => Some(AlertDateTime {
            year: dt.year(),
            month: dt.month(),
            day: dt.day(),
            hour: dt.hour(),
            minute: dt.minute(),
            weekday: dt.weekday().num_days_from_monday(),
        }),
        Err(_) => None,
    }
}

/// Why an alert could not be created.
#[derive(Clone, Copy, PartialEq, Eq, Structural, Debug)]
pub enum AlertError {
    /// The date or the time did not read as `mm/dd/YYYY` and `HH:MMam`.
    InvalidDateTime,
}

impl AlertError {
    /// The message shown to the user.
    pub fn message(&self) -> (r: &'static str)
        ensures
            r@ == "The date or time entered was invalid. Please use the formats mm/dd/YYYY and HH:MMP respectively. Ex: 02/10/2022 and 12:30pm"@,
    {
        "The date or time entered was invalid. Please use the formats mm/dd/YYYY and HH:MMP respectively. Ex: 02/10/2022 and 12:30pm"
    }
}

/// Three-letter English name of a weekday counted from Monday = 0.
pub open spec fn weekday_abbr(w: u32) -> Seq<char> {
    if w == 0 {
        "Mon"@
    } else if w == 1 {
        "Tue"@
    } else if w == 2 {
        "Wed"@
    } else if w == 3 {
        "Thu"@
    } else if w == 4 {
        "Fri"@
    } else if w == 5 {
        "Sat"@
    } else {
        "Sun"@
    }
}

/// Three-letter English name of a month counted from January = 1.
pub open spec fn month_abbr(m: u32) -> Seq<char> {
    if m == 1 {
        "Jan"@
    } else if m == 2 {
        "Feb"@
    } else if m == 3 {
        "Mar"@
    } else if m == 4 {
        "Apr"@
    } else if m == 5 {
        "May"@
    } else if m == 6 {
        "Jun"@
    } else if m == 7 {
        "Jul"@
    } else if m == 8 {
        "Aug"@
    } else if m == 9 {
        "Sep"@
    } else if m == 10 {
        "Oct"@
    } else if m == 11 {
        "Nov"@
    } else {
        "Dec"@
    }
}

/// `s` padded on the left with a space to two characters.
pub open spec fn space_pad2(s: Seq<char>) -> Seq<char> {
    if s.len() < 2 {
        seq![' '] + s
    } else {
        s
    }
}

/// The date as shown on an announcement: weekday, day of month padded to two
/// places with a space, and month, as in `Mon  5. Jun`.
pub open spec fn date_text(dt: AlertDateTime) -> Seq<char> {
    weekday_abbr(dt.weekday) + " "@ + space_pad2(decimal(dt.day as nat)) + ". "@ + month_abbr(
        dt.month,
    )
}

/// The time as shown on an announcement: 24-hour clock and the meridiem, as
/// in `14:00pm`.
pub open spec fn time_text(dt: AlertDateTime) -> Seq<char> {
    zero_pad(decimal(dt.hour as nat), 2) + ":"@ + zero_pad(decimal(dt.minute as nat), 2) + if dt.hour
        < 12 {
        "am"@
    } else {
        "pm"@
    }
}

fn weekday_name(w: u32) -> (r: &'static str)
    ensures
        r@ == weekday_abbr(w),
{
    if w == 0 {
        "Mon"
    } else if w == 1 {
        "Tue"
    } else if w == 2 {
        "Wed"
    } else if w == 3 {
        "Thu"
    } else if w == 4 {
        "Fri"
    } else if w == 5 {
        "Sat"
    } else {
        "Sun"
    }
}

fn month_name(m: u32) -> (r: &'static str)
    ensures
        r@ == month_abbr(m),
{
    if m == 1 {
        "Jan"
    } else if m == 2 {
        "Feb"
    } else if m == 3 {
        "Mar"
    } else if m == 4 {
        "Apr"
    } else if m == 5 {
        "May"
    } else if m == 6 {
        "Jun"
    } else if m == 7 {
        "Jul"
    } else if m == 8 {
        "Aug"
    } else if m == 9 {
        "Sep"
    } else if m == 10 {
        "Oct"
    } else if m == 11 {
        "Nov"
    } else {
        "Dec"
    }
}

fn push_padded(s: &mut String, n: u32, pad: char)
    requires
        pad == ' ' || pad == '0',
    ensures
        pad == ' ' ==> final(s)@ == old(s)@ + space_pad2(decimal(n as nat)),
        pad == '0' ==> final(s)@ == old(s)@ + zero_pad(decimal(n as nat), 2),
{
    let digits = decimal_string(n as u64);
    if digits.as_str().unicode_len() < 2 {
        push_char(s, pad);
        assert(Seq::new((2 - digits@.len()) as nat, |i: int| '0') =~= seq!['0']);
    }
    push_str(s, digits.as_str());
}

/// Formats the date of an alert.
pub fn format_date(dt: &AlertDateTime) -> (r: String)
    ensures
        r@ == date_text(*dt),
{
    let mut s = String::from_str(weekday_name(dt.weekday));
    push_str(&mut s, " ");
    push_padded(&mut s, dt.day, ' ');
    push_str(&mut s, ". ");
    push_str(&mut s, month_name(dt.month));
    assert(s@ =~= date_text(*dt));
    s
}

/// Formats the time of an alert.
pub fn format_time(dt: &AlertDateTime) -> (r: String)
    ensures
        r@ == time_text(*dt),
{
    let mut s = String::new();
    push_padded(&mut s, dt.hour, '0');
    push_str(&mut s, ":");
    push_padded(&mut s, dt.minute, '0');
    if dt.hour < 12 {
        push_str(&mut s, "am");
    } else {
        push_str(&mut s, "pm");
    }
    assert(s@ =~= time_text(*dt));
    s
}

/// The normalized fields and the identity of a new alert.
pub struct AlertPlan {
    pub date: String,
    pub time: String,
    pub server: String,
    pub faction: String,
    pub territory: String,
    pub title: String,
    pub kind: u8,
    pub identity: u128,
}

/// `p` holds the fields of an alert at `dt` in community `guild_id`. A
/// missing server stands for the community's own local event, a missing
/// faction for `event`; a named alert keeps its name as title and has kind 1.
pub open spec fn plan_of(
    p: AlertPlan,
    dt: AlertDateTime,
    guild_id: u64,
    territory: Seq<char>,
    server: Option<Seq<char>>,
    faction: Option<Seq<char>>,
    name: Option<Seq<char>>,
) -> bool {
    &&& p.date@ == date_text(dt)
    &&& p.time@ == time_text(dt)
    &&& p.server@ == match server {
        Some(s) => s,
        None => "localevent"@ + decimal(guild_id as nat),
    }
    &&& p.faction@ == match faction {
        Some(f) => f,
        None => "event"@,
    }
    &&& p.territory@ == territory
    &&& p.title@ == match name {
        Some(n) => n,
        None => Seq::empty(),
    }
    &&& p.kind == if name is Some {
        1u8
    } else {
        0u8
    }
    &&& p.identity == identity_spec(p.date@, p.time@, p.server@, p.faction@, territory)
}

/// The view of an optional text.
pub open spec fn opt_view(s: Option<&str>) -> Option<Seq<char>> {
    match s {
        Some(s) => Some(s@),
        None => None,
    }
}

/// The fields and identity of an alert at `dt`.
pub fn alert_plan(
    dt: &AlertDateTime,
    guild_id: u64,
    territory: &str,
    server: Option<&str>,
    faction: Option<&str>,
    name: Option<&str>,
) -> (r: AlertPlan)
    ensures
        plan_of(r, *dt, guild_id, territory@, opt_view(server), opt_view(faction), opt_view(name)),
{
    let date = format_date(dt);
    let time = format_time(dt);
    let server = match server {
        Some(s) => String::from_str(s),
        None => {
            let mut s = String::from_str("localevent");
            push_str(&mut s, decimal_string(guild_id).as_str());
            s
        },
    };
    let faction = match faction {
        Some(f) => String::from_str(f),
        None => String::from_str("event"),
    };
    let (title, kind) = match name {
        Some(n) => (String::from_str(n), 1u8),
        None => (String::new(), 0u8),
    };
    let identity = derive_identity(
        date.as_str(),
        time.as_str(),
        server.as_str(),
        faction.as_str(),
        territory,
    );
    AlertPlan {
        date,
        time,
        server,
        faction,
        territory: String::from_str(territory),
        title,
        kind,
        identity,
    }
}

/// Reads `date_time` (`mm/dd/YYYY@HH:MMam`, in any letter case) and plans the
/// alert; a text that does not read as a date and time is refused.
pub fn plan_alert(
    date_time: &str,
    guild_id: u64,
    territory: &str,
    server: Option<&str>,
    faction: Option<&str>,
    name: Option<&str>,
) -> (r: Result<AlertPlan, AlertError>)
    ensures
        r is Ok <==> date_time_of(lower_of(date_time@)) is Some,
        r matches Ok(p) ==> plan_of(
            p,
            date_time_of(lower_of(date_time@))->Some_0,
            guild_id,
            territory@,
            opt_view(server),
            opt_view(faction),
            opt_view(name),
        ),
        r matches Err(e) ==> e == AlertError::InvalidDateTime,
{
    let lowered = lowercase(date_time);
    match parse_date_time(lowered.as_str()) {
        Some(dt) => Ok(alert_plan(&dt, guild_id, territory, server, faction, name)),
        None => Err(AlertError::InvalidDateTime),
    }
}

/// The announcement title: the alert's name, or `War Alert`.
pub fn announcement_title(name: Option<&str>) -> (r: &str)
    ensures
        r@ == match name {
            Some(n) => n@,
            None => "War Alert"@,
        },
{
    match name {
        Some(n) => n,
        None => "War Alert",
    }
}

/// Whether an alert must be posted in `guild_id`/`channel_id`: not when its
/// roster already has an announcement in that channel.
pub fn alert_needs_post(existing: &Option<AlertConnector>, guild_id: u64, channel_id: u64) -> (r: bool)
    ensures
        r == match existing {
            Some(ac) => !ac.has_channel(guild_id, channel_id),
            None => true,
        },
{
    match existing {
        Some(ac) => !ac.channel_contains_war_message(guild_id, channel_id),
        None => true,
    }
}

/// The reminder field closing every announcement.
pub open spec fn note_field() -> (Seq<char>, Seq<char>, bool) {
    ("NOTE"@, "Remember to use '/register' to register your in-game data."@, false)
}

/// The schedule fields opening every announcement.
pub open spec fn header_fields(date: Seq<char>, time: Seq<char>) -> Seq<(Seq<char>, Seq<char>, bool)> {
    seq![
        (":calendar_spiral: "@ + date, blank(), true),
        (blank(), blank(), true),
        (":clock1: "@ + time, blank(), true),
    ]
}

/// The fields of a new announcement: the schedule, the roster body, and the
/// reminder to register.
pub fn announcement_fields(date: &str, time: &str, body: Vec<EmbedField>) -> (r: Vec<EmbedField>)
    ensures
        fields_view(r@) == header_fields(date@, time@) + fields_view(body@) + seq![note_field()],
{
    let mut d = String::from_str(":calendar_spiral: ");
    push_str(&mut d, date);
    let mut t = String::from_str(":clock1: ");
    push_str(&mut t, time);
    let mut r = vec![field(d.as_str(), "\u{200B}", true), spacer(true), field(t.as_str(), "\u{200B}", true)];
    let mut body = body;
    let ghost b = body@;
    r.append(&mut body);
    r.push(field("NOTE", "Remember to use '/register' to register your in-game data.", false));
    assert(fields_view(r@) =~= header_fields(date@, time@) + fields_view(b) + seq![note_field()]);
    r
}

/// Field `k` of the body of a roster without members.
pub open spec fn placeholder_field(k: int) -> (Seq<char>, Seq<char>, bool) {
    if k % 2 == 0 {
        (bucket_title(bucket_table()[k / 2]), blank(), true)
    } else {
        (blank(), blank(), (k / 2) % 2 == 0)
    }
}

/// The roster body of an alert that has no roster yet: every bucket field
/// holds the placeholder.
pub fn placeholder_body() -> (r: Vec<EmbedField>)
    ensures
        r@.len() == ROSTER_FIELD_COUNT,
        forall|k: int| 0 <= k < ROSTER_FIELD_COUNT ==> (#[trigger] r@[k])@ == placeholder_field(k),
{
    let buckets = all_buckets();
    let mut r: Vec<EmbedField> = Vec::new();
    let mut i: usize = 0;
    while i < BUCKET_COUNT
        invariant
            i <= BUCKET_COUNT,
            buckets@ == bucket_table(),
            r@.len() == 2 * i,
            forall|k: int| 0 <= k < 2 * i ==> (#[trigger] r@[k])@ == placeholder_field(k),
        decreases BUCKET_COUNT - i,
    {
        r.push(field(render_bucket_title(buckets[i]), "\u{200B}", true));
        r.push(spacer(i % 2 == 0));
        assert(r@[2 * i as int]@ == placeholder_field(2 * i as int));
        assert(r@[2 * i + 1]@ == placeholder_field(2 * i + 1));
        i = i + 1;
    }
    r
}

/// Whether `c` can be shown as a letter emoji: an underscore, or a character
/// at or after `a` whose regional-indicator counterpart is a character.
pub open spec fn emoji_convertible(c: char) -> bool {
    c == '_' || (97 <= c as u32 && (c as u32) - 97 + 0x1F1E6 <= 0x10FFFF)
}

/// Whether `c` can be shown as a letter emoji.
pub fn emoji_convertible_char(c: char) -> (r: bool)
    ensures
        r == emoji_convertible(c),
{
    c == '_' || (97 <= (c as u32) && (c as u32) - 97 <= 0x10FFFF - 0x1F1E6)
}

/// The emoji text of one character: four spaces for an underscore, else the
/// regional indicator at the same distance from 🇦 as `c` is from `a`, and a space.
pub open spec fn emoji_piece(c: char) -> Seq<char> {
    if c == '_' {
        "    "@
    } else {
        seq![((c as u32) - 97 + 0x1F1E6) as char, ' ']
    }
}

/// The emoji text of `s`.
pub open spec fn emoji_text(s: Seq<char>) -> Seq<char>
    decreases s.len(),
{
    if s.len() == 0 {
        Seq::empty()
    } else {
        emoji_text(s.drop_last()) + emoji_piece(s.last())
    }
}

/// Relies on `char::from_u32`: the character with code `v` when `v` is a
/// Unicode scalar value.
#[verifier::external_body]
fn char_from_code(v: u32) -> (r: Option<char>)
    ensures
        v <= 0x10FFFF && !(0xD800 <= v <= 0xDFFF) ==> r == Some(v as char),
{
    char::from_u32(v)
}

/// Spells `s` in regional-indicator letters, an underscore becoming a wide gap.
pub fn convert_to_emoji(s: &str) -> (r: String)
    requires
        forall|i: int| 0 <= i < s@.len() ==> emoji_convertible(#[trigger] s@[i]),
    ensures
        r@ == emoji_text(s@),
{
    let n = s.unicode_len();
    let mut result = String::new();
    let mut i: usize = 0;
    while i < n
        invariant
            n == s@.len(),
            i <= n,
            forall|k: int| 0 <= k < s@.len() ==> emoji_convertible(#[trigger] s@[k]),
            result@ == emoji_text(s@.subrange(0, i as int)),
        decreases n - i,
    {
        let c = s.get_char(i);
        assert(s@.subrange(0, i + 1).drop_last() == s@.subrange(0, i as int));
        assert(s@.subrange(0, i + 1).last() == c);
        assert(emoji_convertible(s@[i as int]));
        if c == '_' {
            push_str(&mut result, "    ");
        } else {
            let code: u32 = (c as u32) - 97 + 0x1F1E6;
            match char_from_code(code) {
                Some(e) => {
                    push_char(&mut result, e);
                    push_char(&mut result, ' ');
                    assert(result@ =~= emoji_text(s@.subrange(0, i + 1)));
                },
                None => {
                    assert(false);
                },
            }
        }
        i = i + 1;
    }
    assert(s@.subrange(0, n as int) == s@);
    result
}

fn copy_field(f: &EmbedField) -> (r: EmbedField)
    ensures
        r@ == f@,
{
    EmbedField { name: f.name.clone(), value: f.value.clone(), inline: f.inline }
}

/// The fields of an announcement brought up to date: its first three
/// (schedule) fields, the new roster body, and its last field. An
/// announcement with fewer than three fields is not one of this system's.
pub fn rebuild_fields(old: &Vec<EmbedField>, body: Vec<EmbedField>) -> (r: Option<Vec<EmbedField>>)
    ensures
        old@.len() < 3 <==> r is None,
        r matches Some(v) ==> fields_view(v@) == fields_view(old@.subrange(0, 3)) + fields_view(body@)
            + seq![old@.last()@],
{
    if old.len() < 3 {
        return None;
    }
    let mut r = vec![copy_field(&old[0]), copy_field(&old[1]), copy_field(&old[2])];
    let mut body = body;
    let ghost b = body@;
    r.append(&mut body);
    r.push(copy_field(&old[old.len() - 1]));
    assert(fields_view(r@) =~= fields_view(old@.subrange(0, 3)) + fields_view(b) + seq![old@.last()@]);
    Some(r)
}

/// Whether some text of `present` is exactly the emoji `c`.
pub open spec fn reacted(present: Seq<String>, c: char) -> bool {
    exists|k: int| 0 <= k < present.len() && (#[trigger] present[k])@ == seq![c]
}

/// The first `n` reaction emojis that `present` lacks, in table order.
pub open spec fn missing_upto(present: Seq<String>, n: nat) -> Seq<char>
    decreases n,
{
    if n == 0 {
        Seq::empty()
    } else {
        let c = reaction_table()[n - 1];
        missing_upto(present, (n - 1) as nat) + if reacted(present, c) {
            Seq::empty()
        } else {
            seq![c]
        }
    }
}

/// The reaction emojis an announcement still lacks, given the emojis it
/// carries, in table order.
pub fn missing_reactions(present: &Vec<String>) -> (r: Vec<char>)
    ensures
        r@ == missing_upto(present@, BUCKET_COUNT as nat),
{
    let table = reactions();
    let mut r: Vec<char> = Vec::new();
    let mut i: usize = 0;
    while i < BUCKET_COUNT
        invariant
            i <= BUCKET_COUNT,
            table@ == reaction_table(),
            r@ == missing_upto(present@, i as nat),
        decreases BUCKET_COUNT - i,
    {
        let c = table[i];
        let mut found = false;
        let mut k: usize = 0;
        while k < present.len()
            invariant
                k <= present@.len(),
                found == exists|j: int| 0 <= j < k && (#[trigger] present@[j])@ == seq![c],
            decreases present@.len() - k,
        {
            if present[k].as_str().unicode_len() == 1 && present[k].as_str().get_char(0) == c {
                assert(present@[k as int]@ =~= seq![c]);
                found = true;
            } else {
                assert(present@[k as int]@ != seq![c]) by {
                    if present@[k as int]@ == seq![c] {
                        assert(present@[k as int]@[0] == c);
                    }
                }
            }
            k = k + 1;
        }
        if !found {
            r.push(c);
        }
        assert(r@ =~= missing_upto(present@, (i + 1) as nat));
        i = i + 1;
    }
    r
}

/// The bucket a reaction on an announcement changes, if any: the message
/// must be one of the roster's announcements and the emoji one of the table.
/// An added reaction counts only from a user who has not responded yet; a
/// removed one always counts, removal being a no-op for a non-member.
pub fn reaction_bucket(
    ac: &AlertConnector,
    guild_id: u64,
    channel_id: u64,
    message_id: u64,
    user_id: u64,
    emoji: &str,
    adding: bool,
) -> (r: Option<Bucket>)
    ensures
        r == if ac.war_messages@.contains(WarMessage::new_spec(guild_id, channel_id, message_id)) && (
        adding ==> !ac.users_spec().contains(user_id)) {
            bucket_of_reaction_spec(emoji@)
        } else {
            None
        },
{
    if ac.contains_war_message(guild_id, channel_id, message_id) && (!adding || !ac.contains_user(
        user_id,
    )) {
        bucket_of_reaction(emoji)
    } else {
        None
    }
}

} // verus!
