//! Rendering of roster state into announcement fields.
use vstd::prelude::*;
use crate::alert_connector::{set_insert, AlertConnector};
use crate::bucket::{all_buckets, bucket_table, Bucket, BUCKET_COUNT};
use crate::text::{decimal, decimal_string, push_char, push_str, zero_pad};
use crate::user_data::UserData;
use crate::weapon::Weapon;

verus! {

/// One field of an announcement: a name, a value and whether it is laid out inline.
pub struct EmbedField {
    pub name: String,
    pub value: String,
    pub inline: bool,
}

impl View for EmbedField {
    type V = (Seq<char>, Seq<char>, bool);

    open spec fn view(&self) -> Self::V {
        (self.name@, self.value@, self.inline)
    }
}

/// The views of a sequence of fields.
pub open spec fn fields_view(s: Seq<EmbedField>) -> Seq<(Seq<char>, Seq<char>, bool)> {
    s.map_values(|f: EmbedField| f@)
}

/// Whether `c` has the Unicode White_Space property, which is what
/// `char::is_whitespace` tests.
pub open spec fn is_white_space(c: char) -> bool {
    ('\u{9}' <= c && c <= '\u{D}') || c == ' ' || c == '\u{85}' || c == '\u{A0}' || c == '\u{1680}'
        || ('\u{2000}' <= c && c <= '\u{200A}') || c == '\u{2028}' || c == '\u{2029}' || c
        == '\u{202F}' || c == '\u{205F}' || c == '\u{3000}'
}

/// `s` without its leading whitespace.
pub open spec fn trim_start_of(s: Seq<char>) -> Seq<char>
    decreases s.len(),
{
    if s.len() > 0 && is_white_space(s[0]) {
        trim_start_of(s.drop_first())
    } else {
        s
    }
}

/// `s` without its trailing whitespace.
pub open spec fn trim_end_of(s: Seq<char>) -> Seq<char>
    decreases s.len(),
{
    if s.len() > 0 && is_white_space(s.last()) {
        trim_end_of(s.drop_last())
    } else {
        s
    }
}

/// `s` without leading and trailing whitespace.
pub open spec fn trim_of(s: Seq<char>) -> Seq<char> {
    trim_end_of(trim_start_of(s))
}

/// Relies on `str::trim`: leading and trailing whitespace, as
/// `char::is_whitespace` has it, is removed.
#[verifier::external_body]
pub(crate) fn trimmed(s: &String) -> (r: String)
    ensures
        r@ == trim_of(s@),
{
    s.trim().to_string()
}

/// The invisible text that stands in for an empty field.
pub open spec fn blank() -> Seq<char> {
    "\u{200B}"@
}

/// A field with the given name and value.
pub fn field(name: &str, value: &str, inline: bool) -> (r: EmbedField)
    ensures
        r@ == (name@, value@, inline),
{
    EmbedField { name: String::from_str(name), value: String::from_str(value), inline }
}

/// An empty field used to lay out the grid.
pub fn spacer(inline: bool) -> (r: EmbedField)
    ensures
        r@ == (blank(), blank(), inline),
{
    field("\u{200B}", "\u{200B}", inline)
}

/// Gear score padded with zeros to three digits.
pub open spec fn gear_text(p: UserData) -> Seq<char> {
    zero_pad(decimal(p.gear_score as nat), 3)
}

/// The weapon's abbreviation, or `N/A` when none is equipped.
pub open spec fn abbreviation_or_none(w: Option<Weapon>) -> Seq<char> {
    match w {
        Some(w) => w.abbreviation_spec(),
        None => "N/A"@,
    }
}

/// Roster line of a duty bucket: gear score, name, and both loadouts.
pub open spec fn duty_line(p: UserData) -> Seq<char> {
    "`"@ + gear_text(p) + "`"@ + p.username@ + "`"@ + decimal(p.main_hand_level_spec() as nat)
        + " "@ + abbreviation_or_none(p.main_hand) + ", "@ + decimal(
        p.secondary_level_spec() as nat,
    ) + " "@ + abbreviation_or_none(p.secondary) + "`\n"@
}

/// Roster line of a status bucket: gear score and name.
pub open spec fn status_line(p: UserData) -> Seq<char> {
    "`"@ + gear_text(p) + "`"@ + p.username@ + "\n"@
}

/// The line of one member: nothing for a user with no profile or no name.
pub open spec fn member_line(p: Option<UserData>, duty: bool) -> Seq<char> {
    match p {
        None => Seq::empty(),
        Some(p) => if p.username@.len() == 0 {
            Seq::empty()
        } else if duty {
            duty_line(p)
        } else {
            status_line(p)
        },
    }
}

/// `i` is the first entry of `book` for user `id`.
pub open spec fn is_first_index(book: Seq<(u64, UserData)>, id: u64, i: int) -> bool {
    &&& 0 <= i < book.len()
    &&& book[i].0 == id
    &&& forall|j: int| 0 <= j < i ==> book[j].0 != id
}

/// The profile of `id`: the first entry of `book` for it.
pub open spec fn profile_of(book: Seq<(u64, UserData)>, id: u64) -> Option<UserData> {
    if exists|i: int| is_first_index(book, id, i) {
        Some(book[choose|i: int| is_first_index(book, id, i)].1)
    } else {
        None
    }
}

/// The lines of all members of a bucket, in bucket order.
pub open spec fn bucket_text(ids: Seq<u64>, book: Seq<(u64, UserData)>, duty: bool) -> Seq<char>
    decreases ids.len(),
{
    if ids.len() == 0 {
        Seq::empty()
    } else {
        bucket_text(ids.drop_last(), book, duty) + member_line(profile_of(book, ids.last()), duty)
    }
}

/// A bucket's field value: its lines trimmed, or the blank placeholder.
pub open spec fn bucket_value(text: Seq<char>) -> Seq<char> {
    if text.len() == 0 {
        blank()
    } else {
        trim_of(text)
    }
}

/// The heading of a bucket's field.
pub open spec fn bucket_title(b: Bucket) -> Seq<char> {
    match b {
        Bucket::Tank => ":shield: TANK :shield:"@,
        Bucket::Mdps => ":dagger: MDPS :dagger:"@,
        Bucket::Prdps => ":archery: Physical RDPS :archery:"@,
        Bucket::Erdps => ":magic_wand: Elemental RDPS :magic_wand:"@,
        Bucket::Healer => ":heart: Healer :heart:"@,
        Bucket::Artillery => ":boom: Artillery :boom:"@,
        Bucket::Tentative => ":question: Tentative :question:"@,
        Bucket::NotAvailable => ":no_entry: Not Available :no_entry:"@,
    }
}

/// Field `k` of a rendered roster: the buckets in table order, each followed
/// by a spacer that ends the row after every second bucket.
pub open spec fn roster_field(ac: AlertConnector, book: Seq<(u64, UserData)>, k: int) -> (
    Seq<char>,
    Seq<char>,
    bool,
) {
    let b = bucket_table()[k / 2];
    if k % 2 == 0 {
        (bucket_title(b), bucket_value(bucket_text(ac.bucket_spec(b), book, b.is_duty())), true)
    } else {
        (blank(), blank(), (k / 2) % 2 == 0)
    }
}

/// Number of fields in a rendered roster.
pub const ROSTER_FIELD_COUNT: usize = 16;

/// Finds the first entry of `book` for user `id`.
pub fn find_profile(book: &Vec<(u64, UserData)>, id: u64) -> (r: Option<usize>)
    ensures
        r matches Some(i) ==> is_first_index(book@, id, i as int) && profile_of(book@, id) == Some(
            book@[i as int].1,
        ),
        r is None ==> profile_of(book@, id) is None,
{
    let mut i: usize = 0;
    while i < book.len()
        invariant
            i <= book@.len(),
            forall|j: int| 0 <= j < i ==> book@[j].0 != id,
        decreases book@.len() - i,
    {
        if book[i].0 == id {
            assert(is_first_index(book@, id, i as int));
            proof {
                let k = choose|k: int| is_first_index(book@, id, k);
                assert(k == i) by {
                    if k < i {
                    } else if k > i {
                        assert(book@[i as int].0 != id);
                    }
                }
            }
            return Some(i);
        }
        i = i + 1;
    }
    assert(!exists|k: int| is_first_index(book@, id, k));
    None
}

fn push_gear(s: &mut String, p: &UserData)
    ensures
        final(s)@ == old(s)@ + gear_text(*p),
{
    let digits = decimal_string(p.gear_score as u64);
    let mut k: usize = digits.as_str().unicode_len();
    let ghost pad_start = s@;
    while k < 3
        invariant
            digits@ == decimal(p.gear_score as nat),
            digits@.len() <= k <= 3 || (k == digits@.len() && k > 3),
            s@ == pad_start + Seq::new((k - digits@.len()) as nat, |i: int| '0'),
        decreases 3 - k,
    {
        push_char(s, '0');
        k = k + 1;
        assert(s@ =~= pad_start + Seq::new((k - digits@.len()) as nat, |i: int| '0'));
    }
    push_str(s, digits.as_str());
    assert(s@ =~= pad_start + gear_text(*p));
}

fn push_abbreviation(s: &mut String, w: Option<Weapon>)
    ensures
        final(s)@ == old(s)@ + abbreviation_or_none(w),
{
    match w {
        Some(w) => push_str(s, w.get_abbreviation()),
        None => push_str(s, "N/A"),
    }
}

/// The roster line of one member.
pub fn render_member_line(p: &UserData, duty: bool) -> (r: String)
    ensures
        r@ == member_line(Some(*p), duty),
{
    let mut s = String::new();
    if p.username.as_str().unicode_len() == 0 {
        return s;
    }
    push_str(&mut s, "`");
    push_gear(&mut s, p);
    push_str(&mut s, "`");
    push_str(&mut s, p.username.as_str());
    if duty {
        push_str(&mut s, "`");
        push_str(&mut s, decimal_string(p.get_main_hand_level() as u64).as_str());
        push_str(&mut s, " ");
        push_abbreviation(&mut s, p.main_hand);
        push_str(&mut s, ", ");
        push_str(&mut s, decimal_string(p.get_secondary_level() as u64).as_str());
        push_str(&mut s, " ");
        push_abbreviation(&mut s, p.secondary);
        push_str(&mut s, "`\n");
        assert(s@ =~= duty_line(*p));
    } else {
        push_str(&mut s, "\n");
        assert(s@ =~= status_line(*p));
    }
    s
}

/// The lines of all members of a bucket whose profile has a name.
pub fn render_bucket_text(ids: &Vec<u64>, book: &Vec<(u64, UserData)>, duty: bool) -> (r: String)
    ensures
        r@ == bucket_text(ids@, book@, duty),
{
    let mut s = String::new();
    let mut i: usize = 0;
    while i < ids.len()
        invariant
            i <= ids@.len(),
            s@ == bucket_text(ids@.subrange(0, i as int), book@, duty),
        decreases ids@.len() - i,
    {
        let ghost prefix = ids@.subrange(0, i + 1);
        assert(prefix.drop_last() == ids@.subrange(0, i as int));
        assert(prefix.last() == ids@[i as int]);
        match find_profile(book, ids[i]) {
            Some(k) => {
                let line = render_member_line(&book[k].1, duty);
                push_str(&mut s, line.as_str());
            },
            None => {},
        }
        i = i + 1;
    }
    assert(ids@.subrange(0, ids@.len() as int) == ids@);
    s
}

/// The value of a bucket's field.
pub fn render_bucket_value(ids: &Vec<u64>, book: &Vec<(u64, UserData)>, duty: bool) -> (r: String)
    ensures
        r@ == bucket_value(bucket_text(ids@, book@, duty)),
{
    let text = render_bucket_text(ids, book, duty);
    if text.as_str().unicode_len() == 0 {
        String::from_str("\u{200B}")
    } else {
        trimmed(&text)
    }
}

/// The heading of a bucket's field.
pub fn render_bucket_title(b: Bucket) -> (r: &'static str)
    ensures
        r@ == bucket_title(b),
{
    match b {
        Bucket::Tank => ":shield: TANK :shield:",
        Bucket::Mdps => ":dagger: MDPS :dagger:",
        Bucket::Prdps => ":archery: Physical RDPS :archery:",
        Bucket::Erdps => ":magic_wand: Elemental RDPS :magic_wand:",
        Bucket::Healer => ":heart: Healer :heart:",
        Bucket::Artillery => ":boom: Artillery :boom:",
        Bucket::Tentative => ":question: Tentative :question:",
        Bucket::NotAvailable => ":no_entry: Not Available :no_entry:",
    }
}

/// Whether a bucket lists loadouts.
pub fn is_duty(b: Bucket) -> (r: bool)
    ensures
        r == b.is_duty(),
{
    !matches!(b, Bucket::Tentative | Bucket::NotAvailable)
}

/// Renders the roster body: for each bucket in table order a field with its
/// member lines, each followed by a layout spacer. `book` maps user ids to
/// profiles; members without a profile or a name are left out.
pub fn render_roster_body(ac: &AlertConnector, book: &Vec<(u64, UserData)>) -> (r: Vec<EmbedField>)
    ensures
        r@.len() == ROSTER_FIELD_COUNT,
        forall|k: int| 0 <= k < ROSTER_FIELD_COUNT ==> (#[trigger] r@[k])@ == roster_field(*ac, book@, k),
{
    let buckets = all_buckets();
    let mut r: Vec<EmbedField> = Vec::new();
    let mut i: usize = 0;
    while i < BUCKET_COUNT
        invariant
            i <= BUCKET_COUNT,
            buckets@ == bucket_table(),
            r@.len() == 2 * i,
            forall|k: int| 0 <= k < 2 * i ==> (#[trigger] r@[k])@ == roster_field(*ac, book@, k),
        decreases BUCKET_COUNT - i,
    {
        let b = buckets[i];
        let value = render_bucket_value(ac.bucket(b), book, is_duty(b));
        r.push(EmbedField { name: String::from_str(render_bucket_title(b)), value, inline: true });
        r.push(spacer(i % 2 == 0));
        assert(r@[2 * i as int]@ == roster_field(*ac, book@, 2 * i as int));
        assert(r@[2 * i + 1]@ == roster_field(*ac, book@, 2 * i + 1));
        i = i + 1;
    }
    r
}

/// A roster with no members renders the placeholder as the value of every
/// bucket field.
pub proof fn lemma_empty_roster_renders_placeholders(ac: AlertConnector, book: Seq<(u64, UserData)>)
    requires
        forall|b: Bucket| (#[trigger] ac.bucket_spec(b)).len() == 0,
    ensures
        forall|k: int|
            0 <= k < ROSTER_FIELD_COUNT && k % 2 == 0 ==> (#[trigger] roster_field(ac, book, k)).1
                == blank(),
{
    assert forall|k: int|
        0 <= k < ROSTER_FIELD_COUNT && k % 2 == 0 implies (#[trigger] roster_field(ac, book, k)).1
        == blank() by {
        let b = bucket_table()[k / 2];
        assert(ac.bucket_spec(b).len() == 0);
    }
}

/// Adding a member who has no profile, or a profile with an empty name, to
/// a bucket leaves every rendered field as it was.
pub proof fn lemma_nameless_member_adds_no_line(
    ac: AlertConnector,
    after: AlertConnector,
    book: Seq<(u64, UserData)>,
    b: Bucket,
    user_id: u64,
)
    requires
        after.bucket_spec(b) == set_insert(ac.bucket_spec(b), user_id),
        forall|c: Bucket| c != b ==> #[trigger] after.bucket_spec(c) == ac.bucket_spec(c),
        match profile_of(book, user_id) {
            None => true,
            Some(p) => p.username@.len() == 0,
        },
    ensures
        forall|k: int|
            0 <= k < ROSTER_FIELD_COUNT ==> #[trigger] roster_field(after, book, k) == roster_field(
                ac,
                book,
                k,
            ),
{
    let s = ac.bucket_spec(b);
    if !s.contains(user_id) {
        assert(s.push(user_id).drop_last() == s);
        assert(bucket_text(s.push(user_id), book, b.is_duty()) =~= bucket_text(s, book, b.is_duty()));
    }
    assert forall|k: int| 0 <= k < ROSTER_FIELD_COUNT implies #[trigger] roster_field(after, book, k)
        == roster_field(ac, book, k) by {
        let c = bucket_table()[k / 2];
        if c != b {
            assert(after.bucket_spec(c) == ac.bucket_spec(c));
        }
    }
}

} // verus!
