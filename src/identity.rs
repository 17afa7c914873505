//! Alert identities: a name-based UUID over the normalized fields of an
//! alert, so that equal alerts share one roster.
use vstd::prelude::*;
use uuid::Uuid;

verus! {

/// What `str::to_lowercase` returns for `s`.
pub uninterp spec fn lower_of(s: Seq<char>) -> Seq<char>;

/// Relies on `str::to_lowercase`: the result depends on the characters alone,
/// and the empty string stays empty.
#[verifier::external_body]
pub(crate) fn lowercase(s: &str) -> (r: String)
    ensures
        r@ == lower_of(s@),
        s@.len() == 0 ==> r@.len() == 0,
{
    s.to_lowercase()
}

/// The version-5 UUID, in the OID namespace, of the UTF-8 encoding of `name`,
/// read as a big-endian 128-bit number.
pub uninterp spec fn uuid_v5_oid(name: Seq<char>) -> u128;

/// Relies on `uuid::Uuid::new_v5` with `Uuid::NAMESPACE_OID`: a SHA-1 based
/// identifier that depends on the name alone.
#[verifier::external_body]
fn uuid_v5(name: &str) -> (r: u128)
    ensures
        r == uuid_v5_oid(name@),
{
    Uuid::new_v5(&Uuid::NAMESPACE_OID, name.as_bytes()).as_u128()
}

/// The lower-case hexadecimal digit for `d`.
pub open spec fn hex_char(d: nat) -> char {
    if d < 10 {
        (48 + d) as char
    } else {
        (87 + d) as char
    }
}

/// The last `n` hexadecimal digits of `v`, most significant first.
pub open spec fn hex_digits(v: nat, n: nat) -> Seq<char>
    decreases n,
{
    if n == 0 {
        Seq::empty()
    } else {
        hex_digits(v / 16, (n - 1) as nat).push(hex_char(v % 16))
    }
}

/// The hyphenated text form of an identity: 32 lower-case hex digits in
/// groups of 8, 4, 4, 4 and 12.
pub open spec fn hyphenated(v: u128) -> Seq<char> {
    let h = hex_digits(v as nat, 32);
    h.subrange(0, 8) + seq!['-'] + h.subrange(8, 12) + seq!['-'] + h.subrange(12, 16) + seq!['-']
        + h.subrange(16, 20) + seq!['-'] + h.subrange(20, 32)
}

/// `c` with A-Z mapped to a-z.
pub open spec fn ascii_lower_char(c: char) -> char {
    if 'A' <= c && c <= 'Z' {
        ((c as u32) + 32) as char
    } else {
        c
    }
}

/// `s` with A-Z mapped to a-z.
pub open spec fn ascii_lower(s: Seq<char>) -> Seq<char> {
    s.map_values(|c: char| ascii_lower_char(c))
}

/// Relies on the `Display` of `uuid::Uuid` (its hyphenated lower-case form),
/// for the UUID built by `Uuid::from_u128`.
#[verifier::external_body]
fn uuid_text(id: u128) -> (r: String)
    ensures
        r@ == hyphenated(id),
{
    Uuid::from_u128(id).to_string()
}

/// The text form of an identity, as stored in a roster and written in the
/// footer of its announcements.
pub fn identity_text(id: u128) -> (r: String)
    ensures
        r@ == hyphenated(id),
        r@.len() == 36,
{
    proof {
        lemma_hyphenated_is_lower(id);
    }
    uuid_text(id)
}

/// Relies on `uuid::Uuid::parse_str`: on a text of 36 characters it accepts
/// exactly the hyphenated form, in either letter case.
#[verifier::external_body]
fn parse_uuid(s: &str) -> (r: Option<u128>)
    ensures
        s@.len() == 36 ==> (r matches Some(v) ==> ascii_lower(s@) == hyphenated(v)),
        forall|v: u128| ascii_lower(s@) == #[trigger] hyphenated(v) ==> r == Some(v),
{
    match Uuid::parse_str(s) {
        Ok(u) => Some(u.as_u128()),
        Err(_) => None,
    }
}

/// The normalized text hashed into an alert identity.
pub open spec fn identity_key(
    date: Seq<char>,
    time: Seq<char>,
    server: Seq<char>,
    faction: Seq<char>,
    territory: Seq<char>,
) -> Seq<char> {
    date + time + lower_of(server) + lower_of(faction) + lower_of(territory)
}

/// The identity of an alert with the given fields.
pub open spec fn identity_spec(
    date: Seq<char>,
    time: Seq<char>,
    server: Seq<char>,
    faction: Seq<char>,
    territory: Seq<char>,
) -> u128 {
    uuid_v5_oid(identity_key(date, time, server, faction, territory))
}

/// Derives the identity of an alert from its formatted date and time and its
/// server, faction and territory, the last three compared without case.
pub fn derive_identity(date: &str, time: &str, server: &str, faction: &str, territory: &str) -> (r:
    u128)
    ensures
        r == identity_spec(date@, time@, server@, faction@, territory@),
{
    let mut key = String::from_str(date);
    key.append(time);
    key.append(lowercase(server).as_str());
    key.append(lowercase(faction).as_str());
    key.append(lowercase(territory).as_str());
    assert(key@ =~= identity_key(date@, time@, server@, faction@, territory@));
    uuid_v5(key.as_str())
}

/// Alerts whose fields agree after normalization have the same identity.
pub proof fn lemma_identity_depends_on_normalized_fields(
    date1: Seq<char>,
    time1: Seq<char>,
    server1: Seq<char>,
    faction1: Seq<char>,
    territory1: Seq<char>,
    date2: Seq<char>,
    time2: Seq<char>,
    server2: Seq<char>,
    faction2: Seq<char>,
    territory2: Seq<char>,
)
    requires
        date1 == date2,
        time1 == time2,
        lower_of(server1) == lower_of(server2),
        lower_of(faction1) == lower_of(faction2),
        lower_of(territory1) == lower_of(territory2),
    ensures
        identity_spec(date1, time1, server1, faction1, territory1) == identity_spec(
            date2,
            time2,
            server2,
            faction2,
            territory2,
        ),
{
}

/// Reads an identity written as text. Of a 36-character text exactly the
/// hyphenated form is read, in either letter case.
pub fn parse_identity(s: &str) -> (r: Option<u128>)
    ensures
        s@.len() == 36 ==> (r matches Some(v) ==> ascii_lower(s@) == hyphenated(v)),
        forall|v: u128| ascii_lower(s@) == #[trigger] hyphenated(v) ==> r == Some(v),
{
    parse_uuid(s)
}

/// The identity carried at the start of an announcement footer: the first 36
/// characters, read as a hyphenated identity.
pub fn identity_from_footer(footer: &str) -> (r: Option<u128>)
    ensures
        footer@.len() >= 36 ==> (r matches Some(v) ==> ascii_lower(footer@.subrange(0, 36))
            == hyphenated(v)),
        forall|v: u128|
            footer@.len() >= 36 && ascii_lower(footer@.subrange(0, 36)) == #[trigger] hyphenated(v)
                ==> r == Some(v),
{
    let n = footer.unicode_len();
    let end: usize = if n < 36 {
        n
    } else {
        36
    };
    let prefix = footer.substring_char(0, end);
    parse_uuid(prefix)
}

proof fn lemma_hex_digits_lower(v: nat, n: nat)
    ensures
        hex_digits(v, n).len() == n,
        forall|i: int| 0 <= i < n ==> !('A' <= #[trigger] hex_digits(v, n)[i] && hex_digits(v, n)[i] <= 'Z'),
    decreases n,
{
    if n > 0 {
        lemma_hex_digits_lower(v / 16, (n - 1) as nat);
        let d = v % 16;
        assert(!('A' <= hex_char(d) && hex_char(d) <= 'Z'));
    }
}

proof fn lemma_hyphenated_is_lower(v: u128)
    ensures
        ascii_lower(hyphenated(v)) == hyphenated(v),
        hyphenated(v).len() == 36,
{
    lemma_hex_digits_lower(v as nat, 32);
    let h = hyphenated(v);
    assert(h.len() == 36);
    assert forall|i: int| 0 <= i < 36 implies !('A' <= #[trigger] h[i] && h[i] <= 'Z') by {
        let d = hex_digits(v as nat, 32);
        if i < 8 {
            assert(h[i] == d[i]);
        } else if i == 8 || i == 13 || i == 18 || i == 23 {
        } else if i < 13 {
            assert(h[i] == d[i - 1]);
        } else if i < 18 {
            assert(h[i] == d[i - 2]);
        } else if i < 23 {
            assert(h[i] == d[i - 3]);
        } else {
            assert(h[i] == d[i - 4]);
        }
    }
    assert(ascii_lower(h) =~= h);
}

} // verus!
