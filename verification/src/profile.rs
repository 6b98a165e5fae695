//! Streamer profiles: the profile created for a new account (username,
//! display name, avatar), the checks on an edited profile, and the names,
//! links and titles that the public pages derive from a profile.
use vstd::prelude::*;
use vstd::string::StringSliceAdditionalSpecFns;
use crate::text::{
    before_first, dec_nat, digit_char, has_prefix, owned, prefix_before, push_decimal, str_eq,
    to_chars,
};

verus! {

/// Whether `urlencoding` leaves the byte as it is: ASCII letters, digits and
/// `-`, `.`, `_`, `~`.
pub open spec fn is_unreserved_byte(b: u8) -> bool {
    (48 <= b <= 57) || (65 <= b <= 90) || (97 <= b <= 122) || b == 45 || b == 46 || b == 95 || b
        == 126
}

/// Upper-case hexadecimal digit for `d < 16`.
pub open spec fn hex_upper(d: nat) -> char {
    if d < 10 {
        digit_char(d)
    } else if d == 10 {
        'A'
    } else if d == 11 {
        'B'
    } else if d == 12 {
        'C'
    } else if d == 13 {
        'D'
    } else if d == 14 {
        'E'
    } else {
        'F'
    }
}

/// One byte as `urlencoding::encode` writes it.
pub open spec fn percent_encode_byte(b: u8) -> Seq<char> {
    if is_unreserved_byte(b) {
        seq![b as char]
    } else {
        seq!['%', hex_upper((b / 16) as nat), hex_upper((b % 16) as nat)]
    }
}

/// The percent-encoding of a byte string: every byte other than ASCII
/// letters, digits and `-`, `.`, `_`, `~` is written `%XX` in upper-case hex.
pub open spec fn url_encoded(bytes: Seq<u8>) -> Seq<char>
    decreases bytes.len(),
{
    if bytes.len() == 0 {
        Seq::empty()
    } else {
        percent_encode_byte(bytes[0]) + url_encoded(bytes.drop_first())
    }
}

/// A character that can stand in a URL query value without ending it:
/// an unreserved ASCII character, `%` or an upper-case hex digit.
pub open spec fn is_query_safe_char(c: char) -> bool {
    ('a' <= c <= 'z') || ('A' <= c <= 'Z') || ('0' <= c <= '9') || c == '-' || c == '.' || c
        == '_' || c == '~' || c == '%'
}

proof fn lemma_byte_encoding_safe(b: u8)
    ensures
        forall|i: int| 0 <= i < percent_encode_byte(b).len() ==> is_query_safe_char(
            #[trigger] percent_encode_byte(b)[i],
        ),
{
    if is_unreserved_byte(b) {
        assert(percent_encode_byte(b)[0] == b as char);
        assert((b as char) as u8 == b);
    } else {
        assert(b / 16 < 16);
        assert(b % 16 < 16);
    }
}

/// Percent-encoding leaves only characters that are safe inside a query
/// value: no space, `&`, `#`, `/`, `?` or other separator survives.
pub proof fn law_url_encoding_is_query_safe(bytes: Seq<u8>)
    ensures
        forall|i: int| 0 <= i < url_encoded(bytes).len() ==> is_query_safe_char(
            #[trigger] url_encoded(bytes)[i],
        ),
    decreases bytes.len(),
{
    if bytes.len() > 0 {
        lemma_byte_encoding_safe(bytes[0]);
        law_url_encoding_is_query_safe(bytes.drop_first());
        let head = percent_encode_byte(bytes[0]);
        let tail = url_encoded(bytes.drop_first());
        assert(url_encoded(bytes) == head + tail);
        assert forall|i: int| 0 <= i < url_encoded(bytes).len() implies is_query_safe_char(
            #[trigger] url_encoded(bytes)[i],
        ) by {
            if i < head.len() {
                assert(url_encoded(bytes)[i] == head[i]);
            } else {
                assert(url_encoded(bytes)[i] == tail[i - head.len()]);
            }
        }
    }
}

/// `urlencoding::encode`.
/// Trusted: urlencoding 2.1 percent-encodes every UTF-8 byte of the text
/// except ASCII alphanumerics and `-`, `.`, `_`, `~`, writing `%` and two
/// upper-case hex digits (`encode_into` and `to_hex_digit` in its source).
#[verifier::external_body]
fn url_encode(s: &str) -> (r: String)
    ensures
        r@ == url_encoded(s.spec_bytes()),
{
    urlencoding::encode(s).into_owned()
}

/// A random number from the thread-local generator (`rand::random`).
/// Trusted: nothing is promised about the value.
#[verifier::external_body]
fn random_u16() -> u16 {
    rand::random::<u16>()
}

/// The avatar URL given to a new streamer: a DiceBear avatar whose seed is
/// the percent-encoded username.
pub fn dicebear_avatar_url(username: &str) -> (r: String)
    ensures
        r@ == "https://api.dicebear.com/9.x/avataaars/svg?seed="@ + url_encoded(
            username.spec_bytes(),
        ),
{
    let mut r = owned("https://api.dicebear.com/9.x/avataaars/svg?seed=");
    let e = url_encode(username);
    r.append(e.as_str());
    r
}

/// The username a new account starts from: its email up to the `@`.
pub fn email_username_prefix(email: &str) -> (r: String)
    ensures
        r@ == before_first(email@, '@'),
{
    prefix_before(email, '@')
}

/// The alternative username tried when the plain one is taken.
pub open spec fn spec_username_candidate(prefix: Seq<char>, n: u16) -> Seq<char> {
    prefix + "_"@ + dec_nat(n as nat)
}

/// `prefix_n`: the username tried with the random number `n`.
pub fn username_candidate(prefix: &str, n: u16) -> (r: String)
    ensures
        r@ == spec_username_candidate(prefix@, n),
{
    let mut r = owned(prefix);
    r.append("_");
    push_decimal(&mut r, n as u64);
    r
}

/// The most usernames checked for a new account.
pub open spec fn max_username_checks() -> nat {
    10
}

/// The search for a free username for a new account: the plain prefix
/// first, then `prefix_n` with a random `n` after each taken name, for at
/// most ten checks; after the tenth taken name the last candidate is used
/// unchecked.
pub struct UsernameSearch {
    prefix: String,
    candidate: String,
    checks: u8,
}

/// The search state as plain values.
pub struct UsernameSearchView {
    pub prefix: Seq<char>,
    pub candidate: Seq<char>,
    pub checks: nat,
}

impl View for UsernameSearch {
    type V = UsernameSearchView;

    closed spec fn view(&self) -> UsernameSearchView {
        UsernameSearchView {
            prefix: self.prefix@,
            candidate: self.candidate@,
            checks: self.checks as nat,
        }
    }
}

impl UsernameSearch {
    /// The search holds its invariant: at most ten checks made, and the
    /// candidate is the prefix itself or `prefix_n` for some `n`.
    pub open spec fn wf(self) -> bool {
        &&& self@.checks <= max_username_checks()
        &&& (self@.candidate == self@.prefix || exists|n: u16|
            self@.candidate == #[trigger] spec_username_candidate(self@.prefix, n))
    }

    /// Starts a search at the prefix itself.
    pub fn new(prefix: String) -> (s: UsernameSearch)
        ensures
            s.wf(),
            s@.prefix == prefix@,
            s@.candidate == prefix@,
            s@.checks == 0,
    {
        let candidate = owned(prefix.as_str());
        UsernameSearch { prefix, candidate, checks: 0 }
    }

    /// The username to check (or to use when the search is over).
    pub fn candidate(&self) -> (r: String)
        ensures
            r@ == self@.candidate,
    {
        owned(self.candidate.as_str())
    }

    /// Records whether the candidate is taken, with `n` the number to try
    /// next; returns whether another candidate must be checked. A free
    /// candidate ends the search; a taken one is replaced by `prefix_n`, and
    /// the search ends once ten names were checked.
    pub fn record_check_with(&mut self, taken: bool, n: u16) -> (check_again: bool)
        requires
            old(self).wf(),
            old(self)@.checks < max_username_checks(),
        ensures
            final(self).wf(),
            !taken ==> !check_again && final(self)@ == old(self)@,
            taken ==> final(self)@ == (UsernameSearchView {
                candidate: spec_username_candidate(old(self)@.prefix, n),
                checks: old(self)@.checks + 1,
                ..old(self)@
            }),
            taken ==> check_again == (final(self)@.checks < max_username_checks()),
    {
        if !taken {
            return false;
        }
        self.candidate = username_candidate(self.prefix.as_str(), n);
        self.checks = self.checks + 1;
        assert(self@.candidate == spec_username_candidate(self@.prefix, n));
        self.checks < 10
    }

    /// Records whether the candidate is taken; returns whether another
    /// candidate must be checked. A taken candidate is replaced by `prefix_n`
    /// with a random `n` (see `record_check_with`).
    pub fn record_check(&mut self, taken: bool) -> (check_again: bool)
        requires
            old(self).wf(),
            old(self)@.checks < max_username_checks(),
        ensures
            final(self).wf(),
            final(self)@.prefix == old(self)@.prefix,
            !taken ==> !check_again && final(self)@ == old(self)@,
            taken ==> final(self)@.checks == old(self)@.checks + 1,
            taken ==> check_again == (final(self)@.checks < max_username_checks()),
            taken ==> exists|n: u16|
                final(self)@.candidate == #[trigger] spec_username_candidate(old(self)@.prefix, n),
    {
        if !taken {
            return false;
        }
        let n: u16 = random_u16();
        self.record_check_with(true, n)
    }
}

/// Every username a search tries begins with the prefix taken from the
/// account's email.
pub proof fn law_username_keeps_prefix(s: UsernameSearch)
    requires
        s.wf(),
    ensures
        has_prefix(s@.candidate, s@.prefix),
{
    if s@.candidate != s@.prefix {
        let n: u16 = choose|n: u16| s@.candidate == spec_username_candidate(s@.prefix, n);
        assert(s@.candidate.subrange(0, s@.prefix.len() as int) =~= s@.prefix);
    } else {
        assert(s@.candidate.subrange(0, s@.prefix.len() as int) =~= s@.prefix);
    }
}

proof fn lemma_digit_char_injective(a: nat, b: nat)
    requires
        a < 10,
        b < 10,
        digit_char(a) == digit_char(b),
    ensures
        a == b,
{
}

proof fn lemma_dec_nat_nonempty(n: nat)
    ensures
        dec_nat(n).len() >= 1,
    decreases n,
{
    if n >= 10 {
        lemma_dec_nat_nonempty(n / 10);
    }
}

/// Distinct numbers have distinct decimal notations.
proof fn lemma_dec_nat_injective(a: nat, b: nat)
    requires
        dec_nat(a) == dec_nat(b),
    ensures
        a == b,
    decreases a + b,
{
    lemma_dec_nat_nonempty(a / 10);
    lemma_dec_nat_nonempty(b / 10);
    if a < 10 && b < 10 {
        assert(dec_nat(a)[0] == digit_char(a));
        assert(dec_nat(b)[0] == digit_char(b));
        lemma_digit_char_injective(a, b);
    } else if a < 10 {
        assert(dec_nat(b).len() >= 2);
    } else if b < 10 {
        assert(dec_nat(a).len() >= 2);
    } else {
        let da = dec_nat(a);
        assert(da.last() == digit_char(a % 10));
        assert(dec_nat(b).last() == digit_char(b % 10));
        lemma_digit_char_injective(a % 10, b % 10);
        assert(da.drop_last() =~= dec_nat(a / 10));
        assert(dec_nat(b).drop_last() =~= dec_nat(b / 10));
        lemma_dec_nat_injective(a / 10, b / 10);
    }
}

/// Different random numbers give different usernames to try.
pub proof fn law_username_candidates_distinct(prefix: Seq<char>, n: u16, m: u16)
    requires
        n != m,
    ensures
        spec_username_candidate(prefix, n) != spec_username_candidate(prefix, m),
{
    let pre = prefix + "_"@;
    if spec_username_candidate(prefix, n) == spec_username_candidate(prefix, m) {
        let cn = spec_username_candidate(prefix, n);
        let cm = spec_username_candidate(prefix, m);
        assert(cn.subrange(pre.len() as int, cn.len() as int) =~= dec_nat(n as nat));
        assert(cm.subrange(pre.len() as int, cm.len() as int) =~= dec_nat(m as nat));
        lemma_dec_nat_injective(n as nat, m as nat);
    }
}

/// The display name of a new streamer: the account's name, or the username
/// prefix when the account has none.
pub fn new_streamer_display_name(user_name: &str, prefix: &str) -> (r: String)
    ensures
        user_name@.len() == 0 ==> r@ == prefix@,
        user_name@.len() != 0 ==> r@ == user_name@,
{
    if user_name.is_empty() {
        owned(prefix)
    } else {
        owned(user_name)
    }
}

/// The bio of a new streamer.
pub fn new_streamer_bio() -> (r: String)
    ensures
        r@ == "New to Glint!"@,
{
    owned("New to Glint!")
}

/// Whether a username chosen by someone else blocks a profile edit: the
/// name belongs to a streamer owned by a different user. A name owned by no
/// one, or by the editing user, is free.
pub fn username_taken_by_other(owner_of_name: &Option<String>, user_id: &str) -> (b: bool)
    ensures
        b == (owner_of_name matches Some(o) && o@ != user_id@),
{
    match owner_of_name {
        Some(o) => !str_eq(o.as_str(), user_id),
        None => false,
    }
}

/// The message for a username taken by another user.
pub fn username_taken_message() -> (r: String)
    ensures
        r@ == "Username is already taken by another user."@,
{
    owned("Username is already taken by another user.")
}

/// A character allowed in a username: ASCII letter, digit or underscore.
pub open spec fn is_username_char(c: char) -> bool {
    ('a' <= c <= 'z') || ('A' <= c <= 'Z') || ('0' <= c <= '9') || c == '_'
}

/// Whether a code point is an ASCII digit (0x30-0x39), upper-case letter
/// (0x41-0x5A), lower-case letter (0x61-0x7A) or the underscore (0x5F).
pub open spec fn is_ascii_word_code(n: int) -> bool {
    (0x30 <= n <= 0x39) || (0x41 <= n <= 0x5A) || (0x61 <= n <= 0x7A) || n == 0x5F
}

/// A username character is exactly an ASCII letter, digit or underscore:
/// a name with any other character, such as `.`, `-` or a space, is
/// rejected.
pub proof fn law_username_chars(c: char)
    ensures
        is_username_char(c) <==> is_ascii_word_code(c as int),
        !is_username_char('.') && !is_username_char('-') && !is_username_char(' '),
{
}

/// Whether a username matches the settings form's pattern
/// `^[a-zA-Z0-9_]+$`.
pub fn is_valid_username(name: &str) -> (b: bool)
    ensures
        b == (name@.len() > 0 && forall|i: int| 0 <= i < name@.len() ==> is_username_char(
            #[trigger] name@[i],
        )),
        b == (name@.len() > 0 && forall|i: int|
            0 <= i < name@.len() ==> is_ascii_word_code(#[trigger] name@[i] as int)),
{
    let v = to_chars(name);
    if v.len() == 0 {
        return false;
    }
    let mut i: usize = 0;
    while i < v.len()
        invariant
            v@ == name@,
            i <= v@.len(),
            forall|j: int| 0 <= j < i ==> is_username_char(#[trigger] v@[j]),
        decreases v@.len() - i,
    {
        let c = v[i];
        if !(('a' <= c && c <= 'z') || ('A' <= c && c <= 'Z') || ('0' <= c && c <= '9') || c
            == '_') {
            return false;
        }
        i = i + 1;
    }
    true
}

/// The name shown for a streamer: the display name, or the username when
/// the display name is empty.
pub open spec fn spec_public_name(display_name: Seq<char>, username: Seq<char>) -> Seq<char> {
    if display_name.len() == 0 {
        username
    } else {
        display_name
    }
}

/// The public name is the display name whenever it is non-empty, whatever
/// its length or content, and the username only when it is empty.
pub proof fn law_public_name(display_name: Seq<char>, username: Seq<char>)
    ensures
        display_name.len() > 0 ==> spec_public_name(display_name, username) == display_name,
        display_name.len() == 0 ==> spec_public_name(display_name, username) == username,
{
}

/// The name shown for a streamer on the explore, leaderboard and donation
/// pages.
pub fn public_name(display_name: &str, username: &str) -> (r: String)
    ensures
        r@ == spec_public_name(display_name@, username@),
        display_name@.len() > 0 ==> r@ == display_name@,
        display_name@.len() == 0 ==> r@ == username@,
{
    if display_name.is_empty() {
        owned(username)
    } else {
        owned(display_name)
    }
}

/// The avatar shown for a streamer: the stored URL, or the generic DiceBear
/// avatar when none is stored.
pub fn avatar_or_default(avatar_url: &str) -> (r: String)
    ensures
        avatar_url@.len() == 0 ==> r@ == "https://api.dicebear.com/9.x/avataaars/svg"@,
        avatar_url@.len() != 0 ==> r@ == avatar_url@,
{
    if avatar_url.is_empty() {
        owned("https://api.dicebear.com/9.x/avataaars/svg")
    } else {
        owned(avatar_url)
    }
}

/// The path of a streamer's donation page.
pub fn streamer_profile_path(username: &str) -> (r: String)
    ensures
        r@ == "/streamer/"@ + username@,
{
    let mut r = owned("/streamer/");
    r.append(username);
    r
}

/// The title of a streamer's donation page.
pub fn donate_page_title(display_name: &str, username: &str) -> (r: String)
    ensures
        r@ == "Donate to "@ + spec_public_name(display_name@, username@) + " | Glint"@,
        display_name@.len() > 0 ==> r@ == "Donate to "@ + display_name@ + " | Glint"@,
        display_name@.len() == 0 ==> r@ == "Donate to "@ + username@ + " | Glint"@,
{
    let mut r = owned("Donate to ");
    let name = public_name(display_name, username);
    r.append(name.as_str());
    r.append(" | Glint");
    r
}

/// Whether a bio is long enough (over 100 bytes) to be clamped behind a
/// "Read more" toggle.
pub fn bio_has_toggle(bio: &str) -> (b: bool)
    ensures
        b == (bio.len() > 100),
{
    bio.len() > 100
}

/// The browser-source URL of a streamer's overlay, for OBS.
pub fn overlay_url(origin: &str, overlay_token: &str) -> (r: String)
    ensures
        r@ == origin@ + "/overlay/"@ + overlay_token@,
{
    let mut r = owned(origin);
    r.append("/overlay/");
    r.append(overlay_token);
    r
}

} // verus!
