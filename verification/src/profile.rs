//! AWS profiles: read from the text of the shared config and credentials
//! files, and filtered and ordered for the profile picker.
use vstd::prelude::*;
use vstd::string::*;
use crate::sort::{lemma_seq_lt_asymmetric, lemma_seq_lt_transitive, seq_lt, str_lt};
use crate::cloud::sqs::{after_last, text_after_last};
use crate::text::{contains_seq, filter_keeps, filter_matches, owned, push_char, str_contains, str_eq, str_starts_with};

verus! {

/// A profile of the shared AWS files.
pub struct Profile {
    pub name: String,
    pub region: Option<String>,
    pub account: Option<String>,
    pub role_arn: Option<String>,
    pub source_profile: Option<String>,
}

// ── Text ─────────────────────────────────────────────────────────────────────

/// The characters of Unicode's `White_Space` property, which `str::trim`
/// removes.
pub open spec fn is_white(c: char) -> bool {
    ||| ('\u{9}' <= c && c <= '\u{d}')
    ||| c == ' ' || c == '\u{85}' || c == '\u{a0}' || c == '\u{1680}'
    ||| ('\u{2000}' <= c && c <= '\u{200a}')
    ||| c == '\u{2028}' || c == '\u{2029}' || c == '\u{202f}' || c == '\u{205f}' || c == '\u{3000}'
}

fn white(c: char) -> (r: bool)
    ensures
        r == is_white(c),
{
    ('\u{9}' <= c && c <= '\u{d}') || c == ' ' || c == '\u{85}' || c == '\u{a0}' || c == '\u{1680}'
        || ('\u{2000}' <= c && c <= '\u{200a}') || c == '\u{2028}' || c == '\u{2029}' || c == '\u{202f}'
        || c == '\u{205f}' || c == '\u{3000}'
}

/// The number of characters at the start of `s` that `keep` accepts.
pub open spec fn lead_count(s: Seq<char>, c: char, white_space: bool) -> nat
    decreases s.len(),
{
    if s.len() == 0 {
        0
    } else if (white_space && is_white(s[0])) || (!white_space && s[0] == c) {
        1 + lead_count(s.drop_first(), c, white_space)
    } else {
        0
    }
}

/// The number of characters at the end of `s` that are white space (or `c`).
pub open spec fn trail_count(s: Seq<char>, c: char, white_space: bool) -> nat
    decreases s.len(),
{
    if s.len() == 0 {
        0
    } else if (white_space && is_white(s.last())) || (!white_space && s.last() == c) {
        1 + trail_count(s.drop_last(), c, white_space)
    } else {
        0
    }
}

/// `s` without the white space at its start and end, as `str::trim` gives it.
pub open spec fn trimmed(s: Seq<char>) -> Seq<char> {
    let a = lead_count(s, ' ', true);
    let rest = s.subrange(a as int, s.len() as int);
    rest.subrange(0, rest.len() - trail_count(rest, ' ', true))
}

proof fn lemma_lead_count_bound(s: Seq<char>, c: char, w: bool)
    ensures
        lead_count(s, c, w) <= s.len(),
    decreases s.len(),
{
    if s.len() > 0 {
        lemma_lead_count_bound(s.drop_first(), c, w);
    }
}

proof fn lemma_trail_count_bound(s: Seq<char>, c: char, w: bool)
    ensures
        trail_count(s, c, w) <= s.len(),
    decreases s.len(),
{
    if s.len() > 0 {
        lemma_trail_count_bound(s.drop_last(), c, w);
    }
}

/// Counts the characters at the start of `s` that are white space (or `c`).
pub(crate) fn count_lead(s: &str, c: char, w: bool) -> (r: usize)
    ensures
        r == lead_count(s@, c, w),
        r <= s@.len(),
{
    let n = s.unicode_len();
    let mut i: usize = 0;
    assert(s@.skip(0) =~= s@);
    while i < n
        invariant
            n == s@.len(),
            i <= n,
            lead_count(s@, c, w) == i + lead_count(s@.skip(i as int), c, w),
        decreases n - i,
    {
        let x = s.get_char(i);
        assert(s@.skip(i as int)[0] == x);
        assert(s@.skip(i as int).drop_first() =~= s@.skip(i + 1));
        let hit = if w { white(x) } else { x == c };
        if !hit {
            return i;
        }
        i = i + 1;
    }
    assert(s@.skip(n as int).len() == 0);
    i
}

/// Counts the characters at the end of `s` that are white space (or `c`).
fn count_trail(s: &str, c: char, w: bool) -> (r: usize)
    ensures
        r == trail_count(s@, c, w),
        r <= s@.len(),
{
    let n = s.unicode_len();
    let mut i: usize = n;
    assert(s@.take(n as int) =~= s@);
    while i > 0
        invariant
            n == s@.len(),
            i <= n,
            trail_count(s@, c, w) == (n - i) + trail_count(s@.take(i as int), c, w),
        decreases i,
    {
        let x = s.get_char(i - 1);
        assert(s@.take(i as int).last() == x);
        assert(s@.take(i as int).drop_last() =~= s@.take(i - 1));
        let hit = if w { white(x) } else { x == c };
        if !hit {
            return n - i;
        }
        i = i - 1;
    }
    n
}

/// `s` without the white space at its start and end.
pub fn trim_text(s: &str) -> (r: String)
    ensures
        r@ == trimmed(s@),
{
    let a = count_lead(s, ' ', true);
    let rest = s.substring_char(a, s.unicode_len());
    let b = count_trail(rest, ' ', true);
    owned(rest.substring_char(0, rest.unicode_len() - b))
}

/// `s` without every `c` at its start.
pub open spec fn strip_leading(s: Seq<char>, c: char) -> Seq<char> {
    s.subrange(lead_count(s, c, false) as int, s.len() as int)
}

/// `s` without every `c` at its end.
pub open spec fn strip_trailing(s: Seq<char>, c: char) -> Seq<char> {
    s.subrange(0, s.len() - trail_count(s, c, false))
}

fn strip_leading_char(s: &str, c: char) -> (r: String)
    ensures
        r@ == strip_leading(s@, c),
{
    let a = count_lead(s, c, false);
    owned(s.substring_char(a, s.unicode_len()))
}

fn strip_trailing_char(s: &str, c: char) -> (r: String)
    ensures
        r@ == strip_trailing(s@, c),
{
    let b = count_trail(s, c, false);
    owned(s.substring_char(0, s.unicode_len() - b))
}

/// `s` without every repetition of `prefix` at its start, as
/// `str::trim_start_matches` gives it.
pub open spec fn strip_prefixes(s: Seq<char>, prefix: Seq<char>) -> Seq<char>
    decreases s.len(),
{
    if prefix.len() > 0 && prefix.len() <= s.len() && s.subrange(0, prefix.len() as int) == prefix {
        strip_prefixes(s.subrange(prefix.len() as int, s.len() as int), prefix)
    } else {
        s
    }
}

fn strip_prefix_str(s: &str, prefix: &str) -> (r: String)
    requires
        prefix@.len() > 0,
    ensures
        r@ == strip_prefixes(s@, prefix@),
{
    let n = s.unicode_len();
    let p = prefix.unicode_len();
    let mut i: usize = 0;
    assert(s@.subrange(0, n as int) =~= s@);
    while p <= n - i && str_starts_with(s.substring_char(i, n), prefix)
        invariant
            n == s@.len(),
            p == prefix@.len(),
            p > 0,
            i <= n,
            strip_prefixes(s@, prefix@) == strip_prefixes(s@.subrange(i as int, n as int), prefix@),
        decreases n - i,
    {
        assert(s@.subrange(i as int, n as int).subrange(p as int, (n - i) as int) =~= s@.subrange(i + p, n as int));
        i = i + p;
    }
    owned(s.substring_char(i, n))
}

/// The lines of `s` as `str::lines` gives them, `cur` standing before `s` as
/// the start of its first line: lines end at `\n`, a `\r` just before it is
/// dropped, and the text after the last `\n` is a last line when it is not
/// empty.
pub open spec fn lines_from(s: Seq<char>, cur: Seq<char>) -> Seq<Seq<char>>
    decreases s.len(),
{
    if s.len() == 0 {
        if cur.len() > 0 { seq![line_text(cur)] } else { Seq::empty() }
    } else if s[0] == '\n' {
        seq![line_text(cur)] + lines_from(s.drop_first(), Seq::empty())
    } else {
        lines_from(s.drop_first(), cur.push(s[0]))
    }
}

/// A line without the `\r` that may end it.
pub open spec fn line_text(l: Seq<char>) -> Seq<char> {
    if l.len() > 0 && l.last() == '\r' { l.drop_last() } else { l }
}

/// The lines of `s`, as `str::lines` gives them.
pub open spec fn lines_of(s: Seq<char>) -> Seq<Seq<char>> {
    lines_from(s, Seq::empty())
}


/// A string slice's characters, for a value that may be absent.
pub open spec fn opt_view(o: Option<String>) -> Option<Seq<char>> {
    match o {
        Some(s) => Some(s@),
        None => None,
    }
}

/// The characters of each string.
pub open spec fn views(v: Seq<String>) -> Seq<Seq<char>> {
    Seq::new(v.len(), |i: int| v[i]@)
}

/// A profile as plain values.
pub struct ProfileModel {
    pub name: Seq<char>,
    pub region: Option<Seq<char>>,
    pub account: Option<Seq<char>>,
    pub role_arn: Option<Seq<char>>,
    pub source_profile: Option<Seq<char>>,
}

impl View for Profile {
    type V = ProfileModel;

    open spec fn view(&self) -> ProfileModel {
        ProfileModel {
            name: self.name@,
            region: opt_view(self.region),
            account: opt_view(self.account),
            role_arn: opt_view(self.role_arn),
            source_profile: opt_view(self.source_profile),
        }
    }
}

/// The models of a sequence of profiles.
pub open spec fn models(s: Seq<Profile>) -> Seq<ProfileModel> {
    Seq::new(s.len(), |i: int| s[i]@)
}

/// Splits `s` into its lines, as `str::lines` does.
pub fn lines_vec(s: &str) -> (r: Vec<String>)
    ensures
        views(r@) == lines_of(s@),
{
    let n = s.unicode_len();
    let mut out: Vec<String> = Vec::new();
    let mut cur = String::new();
    let mut i: usize = 0;
    assert(s@.skip(0) =~= s@);
    assert(views(out@) =~= Seq::<Seq<char>>::empty());
    assert(lines_of(s@) =~= views(out@) + lines_from(s@.skip(0), cur@));
    while i < n
        invariant
            n == s@.len(),
            i <= n,
            lines_of(s@) == views(out@) + lines_from(s@.skip(i as int), cur@),
        decreases n - i,
    {
        let c = s.get_char(i);
        let ghost rest = s@.skip(i as int);
        assert(rest[0] == c);
        assert(rest.drop_first() =~= s@.skip(i + 1));
        if c == '\n' {
            let l = line_of(cur.as_str());
            let ghost before = out@;
            out.push(l);
            assert(views(out@) =~= views(before).push(l@));
            assert(views(before) + (seq![line_text(cur@)] + lines_from(s@.skip(i + 1), Seq::empty()))
                =~= views(out@) + lines_from(s@.skip(i + 1), Seq::empty()));
            cur = String::new();
        } else {
            push_char(&mut cur, c);
        }
        i = i + 1;
    }
    assert(s@.skip(n as int).len() == 0);
    if cur.unicode_len() > 0 {
        let l = line_of(cur.as_str());
        let ghost before = out@;
        out.push(l);
        assert(views(out@) =~= views(before).push(l@));
        assert(views(before) + seq![line_text(cur@)] =~= views(out@));
    } else {
        assert(views(out@) + Seq::<Seq<char>>::empty() =~= views(out@));
    }
    out
}

/// The text of one line without the `\r` that may end it.
fn line_of(cur: &str) -> (r: String)
    ensures
        r@ == line_text(cur@),
{
    let n = cur.unicode_len();
    if n > 0 && cur.get_char(n - 1) == '\r' {
        assert(cur@.drop_last() =~= cur@.subrange(0, n - 1));
        owned(cur.substring_char(0, n - 1))
    } else {
        owned(cur)
    }
}


/// The position of the first `c` in `s`, if there is one.
pub open spec fn find_char(s: Seq<char>, c: char) -> Option<int>
    decreases s.len(),
{
    if s.len() == 0 {
        None
    } else if s[0] == c {
        Some(0)
    } else {
        match find_char(s.drop_first(), c) {
            Some(i) => Some(i + 1),
            None => None,
        }
    }
}

proof fn lemma_find_char(s: Seq<char>, c: char, i: int)
    requires
        0 <= i <= s.len(),
        forall|k: int| 0 <= k < i ==> s[k] != c,
        i < s.len() ==> s[i] == c,
    ensures
        find_char(s, c) == (if i < s.len() { Some(i) } else { None::<int> }),
    decreases s.len(),
{
    if s.len() > 0 && i > 0 {
        lemma_find_char(s.drop_first(), c, i - 1);
    }
}

/// The position of the first `c` in `s`, if there is one.
pub(crate) fn find_char_exec(s: &str, c: char) -> (r: Option<usize>)
    ensures
        match r {
            Some(i) => i < s@.len() && find_char(s@, c) == Some(i as int),
            None => find_char(s@, c) is None,
        },
{
    let n = s.unicode_len();
    let mut i: usize = 0;
    while i < n
        invariant
            n == s@.len(),
            i <= n,
            forall|k: int| 0 <= k < i ==> s@[k] != c,
        decreases n - i,
    {
        if s.get_char(i) == c {
            proof { lemma_find_char(s@, c, i as int); }
            return Some(i);
        }
        i = i + 1;
    }
    proof { lemma_find_char(s@, c, n as int); }
    None
}

/// Whether a trimmed line is a section header: it starts with `[` and ends
/// with `]`.
pub open spec fn header_line(l: Seq<char>) -> bool {
    l.len() > 0 && l[0] == '[' && l.last() == ']'
}

fn is_header(l: &str) -> (r: bool)
    ensures
        r == header_line(l@),
{
    let n = l.unicode_len();
    n > 0 && l.get_char(0) == '[' && l.get_char(n - 1) == ']'
}

/// The name inside a section header: without the leading `[`s and the
/// trailing `]`s.
pub open spec fn section_name(l: Seq<char>) -> Seq<char> {
    strip_trailing(strip_leading(l, '['), ']')
}

/// The profile name of a config file header: the section name without the
/// `profile ` prefix.
pub open spec fn config_profile_name(l: Seq<char>) -> Seq<char> {
    strip_prefixes(section_name(l), "profile "@)
}

/// A profile as the config file gives it: no account is ever read there.
pub open spec fn config_profile(
    name: Seq<char>,
    region: Option<Seq<char>>,
    role: Option<Seq<char>>,
    source: Option<Seq<char>>,
) -> ProfileModel {
    ProfileModel { name, region, account: None, role_arn: role, source_profile: source }
}

/// Where the reading of a config file stands: the profiles done, and the
/// section being read with the settings met since the last flush.
pub struct ConfigScan {
    pub profiles: Seq<ProfileModel>,
    pub current: Option<Seq<char>>,
    pub region: Option<Seq<char>>,
    pub role: Option<Seq<char>>,
    pub source: Option<Seq<char>>,
}

/// Nothing read yet.
pub open spec fn config_start() -> ConfigScan {
    ConfigScan { profiles: Seq::empty(), current: None, region: None, role: None, source: None }
}

/// One trimmed line of a config file. A header closes the section being read
/// (its settings then start afresh) and opens a new one; a `key = value` line
/// (split at its first `=`, both sides trimmed) sets `region`, `role_arn` or
/// `source_profile`; any other line is ignored.
pub open spec fn config_step(st: ConfigScan, l: Seq<char>) -> ConfigScan {
    if header_line(l) {
        match st.current {
            Some(n) => ConfigScan {
                profiles: st.profiles.push(config_profile(n, st.region, st.role, st.source)),
                current: Some(config_profile_name(l)),
                region: None,
                role: None,
                source: None,
            },
            None => ConfigScan {
                profiles: st.profiles,
                current: Some(config_profile_name(l)),
                region: st.region,
                role: st.role,
                source: st.source,
            },
        }
    } else {
        match find_char(l, '=') {
            Some(i) => {
                let key = trimmed(l.take(i));
                let value = trimmed(l.skip(i + 1));
                if key == "region"@ {
                    ConfigScan { region: Some(value), ..st }
                } else if key == "role_arn"@ {
                    ConfigScan { role: Some(value), ..st }
                } else if key == "source_profile"@ {
                    ConfigScan { source: Some(value), ..st }
                } else {
                    st
                }
            },
            None => st,
        }
    }
}

/// A section header starts its section afresh: whatever settings the
/// previous section had, the new section has no region, role or source
/// profile yet, and it is named by the header alone. So two readings that
/// reach the same header from different sections go on alike.
pub proof fn lemma_header_starts_fresh(st1: ConfigScan, st2: ConfigScan, l: Seq<char>)
    requires
        header_line(l),
        st1.current is Some,
        st2.current is Some,
    ensures
        config_step(st1, l).region is None,
        config_step(st1, l).role is None,
        config_step(st1, l).source is None,
        config_step(st1, l).current == config_step(st2, l).current,
        config_step(st1, l).profiles == st1.profiles.push(ProfileModel {
            name: st1.current.unwrap(),
            region: st1.region,
            account: None,
            role_arn: st1.role,
            source_profile: st1.source,
        }),
{
}

/// A line that is no header changes only the settings of the section being
/// read: the profiles already closed and the section's name stay, and a
/// setting other than the one the line names stays too.
pub proof fn lemma_setting_line_local(st: ConfigScan, l: Seq<char>)
    requires
        !header_line(l),
    ensures
        config_step(st, l).profiles == st.profiles,
        config_step(st, l).current == st.current,
        config_step(st, l).region != st.region ==> config_step(st, l).region is Some,
        config_step(st, l).role != st.role ==> config_step(st, l).role is Some,
        config_step(st, l).source != st.source ==> config_step(st, l).source is Some,
        find_char(l, '=') is None ==> config_step(st, l) == st,
{
}

/// A `key = value` line sets the setting its key names to its value, both
/// trimmed, and leaves the other two: `region` the region, `role_arn` the
/// role and `source_profile` the source profile.
pub proof fn lemma_setting_keys(st: ConfigScan, l: Seq<char>, i: int)
    requires
        !header_line(l),
        find_char(l, '=') == Some(i),
    ensures
        trimmed(l.take(i)) == "region"@ ==> config_step(st, l).region == Some(trimmed(l.skip(i + 1)))
            && config_step(st, l).role == st.role && config_step(st, l).source == st.source,
        trimmed(l.take(i)) == "role_arn"@ ==> config_step(st, l).role == Some(trimmed(l.skip(i + 1)))
            && config_step(st, l).region == st.region && config_step(st, l).source == st.source,
        trimmed(l.take(i)) == "source_profile"@ ==> config_step(st, l).source == Some(trimmed(l.skip(i + 1)))
            && config_step(st, l).region == st.region && config_step(st, l).role == st.role,
{
    reveal_strlit("region");
    reveal_strlit("role_arn");
    reveal_strlit("source_profile");
    assert("region"@.len() == 6);
    assert("role_arn"@.len() == 8);
    assert("source_profile"@.len() == 14);
}

/// The lines `ls`, each trimmed, read in turn from `st`.
pub open spec fn config_fold(st: ConfigScan, ls: Seq<Seq<char>>) -> ConfigScan
    decreases ls.len(),
{
    if ls.len() == 0 {
        st
    } else {
        config_fold(config_step(st, trimmed(ls[0])), ls.drop_first())
    }
}

/// The profiles once the file has ended: the last section is closed.
pub open spec fn config_finish(st: ConfigScan) -> Seq<ProfileModel> {
    match st.current {
        Some(n) => st.profiles.push(config_profile(n, st.region, st.role, st.source)),
        None => st.profiles,
    }
}

/// The profiles of a config file's text, in the order of their sections.
pub open spec fn config_profiles(text: Seq<char>) -> Seq<ProfileModel> {
    config_finish(config_fold(config_start(), lines_of(text)))
}

/// Whether a profile of that name is in `ps`.
pub open spec fn has_profile(ps: Seq<ProfileModel>, name: Seq<char>) -> bool {
    exists|k: int| 0 <= k < ps.len() && #[trigger] ps[k].name == name
}

/// One trimmed line of a credentials file: a header whose name is not yet
/// among the profiles adds a profile of that name with nothing else set.
pub open spec fn credentials_step(ps: Seq<ProfileModel>, l: Seq<char>) -> Seq<ProfileModel> {
    if header_line(l) && !has_profile(ps, section_name(l)) {
        ps.push(ProfileModel {
            name: section_name(l),
            region: None,
            account: None,
            role_arn: None,
            source_profile: None,
        })
    } else {
        ps
    }
}

/// The lines `ls`, each trimmed, read in turn into `ps`.
pub open spec fn credentials_fold(ps: Seq<ProfileModel>, ls: Seq<Seq<char>>) -> Seq<ProfileModel>
    decreases ls.len(),
{
    if ls.len() == 0 {
        ps
    } else {
        credentials_fold(credentials_step(ps, trimmed(ls[0])), ls.drop_first())
    }
}

/// All profiles of the shared files: those of the config file, then those
/// that only the credentials file names. An absent file gives none.
pub open spec fn all_profiles(config: Option<Seq<char>>, credentials: Option<Seq<char>>) -> Seq<ProfileModel> {
    let from_config = match config {
        Some(t) => config_profiles(t),
        None => Seq::empty(),
    };
    match credentials {
        Some(t) => credentials_fold(from_config, lines_of(t)),
        None => from_config,
    }
}


/// The reading of a config file, as it stands.
struct ConfigReader {
    profiles: Vec<Profile>,
    current: Option<String>,
    region: Option<String>,
    role: Option<String>,
    source: Option<String>,
}

impl ConfigReader {
    spec fn scan(&self) -> ConfigScan {
        ConfigScan {
            profiles: models(self.profiles@),
            current: opt_view(self.current),
            region: opt_view(self.region),
            role: opt_view(self.role),
            source: opt_view(self.source),
        }
    }

    /// Closes the section being read, if there is one, and returns its
    /// settings as they were.
    fn flush(&mut self)
        ensures
            old(self).current is Some ==> {
                &&& final(self).scan().profiles == config_finish(old(self).scan())
                &&& final(self).current is None
                &&& final(self).region is None
                &&& final(self).role is None
                &&& final(self).source is None
            },
            old(self).current is None ==> final(self).scan() == old(self).scan(),
    {
        if let Some(name) = self.current.take() {
            let p = Profile {
                name,
                region: self.region.take(),
                account: None,
                role_arn: self.role.take(),
                source_profile: self.source.take(),
            };
            let ghost before = self.profiles@;
            self.profiles.push(p);
            assert(models(self.profiles@) =~= models(before).push(p@));
        }
    }

    /// Reads one trimmed line.
    fn step(&mut self, l: &str)
        ensures
            final(self).scan() == config_step(old(self).scan(), l@),
    {
        if is_header(l) {
            self.flush();
            let a = strip_leading_char(l, '[');
            let b = strip_trailing_char(a.as_str(), ']');
            proof { reveal_strlit("profile "); }
            let name = strip_prefix_str(b.as_str(), "profile ");
            self.current = Some(name);
        } else {
            match find_char_exec(l, '=') {
                Some(i) => {
                    let n = l.unicode_len();
                    let key = trim_text(l.substring_char(0, i));
                    let value = trim_text(l.substring_char(i + 1, n));
                    assert(l@.take(i as int) =~= l@.subrange(0, i as int));
                    assert(l@.skip(i + 1) =~= l@.subrange(i + 1, n as int));
                    if str_eq(key.as_str(), "region") {
                        self.region = Some(value);
                    } else if str_eq(key.as_str(), "role_arn") {
                        self.role = Some(value);
                    } else if str_eq(key.as_str(), "source_profile") {
                        self.source = Some(value);
                    }
                },
                None => {},
            }
        }
    }
}

/// The profiles of a config file's text.
fn read_config(text: &str) -> (r: Vec<Profile>)
    ensures
        models(r@) == config_profiles(text@),
{
    let lines = lines_vec(text);
    let mut rd = ConfigReader {
        profiles: Vec::new(),
        current: None,
        region: None,
        role: None,
        source: None,
    };
    let ghost ls = lines_of(text@);
    assert(models(rd.profiles@) =~= Seq::<ProfileModel>::empty());
    assert(ls.skip(0) =~= ls);
    let mut i: usize = 0;
    while i < lines.len()
        invariant
            views(lines@) == ls,
            i <= lines.len(),
            config_fold(config_start(), ls) == config_fold(rd.scan(), ls.skip(i as int)),
        decreases lines.len() - i,
    {
        let t = trim_text(lines[i].as_str());
        assert(ls.skip(i as int)[0] == lines@[i as int]@);
        assert(ls.skip(i as int).drop_first() =~= ls.skip(i + 1));
        rd.step(t.as_str());
        i = i + 1;
    }
    assert(ls.skip(i as int).len() == 0);
    rd.flush();
    rd.profiles
}

/// Adds the profiles that only a credentials file's text names.
fn read_credentials(profiles: &mut Vec<Profile>, text: &str)
    ensures
        models(final(profiles)@) == credentials_fold(models(old(profiles)@), lines_of(text@)),
{
    let lines = lines_vec(text);
    let ghost ls = lines_of(text@);
    assert(ls.skip(0) =~= ls);
    let mut i: usize = 0;
    while i < lines.len()
        invariant
            views(lines@) == ls,
            i <= lines.len(),
            credentials_fold(models(old(profiles)@), ls) == credentials_fold(models(profiles@), ls.skip(i as int)),
        decreases lines.len() - i,
    {
        let t = trim_text(lines[i].as_str());
        assert(ls.skip(i as int)[0] == lines@[i as int]@);
        assert(ls.skip(i as int).drop_first() =~= ls.skip(i + 1));
        if is_header(t.as_str()) {
            let a = strip_leading_char(t.as_str(), '[');
            let name = strip_trailing_char(a.as_str(), ']');
            let mut found = false;
            let mut k: usize = 0;
            while k < profiles.len()
                invariant
                    k <= profiles.len(),
                    found <==> exists|j: int| 0 <= j < k && #[trigger] models(profiles@)[j].name == name@,
                decreases profiles.len() - k,
            {
                if str_eq(profiles[k].name.as_str(), name.as_str()) {
                    found = true;
                }
                assert(models(profiles@)[k as int].name == profiles@[k as int].name@);
                k = k + 1;
            }
            if !found {
                let ghost before = profiles@;
                profiles.push(Profile { name, region: None, account: None, role_arn: None, source_profile: None });
                assert(models(profiles@) =~= models(before).push(profiles@.last()@));
            }
        }
        i = i + 1;
    }
    assert(ls.skip(i as int).len() == 0);
}

impl Profile {
    /// The profiles of the shared config and credentials files, given their
    /// texts (`None` for a file that could not be read): those of the config
    /// file in order, then each that only the credentials file names.
    pub fn from_files(config: Option<&str>, credentials: Option<&str>) -> (r: Vec<Profile>)
        ensures
            models(r@) == all_profiles(
                match config { Some(t) => Some(t@), None => None },
                match credentials { Some(t) => Some(t@), None => None },
            ),
    {
        let mut profiles = match config {
            Some(t) => read_config(t),
            None => {
                let v: Vec<Profile> = Vec::new();
                assert(models(v@) =~= Seq::<ProfileModel>::empty());
                v
            },
        };
        match credentials {
            Some(t) => read_credentials(&mut profiles, t),
            None => {},
        }
        profiles
    }
}


/// Whether the filter keeps a field that may be absent: an absent field
/// never matches.
pub open spec fn opt_keeps(filter: Seq<char>, o: Option<Seq<char>>) -> bool {
    match o {
        Some(v) => filter_keeps(filter, v),
        None => false,
    }
}

/// The rule of the profile picker's filter: an empty filter keeps every
/// profile; another keeps those whose name, region, account, role or source
/// profile holds it, case aside.
pub open spec fn profile_kept(filter: Seq<char>, p: ProfileModel) -> bool {
    ||| filter.len() == 0
    ||| filter_keeps(filter, p.name)
    ||| opt_keeps(filter, p.region)
    ||| opt_keeps(filter, p.account)
    ||| opt_keeps(filter, p.role_arn)
    ||| opt_keeps(filter, p.source_profile)
}

/// Where `x` goes in `s` when it is placed after every profile whose name does
/// not come after its own.
pub open spec fn insert_pos(s: Seq<ProfileModel>, x: ProfileModel) -> int
    decreases s.len(),
{
    if s.len() == 0 {
        0
    } else if seq_lt(x.name, s[0].name) {
        0
    } else {
        1 + insert_pos(s.drop_first(), x)
    }
}

/// The profiles of `ps` that the filter keeps, ordered by name; profiles of
/// the same name keep their order (a stable sort).
pub open spec fn sorted_kept(ps: Seq<ProfileModel>, filter: Seq<char>) -> Seq<ProfileModel>
    decreases ps.len(),
{
    if ps.len() == 0 {
        Seq::empty()
    } else {
        let rest = sorted_kept(ps.drop_last(), filter);
        if profile_kept(filter, ps.last()) {
            rest.insert(insert_pos(rest, ps.last()), ps.last())
        } else {
            rest
        }
    }
}

/// The models of a sequence of borrowed profiles.
pub open spec fn ref_models(s: Seq<&Profile>) -> Seq<ProfileModel> {
    Seq::new(s.len(), |i: int| s[i]@)
}

fn opt_matches(filter: &str, o: &Option<String>) -> (r: bool)
    ensures
        r == opt_keeps(filter@, opt_view(*o)),
{
    match o {
        Some(v) => filter_matches(filter, v.as_str()),
        None => false,
    }
}

fn profile_matches(filter: &str, p: &Profile) -> (r: bool)
    ensures
        r == profile_kept(filter@, p@),
{
    filter.unicode_len() == 0 || filter_matches(filter, p.name.as_str()) || opt_matches(filter, &p.region)
        || opt_matches(filter, &p.account) || opt_matches(filter, &p.role_arn) || opt_matches(
        filter,
        &p.source_profile,
    )
}

/// The profiles that the picker's filter keeps, ordered by name.
pub fn filter_profiles<'a>(profiles: &'a [Profile], filter: &str) -> (r: Vec<&'a Profile>)
    ensures
        ref_models(r@) == sorted_kept(models(profiles@), filter@),
{
    let n = profiles.len();
    let ghost ms = models(profiles@);
    let mut out: Vec<&'a Profile> = Vec::new();
    let mut i: usize = 0;
    assert(ms.take(0) =~= Seq::<ProfileModel>::empty());
    assert(ref_models(out@) =~= Seq::<ProfileModel>::empty());
    while i < n
        invariant
            n == profiles@.len(),
            ms == models(profiles@),
            i <= n,
            ref_models(out@) == sorted_kept(ms.take(i as int), filter@),
        decreases n - i,
    {
        let x: &'a Profile = &profiles[i];
        assert(ms.take(i + 1).drop_last() =~= ms.take(i as int));
        assert(ms.take(i + 1).last() == x@);
        if profile_matches(filter, x) {
            let m = out.len();
            let mut p: usize = 0;
            let ghost cur = ref_models(out@);
            assert(cur.skip(0) =~= cur);
            while p < m && !str_lt(x.name.as_str(), out[p].name.as_str())
                invariant
                    m == out@.len(),
                    cur == ref_models(out@),
                    p <= m,
                    insert_pos(cur, x@) == p + insert_pos(cur.skip(p as int), x@),
                decreases m - p,
            {
                assert(cur.skip(p as int)[0] == out@[p as int]@);
                assert(cur.skip(p as int).drop_first() =~= cur.skip(p + 1));
                p = p + 1;
            }
            proof {
                if p < m {
                    assert(cur.skip(p as int)[0] == out@[p as int]@);
                } else {
                    assert(cur.skip(p as int).len() == 0);
                }
            }
            let ghost before = out@;
            out.insert(p, x);
            assert(ref_models(out@) =~= ref_models(before).insert(p as int, x@));
        }
        i = i + 1;
    }
    assert(ms.take(n as int) =~= ms);
    out
}

/// What the picker shows of a role: `role/` and the role's name for a role
/// ARN, `user/` and the user's name for a user ARN, else the text itself;
/// nothing when there is no role.
pub open spec fn role_text(role_arn: Option<Seq<char>>) -> Seq<char> {
    match role_arn {
        Some(r) => if contains_seq(r, ":role/"@) {
            "role/"@ + after_last(r, '/')
        } else if contains_seq(r, ":user/"@) {
            "user/"@ + after_last(r, '/')
        } else {
            r
        },
        None => Seq::empty(),
    }
}

/// The picker's Role/User cell of a profile.
pub fn role_label(p: &Profile) -> (r: String)
    ensures
        r@ == role_text(p@.role_arn),
{
    match &p.role_arn {
        Some(role) => {
            if str_contains(role.as_str(), ":role/") {
                let mut out = owned("role/");
                let tail = text_after_last(role.as_str(), '/');
                out.append(tail.as_str());
                out
            } else if str_contains(role.as_str(), ":user/") {
                let mut out = owned("user/");
                let tail = text_after_last(role.as_str(), '/');
                out.append(tail.as_str());
                out
            } else {
                role.clone()
            }
        },
        None => String::new(),
    }
}


/// Whether the names of `s` never go down.
pub open spec fn sorted_by_name(s: Seq<ProfileModel>) -> bool {
    forall|i: int, j: int| 0 <= i < j < s.len() ==> !seq_lt(#[trigger] s[j].name, #[trigger] s[i].name)
}

/// The profiles of `ps` that the filter keeps, in their order.
pub open spec fn kept(ps: Seq<ProfileModel>, filter: Seq<char>) -> Seq<ProfileModel>
    decreases ps.len(),
{
    if ps.len() == 0 {
        Seq::empty()
    } else if profile_kept(filter, ps.last()) {
        kept(ps.drop_last(), filter).push(ps.last())
    } else {
        kept(ps.drop_last(), filter)
    }
}

proof fn lemma_insert_pos(s: Seq<ProfileModel>, x: ProfileModel)
    ensures
        0 <= insert_pos(s, x) <= s.len(),
        forall|k: int| 0 <= k < insert_pos(s, x) ==> !seq_lt(x.name, #[trigger] s[k].name),
        insert_pos(s, x) < s.len() ==> seq_lt(x.name, s[insert_pos(s, x)].name),
    decreases s.len(),
{
    if s.len() > 0 && !seq_lt(x.name, s[0].name) {
        lemma_insert_pos(s.drop_first(), x);
        assert forall|k: int| 0 <= k < insert_pos(s, x) implies !seq_lt(x.name, #[trigger] s[k].name) by {
            if k > 0 {
                assert(s[k] == s.drop_first()[k - 1]);
            }
        }
    }
}

/// What the picker lists is exactly the profiles that the filter keeps (as
/// many times as they occur), ordered by name.
pub proof fn lemma_picker_order(ps: Seq<ProfileModel>, filter: Seq<char>)
    ensures
        sorted_by_name(sorted_kept(ps, filter)),
        sorted_kept(ps, filter).to_multiset() == kept(ps, filter).to_multiset(),
    decreases ps.len(),
{
    broadcast use vstd::seq_lib::group_to_multiset_ensures;
    if ps.len() > 0 {
        lemma_picker_order(ps.drop_last(), filter);
        let rest = sorted_kept(ps.drop_last(), filter);
        let x = ps.last();
        if profile_kept(filter, x) {
            let p = insert_pos(rest, x);
            lemma_insert_pos(rest, x);
            let out = rest.insert(p, x);
            vstd::seq_lib::to_multiset_insert(rest, p, x);
            vstd::seq_lib::to_multiset_build(kept(ps.drop_last(), filter), x);
            assert forall|a: int, b: int| 0 <= a < b < out.len() implies !seq_lt(
                #[trigger] out[b].name,
                #[trigger] out[a].name,
            ) by {
                if a < p && b < p {
                    assert(out[a] == rest[a] && out[b] == rest[b]);
                } else if a < p && b == p {
                    assert(out[a] == rest[a] && out[b] == x);
                } else if a < p && b > p {
                    assert(out[a] == rest[a] && out[b] == rest[b - 1]);
                    if seq_lt(rest[b - 1].name, rest[a].name) {
                    }
                } else if a == p {
                    assert(out[a] == x);
                    assert(out[b] == rest[b - 1]);
                    lemma_seq_lt_asymmetric(rest[p].name, x.name);
                    if seq_lt(rest[b - 1].name, x.name) {
                        lemma_seq_lt_transitive(rest[b - 1].name, x.name, rest[p].name);
                    }
                } else {
                    assert(out[a] == rest[a - 1] && out[b] == rest[b - 1]);
                }
            }
        }
    }
}

} // verus!
