use vstd::prelude::*;
use vstd::string::*;

use crate::name::{is_valid_name, validate_name};

verus! {

/// One entry of the profile root, as the caller found it.
pub struct ProfileEntry {
    /// The entry's file name.
    pub name: String,
    /// The entry is a directory.
    pub is_dir: bool,
    /// The directory holds a regular file `auth.json`.
    pub has_auth_file: bool,
}

/// The entry is listed as a saved profile.
pub open spec fn is_listed(e: ProfileEntry) -> bool {
    e.is_dir && is_valid_name(e.name@) && e.has_auth_file
}

/// The names of the listed entries, in the order in which they were found.
pub open spec fn listed_names(entries: Seq<ProfileEntry>) -> Seq<Seq<char>>
    decreases entries.len(),
{
    if entries.len() == 0 {
        Seq::empty()
    } else {
        let rest = listed_names(entries.drop_last());
        if is_listed(entries.last()) {
            rest.push(entries.last().name@)
        } else {
            rest
        }
    }
}

/// `a` sorts before `b`: at their first difference `a` has the smaller
/// character, or `a` is a proper prefix of `b`. This is the order of
/// `String`, since UTF-8 keeps the order of code points.
pub open spec fn lex_lt(a: Seq<char>, b: Seq<char>) -> bool
    decreases a.len(),
{
    if a.len() == 0 {
        b.len() > 0
    } else if b.len() == 0 {
        false
    } else if a[0] != b[0] {
        a[0] < b[0]
    } else {
        lex_lt(a.drop_first(), b.drop_first())
    }
}

/// The names are in ascending order.
pub open spec fn is_sorted(s: Seq<Seq<char>>) -> bool {
    forall|i: int, j: int| 0 <= i < j < s.len() ==> !lex_lt(#[trigger] s[j], #[trigger] s[i])
}

pub open spec fn string_views(v: Seq<String>) -> Seq<Seq<char>> {
    v.map_values(|s: String| s@)
}

proof fn lemma_lex_irreflexive(a: Seq<char>)
    ensures
        !lex_lt(a, a),
    decreases a.len(),
{
    if a.len() > 0 {
        lemma_lex_irreflexive(a.drop_first());
    }
}

proof fn lemma_lex_transitive(a: Seq<char>, b: Seq<char>, c: Seq<char>)
    requires
        lex_lt(a, b),
        lex_lt(b, c),
    ensures
        lex_lt(a, c),
    decreases a.len(),
{
    if a.len() > 0 && b.len() > 0 && c.len() > 0 {
        if a[0] == b[0] && b[0] == c[0] {
            lemma_lex_transitive(a.drop_first(), b.drop_first(), c.drop_first());
        }
    }
}

proof fn lemma_lex_total(a: Seq<char>, b: Seq<char>)
    ensures
        lex_lt(a, b) || lex_lt(b, a) || a == b,
    decreases a.len(),
{
    if a.len() > 0 && b.len() > 0 {
        if a[0] == b[0] {
            lemma_lex_total(a.drop_first(), b.drop_first());
            if a.drop_first() == b.drop_first() {
                assert(a =~= seq![a[0]] + a.drop_first());
                assert(b =~= seq![b[0]] + b.drop_first());
            }
        }
    } else if a.len() == 0 && b.len() == 0 {
        assert(a =~= b);
    }
}

/// Whether `a` sorts before `b`, as `lex_lt` says.
pub fn str_lt(a: &str, b: &str) -> (r: bool)
    ensures
        r == lex_lt(a@, b@),
{
    let n = a.unicode_len();
    let m = b.unicode_len();
    let mut i: usize = 0;
    assert(a@.skip(0) =~= a@);
    assert(b@.skip(0) =~= b@);
    while i < n && i < m
        invariant
            n == a@.len(),
            m == b@.len(),
            i <= n,
            i <= m,
            forall|j: int| 0 <= j < i ==> a@[j] == b@[j],
            lex_lt(a@, b@) == lex_lt(a@.skip(i as int), b@.skip(i as int)),
        decreases n - i,
    {
        let x = a.get_char(i);
        let y = b.get_char(i);
        if x != y {
            assert(a@.skip(i as int)[0] == x);
            assert(b@.skip(i as int)[0] == y);
            return x < y;
        }
        assert(a@.skip(i as int).drop_first() =~= a@.skip(i + 1));
        assert(b@.skip(i as int).drop_first() =~= b@.skip(i + 1));
        i = i + 1;
    }
    i < m
}

/// Whether two byte strings are equal.
pub fn bytes_eq(a: &[u8], b: &[u8]) -> (r: bool)
    ensures
        r == (a@ == b@),
{
    if a.len() != b.len() {
        return false;
    }
    let mut i: usize = 0;
    while i < a.len()
        invariant
            a@.len() == b@.len(),
            i <= a@.len(),
            forall|j: int| 0 <= j < i ==> a@[j] == b@[j],
        decreases a@.len() - i,
    {
        if a[i] != b[i] {
            return false;
        }
        i = i + 1;
    }
    assert(a@ =~= b@);
    true
}

fn insert_sorted(out: &mut Vec<String>, x: String)
    requires
        is_sorted(string_views(old(out)@)),
    ensures
        is_sorted(string_views(final(out)@)),
        string_views(final(out)@).to_multiset() == string_views(old(out)@).to_multiset().insert(
            x@,
        ),
{
    let ghost before = string_views(out@);
    let mut k: usize = 0;
    let mut found = false;
    while k < out.len() && !found
        invariant
            k <= out@.len(),
            string_views(out@) == before,
            forall|i: int| 0 <= i < k ==> !lex_lt(x@, #[trigger] before[i]),
            found ==> k < out@.len() && lex_lt(x@, before[k as int]),
        decreases out@.len() - k + (if found { 0int } else { 1int }),
    {
        if str_lt(x.as_str(), out[k].as_str()) {
            found = true;
        } else {
            k = k + 1;
        }
    }
    let ghost xv = x@;
    out.insert(k, x);
    let ghost after = string_views(out@);
    assert(after =~= before.insert(k as int, xv));
    assert forall|i: int, j: int| 0 <= i < j < after.len() implies !lex_lt(
        #[trigger] after[j],
        #[trigger] after[i],
    ) by {
        if i < k && j < k {
        } else if i < k && j == k {
        } else if i < k && j > k {
            assert(after[j] == before[j - 1]);
            if lex_lt(before[j - 1], before[i]) {
            }
        } else if i == k {
            assert(after[j] == before[j - 1]);
            assert(k < before.len());
            if lex_lt(before[j - 1], xv) {
                if j - 1 == k {
                    lemma_lex_transitive(xv, before[k as int], xv);
                    lemma_lex_irreflexive(xv);
                } else {
                    lemma_lex_transitive(before[j - 1], xv, before[k as int]);
                }
            }
        } else {
            assert(after[i] == before[i - 1]);
            assert(after[j] == before[j - 1]);
        }
    }
    proof {
        vstd::seq_lib::to_multiset_insert(before, k as int, xv);
    }
}

/// The names of the saved profiles among the entries of the profile root:
/// the entries that are directories with a valid profile name and a regular
/// `auth.json` inside, in ascending order.
pub fn select_profiles(entries: &Vec<ProfileEntry>) -> (r: Vec<String>)
    ensures
        is_sorted(string_views(r@)),
        string_views(r@).to_multiset() == listed_names(entries@).to_multiset(),
{
    let mut out: Vec<String> = Vec::new();
    let mut i: usize = 0;
    assert(string_views(out@) =~= Seq::<Seq<char>>::empty());
    assert(entries@.take(0) =~= Seq::<ProfileEntry>::empty());
    while i < entries.len()
        invariant
            i <= entries@.len(),
            is_sorted(string_views(out@)),
            string_views(out@).to_multiset() == listed_names(entries@.take(i as int)).to_multiset(),
        decreases entries@.len() - i,
    {
        let e = &entries[i];
        assert(entries@.take(i + 1).drop_last() =~= entries@.take(i as int));
        assert(entries@.take(i + 1).last() == entries@[i as int]);
        if e.is_dir && validate_name(e.name.as_str()).is_ok() && e.has_auth_file {
            insert_sorted(&mut out, e.name.clone());
            assert(listed_names(entries@.take(i + 1)) == listed_names(entries@.take(i as int)).push(
                e.name@,
            ));
            proof {
                vstd::seq_lib::to_multiset_build(listed_names(entries@.take(i as int)), e.name@);
            }
        }
        i = i + 1;
    }
    assert(entries@.take(entries@.len() as int) =~= entries@);
    out
}

pub open spec fn opt_bytes(o: Option<Vec<u8>>) -> Option<Seq<u8>> {
    match o {
        Some(v) => Some(v@),
        None => None,
    }
}

/// The line of one profile: `*` before the name of the active profile (the
/// one whose credential bytes equal the active credential file's), a space
/// before the others.
pub open spec fn profile_line(name: Seq<char>, profile: Option<Seq<u8>>, active: Option<Seq<u8>>) -> Seq<
    char,
> {
    if active is Some && profile == active {
        "* "@ + name
    } else {
        "  "@ + name
    }
}

/// What `list` prints: one line per profile, or, when there is none, a line
/// that says so (nothing in plain mode).
pub open spec fn listing_spec(
    names: Seq<Seq<char>>,
    profiles: Seq<Option<Seq<u8>>>,
    active: Option<Seq<u8>>,
    plain: bool,
) -> Seq<Seq<char>> {
    if names.len() == 0 {
        if plain {
            Seq::empty()
        } else {
            seq!["No saved profiles."@]
        }
    } else {
        Seq::new(names.len(), |i: int| profile_line(names[i], profiles[i], active))
    }
}

/// The lines that `list` prints, given the sorted profile names, what each
/// profile's credential file holds (`None` where it could not be read) and
/// what the active credential file holds (`None` where it is not a readable
/// regular file).
pub fn listing_lines(
    names: &Vec<String>,
    profiles: &Vec<Option<Vec<u8>>>,
    active: &Option<Vec<u8>>,
    plain: bool,
) -> (r: Vec<String>)
    requires
        names@.len() == profiles@.len(),
    ensures
        string_views(r@) == listing_spec(
            string_views(names@),
            profiles@.map_values(|p: Option<Vec<u8>>| opt_bytes(p)),
            opt_bytes(*active),
            plain,
        ),
{
    let ghost pv = profiles@.map_values(|p: Option<Vec<u8>>| opt_bytes(p));
    let mut out: Vec<String> = Vec::new();
    if names.len() == 0 {
        if !plain {
            out.push(String::from_str("No saved profiles."));
        }
        assert(string_views(out@) =~= listing_spec(
            string_views(names@),
            pv,
            opt_bytes(*active),
            plain,
        ));
        return out;
    }
    let mut i: usize = 0;
    while i < names.len()
        invariant
            names@.len() == profiles@.len(),
            i <= names@.len(),
            pv == profiles@.map_values(|p: Option<Vec<u8>>| opt_bytes(p)),
            out@.len() == i,
            forall|j: int|
                0 <= j < i ==> #[trigger] out@[j]@ == profile_line(
                    names@[j]@,
                    pv[j],
                    opt_bytes(*active),
                ),
        decreases names@.len() - i,
    {
        let is_active = match (active, &profiles[i]) {
            (Some(a), Some(p)) => bytes_eq(a.as_slice(), p.as_slice()),
            _ => false,
        };
        let mut line = if is_active {
            String::from_str("* ")
        } else {
            String::from_str("  ")
        };
        line.append(names[i].as_str());
        out.push(line);
        i = i + 1;
    }
    assert(string_views(out@) =~= listing_spec(
        string_views(names@),
        pv,
        opt_bytes(*active),
        plain,
    ));
    out
}

/// Only directories with a valid profile name and a credential file are
/// listed, so every listed name is a valid profile name.
pub proof fn lemma_listed_names_are_valid(entries: Seq<ProfileEntry>)
    ensures
        forall|i: int|
            0 <= i < listed_names(entries).len() ==> is_valid_name(
                #[trigger] listed_names(entries)[i],
            ),
    decreases entries.len(),
{
    if entries.len() > 0 {
        lemma_listed_names_are_valid(entries.drop_last());
        let rest = listed_names(entries.drop_last());
        if is_listed(entries.last()) {
            assert forall|i: int| 0 <= i < rest.len() + 1 implies is_valid_name(
                #[trigger] rest.push(entries.last().name@)[i],
            ) by {
                if i < rest.len() {
                    assert(rest.push(entries.last().name@)[i] == rest[i]);
                }
            }
        }
    }
}

/// A profile's line begins with `*` exactly when its credential bytes and
/// the active credential file's bytes were both read and are equal in
/// full; otherwise it begins with a space. Either way the marker is
/// followed by a space and then the profile's name.
pub proof fn lemma_marker_iff_same_bytes(
    name: Seq<char>,
    profile: Option<Seq<u8>>,
    active: Option<Seq<u8>>,
)
    ensures
        profile_line(name, profile, active).len() == name.len() + 2,
        profile_line(name, profile, active)[0] == '*' <==> (profile matches Some(p) && active
            matches Some(a) && p == a),
        profile_line(name, profile, active)[0] == '*' || profile_line(name, profile, active)[0]
            == ' ',
        profile_line(name, profile, active)[1] == ' ',
        profile_line(name, profile, active).skip(2) == name,
{
    reveal_strlit("* ");
    reveal_strlit("  ");
    let line = profile_line(name, profile, active);
    assert(line.skip(2) =~= name);
}

/// In a listing, the line of profile `i` is marked `*` exactly when its
/// credential bytes equal the active file's in full, so two profiles whose
/// bytes differ are never both marked.
pub proof fn lemma_listing_marks_equal_bytes(
    names: Seq<Seq<char>>,
    profiles: Seq<Option<Seq<u8>>>,
    active: Option<Seq<u8>>,
    plain: bool,
)
    requires
        names.len() > 0,
        profiles.len() == names.len(),
    ensures
        listing_spec(names, profiles, active, plain).len() == names.len(),
        forall|i: int|
            0 <= i < names.len() ==> (#[trigger] listing_spec(names, profiles, active, plain)[i][0]
                == '*' <==> (profiles[i] matches Some(p) && active matches Some(a) && p == a)),
        forall|i: int, j: int|
            0 <= i < names.len() && 0 <= j < names.len() && #[trigger] listing_spec(
                names,
                profiles,
                active,
                plain,
            )[i][0] == '*' && #[trigger] listing_spec(names, profiles, active, plain)[j][0] == '*'
                ==> profiles[i] == profiles[j],
{
    assert forall|i: int| 0 <= i < names.len() implies (#[trigger] listing_spec(
        names,
        profiles,
        active,
        plain,
    )[i][0] == '*' <==> (profiles[i] matches Some(p) && active matches Some(a) && p == a)) by {
        lemma_marker_iff_same_bytes(names[i], profiles[i], active);
    }
}

/// Names sort by their first differing character: whatever they share
/// before it and whatever follows it, the name with the smaller character
/// there sorts first.
pub proof fn lemma_order_at_first_difference(
    p: Seq<char>,
    x: char,
    y: char,
    s: Seq<char>,
    t: Seq<char>,
)
    requires
        x != y,
    ensures
        lex_lt(p + seq![x] + s, p + seq![y] + t) <==> x < y,
    decreases p.len(),
{
    let a = p + seq![x] + s;
    let b = p + seq![y] + t;
    if p.len() == 0 {
        assert(a[0] == x);
        assert(b[0] == y);
    } else {
        assert(a[0] == p[0]);
        assert(b[0] == p[0]);
        assert(a.drop_first() =~= p.drop_first() + seq![x] + s);
        assert(b.drop_first() =~= p.drop_first() + seq![y] + t);
        lemma_order_at_first_difference(p.drop_first(), x, y, s, t);
    }
}

/// A name sorts before every longer name that begins with it.
pub proof fn lemma_prefix_sorts_first(a: Seq<char>, b: Seq<char>)
    requires
        b.len() > 0,
    ensures
        lex_lt(a, a + b),
        !lex_lt(a + b, a),
    decreases a.len(),
{
    let c = a + b;
    if a.len() > 0 {
        assert(c[0] == a[0]);
        assert(c.drop_first() =~= a.drop_first() + b);
        lemma_prefix_sorts_first(a.drop_first(), b);
    }
}

/// A name is listed exactly when some entry with that name is a directory
/// with a valid profile name and a credential file inside.
pub proof fn lemma_listed_exactly(entries: Seq<ProfileEntry>, n: Seq<char>)
    ensures
        listed_names(entries).contains(n) <==> exists|i: int|
            0 <= i < entries.len() && (#[trigger] entries[i]).is_dir && is_valid_name(
                entries[i].name@,
            ) && entries[i].has_auth_file && entries[i].name@ == n,
    decreases entries.len(),
{
    if entries.len() > 0 {
        let init = entries.drop_last();
        let last = entries.last();
        lemma_listed_exactly(init, n);
        let rest = listed_names(init);
        if is_listed(last) {
            assert(listed_names(entries) == rest.push(last.name@));
            if rest.push(last.name@).contains(n) {
                let k = choose|k: int| 0 <= k < rest.push(last.name@).len() && rest.push(
                    last.name@,
                )[k] == n;
                if k < rest.len() {
                    assert(rest.contains(n)) by {
                        assert(rest[k] == n);
                    }
                    let i = choose|i: int|
                        0 <= i < init.len() && (#[trigger] init[i]).is_dir && is_valid_name(
                            init[i].name@,
                        ) && init[i].has_auth_file && init[i].name@ == n;
                    assert(entries[i] == init[i]);
                } else {
                    assert(entries[entries.len() - 1] == last);
                }
            }
            if exists|i: int|
                0 <= i < entries.len() && (#[trigger] entries[i]).is_dir && is_valid_name(
                    entries[i].name@,
                ) && entries[i].has_auth_file && entries[i].name@ == n {
                let i = choose|i: int|
                    0 <= i < entries.len() && (#[trigger] entries[i]).is_dir && is_valid_name(
                        entries[i].name@,
                    ) && entries[i].has_auth_file && entries[i].name@ == n;
                if i < init.len() {
                    assert(init[i] == entries[i]);
                    assert(rest.contains(n));
                    let k = choose|k: int| 0 <= k < rest.len() && rest[k] == n;
                    assert(rest.push(last.name@)[k] == n);
                } else {
                    assert(rest.push(last.name@)[rest.len() as int] == n);
                }
            }
        } else {
            assert(listed_names(entries) == rest);
            if exists|i: int|
                0 <= i < entries.len() && (#[trigger] entries[i]).is_dir && is_valid_name(
                    entries[i].name@,
                ) && entries[i].has_auth_file && entries[i].name@ == n {
                let i = choose|i: int|
                    0 <= i < entries.len() && (#[trigger] entries[i]).is_dir && is_valid_name(
                        entries[i].name@,
                    ) && entries[i].has_auth_file && entries[i].name@ == n;
                if i == entries.len() - 1 {
                    assert(entries[i] == last);
                } else {
                    assert(init[i] == entries[i]);
                }
            }
            if rest.contains(n) {
                let i = choose|i: int|
                    0 <= i < init.len() && (#[trigger] init[i]).is_dir && is_valid_name(
                        init[i].name@,
                    ) && init[i].has_auth_file && init[i].name@ == n;
                assert(entries[i] == init[i]);
            }
        }
    }
}

} // verus!
