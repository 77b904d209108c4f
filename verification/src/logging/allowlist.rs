//! Which dispatched log records reach the host: the dependency and component
//! allowlists, and the `key=value` tail of a structured payload.
use vstd::prelude::*;
use vstd::string::*;

use crate::text::{
    chars_of, contains, contains_seq, is_prefix, last_index_of, last_index_of_char, range_starts_with,
    split_on, starts_with, str_eq, string_of, string_views, trim, trim_char, trim_char_range, trim_range,
    trim_str,
};

verus! {

/// The character views of a sequence of string slices.
pub open spec fn str_views(v: Seq<&str>) -> Seq<Seq<char>> {
    Seq::new(v.len(), |i: int| v[i]@)
}

/// The structured field tail of a payload: what follows the last `|`, trimmed;
/// empty where the payload has no `|`.
pub open spec fn kv_tail(payload: Seq<char>) -> Seq<char> {
    let i = last_index_of(payload, '|');
    if i >= 0 {
        trim(payload.subrange(i + 1, payload.len() as int))
    } else {
        Seq::<char>::empty()
    }
}

/// The value that one comma-separated piece gives for `key`: the piece is
/// trimmed, must start with `key`, and the rest is trimmed and stripped of
/// surrounding double quotes.
pub open spec fn field_value_of(piece: Seq<char>, key: Seq<char>) -> Option<Seq<char>> {
    let p = trim(piece);
    if is_prefix(key, p) {
        Some(trim_char(trim(p.subrange(key.len() as int, p.len() as int)), '"'))
    } else {
        None
    }
}

/// The values that the pieces give for `key`, in order.
pub open spec fn field_values(pieces: Seq<Seq<char>>, key: Seq<char>) -> Seq<Seq<char>>
    decreases pieces.len(),
{
    if pieces.len() == 0 {
        Seq::<Seq<char>>::empty()
    } else {
        let init = field_values(pieces.drop_last(), key);
        match field_value_of(pieces.last(), key) {
            Some(v) => init.push(v),
            None => init,
        }
    }
}

/// The values that the comma-separated pieces of `tail` give for `key`.
pub open spec fn equals_field_values(tail: Seq<char>, key: Seq<char>) -> Seq<Seq<char>> {
    field_values(split_on(tail, ','), key)
}

/// Some needle occurs in some value.
pub open spec fn needles_hit(needles: Seq<Seq<char>>, vals: Seq<Seq<char>>) -> bool {
    exists|i: int, j: int|
        0 <= i < needles.len() && 0 <= j < vals.len() && #[trigger] contains_seq(
            vals[j],
            needles[i],
        )
}

/// Targets that pass whatever the allowlists hold.
pub open spec fn always_admits(target: Seq<char>) -> bool {
    ||| is_prefix("arena::"@, target)
    ||| is_prefix("arena_container::"@, target)
    ||| is_prefix("arena_ffi::"@, target)
    ||| target == "ffi_logging_test"@
    ||| is_prefix("ffi_logging_test::"@, target)
}

/// The delivery rule: records from targets outside the `arena_` family pass;
/// records from `arena_*` targets pass only where their payload names a
/// dependency or a component that the corresponding allowlist admits.
pub open spec fn allows_delivery(
    target: Seq<char>,
    payload: Seq<char>,
    dependency_allowlist: Seq<Seq<char>>,
    component_allowlist: Seq<Seq<char>>,
) -> bool {
    if always_admits(target) {
        true
    } else if !is_prefix("arena_"@, target) {
        true
    } else {
        let tail = kv_tail(payload);
        let deps = equals_field_values(tail, "dependency="@);
        let comps = equals_field_values(tail, "component="@);
        ||| (deps.len() > 0 && dependency_allowlist.len() > 0 && needles_hit(
            dependency_allowlist,
            deps,
        ))
        ||| (comps.len() > 0 && component_allowlist.len() > 0 && needles_hit(
            component_allowlist,
            comps,
        ))
    }
}

/// The entries of a parsed allowlist, trimmed, with the empty ones left out.
pub open spec fn nonempty_trimmed(entries: Seq<Seq<char>>) -> Seq<Seq<char>>
    decreases entries.len(),
{
    if entries.len() == 0 {
        Seq::<Seq<char>>::empty()
    } else {
        let init = nonempty_trimmed(entries.drop_last());
        let t = trim(entries.last());
        if t.len() > 0 {
            init.push(t)
        } else {
            init
        }
    }
}

/// What `serde_json` reads from `bytes` as a JSON array of strings, where it
/// reads one.
pub uninterp spec fn json_string_array(bytes: Seq<u8>) -> Option<Seq<Seq<char>>>;

/// The allowlist that a JSON document sets: its strings, trimmed, without the
/// empty ones; no entry where the document is not an array of strings.
pub open spec fn allowlist_from_json(bytes: Seq<u8>) -> Seq<Seq<char>> {
    match json_string_array(bytes) {
        Some(entries) => nonempty_trimmed(entries),
        None => Seq::<Seq<char>>::empty(),
    }
}

/// Reads `bytes` as a JSON array of strings with `serde_json::from_slice`.
/// Claims that the result is present exactly where the named reading
/// `json_string_array` is, and then holds those strings.
#[verifier::external_body]
fn parse_json_string_array(bytes: &[u8]) -> (r: Option<Vec<String>>)
    ensures
        r is Some <==> json_string_array(bytes@) is Some,
        r matches Some(v) ==> string_views(v@) == json_string_array(bytes@)->0,
{
    serde_json::from_slice::<Vec<String>>(bytes).ok()
}

/// The allowlist that a JSON document sets (an unreadable document sets an
/// empty one).
pub fn dispatcher_allow_json_bytes_store(bytes: &[u8]) -> (r: Vec<String>)
    ensures
        string_views(r@) == allowlist_from_json(bytes@),
{
    let parsed = parse_json_string_array(bytes);
    let mut out: Vec<String> = Vec::new();
    match parsed {
        None => {
            assert(string_views(out@) =~= Seq::<Seq<char>>::empty());
            out
        },
        Some(entries) => {
            let ghost all = string_views(entries@);
            let mut i: usize = 0;
            while i < entries.len()
                invariant
                    i <= entries@.len(),
                    all == string_views(entries@),
                    string_views(out@) == nonempty_trimmed(all.subrange(0, i as int)),
                decreases entries@.len() - i,
            {
                let t = trim_str(entries[i].as_str());
                let ghost before = string_views(out@);
                proof {
                    assert(all.subrange(0, i + 1).drop_last() =~= all.subrange(0, i as int));
                    assert(all.subrange(0, i + 1).last() == entries@[i as int]@);
                }
                if t.unicode_len() > 0 {
                    out.push(string_of(t));
                    assert(string_views(out@) =~= before.push(t@));
                }
                i = i + 1;
            }
            assert(all.subrange(0, entries@.len() as int) =~= all);
            out
        },
    }
}

/// The structured field tail of `payload`.
pub fn dispatcher_field_kv_tail(payload: &str) -> (r: &str)
    ensures
        r@ == kv_tail(payload@),
{
    let cs = chars_of(payload);
    let n = cs.len();
    let found = last_index_of_char(&cs, '|');
    match found {
        Some(i) => {
            assert(i < cs@.len());
            let (a, b) = trim_range(&cs, i + 1, n);
            payload.substring_char(a, b)
        },
        None => {
            let e = payload.substring_char(0, 0);
            assert(e@ =~= Seq::<char>::empty());
            e
        },
    }
}

/// `split_on` always yields at least one piece.
pub proof fn lemma_split_nonempty(s: Seq<char>, sep: char)
    ensures
        split_on(s, sep).len() >= 1,
    decreases s.len(),
{
    if s.len() > 0 {
        lemma_split_nonempty(s.drop_last(), sep);
    }
}

/// The bounds of the value that `chars[lo..hi]` gives for `key`.
fn field_value_in_range(chars: &Vec<char>, lo: usize, hi: usize, key: &Vec<char>) -> (r: Option<
    (usize, usize),
>)
    requires
        lo <= hi <= chars@.len(),
    ensures
        r is Some <==> field_value_of(chars@.subrange(lo as int, hi as int), key@) is Some,
        r matches Some(b) ==> lo <= b.0 <= b.1 <= hi && chars@.subrange(b.0 as int, b.1 as int)
            == field_value_of(chars@.subrange(lo as int, hi as int), key@)->0,
{
    let (a, b) = trim_range(chars, lo, hi);
    if !range_starts_with(chars, a, b, key) {
        return None;
    }
    let ghost p = chars@.subrange(a as int, b as int);
    let k = key.len();
    assert(p.subrange(k as int, p.len() as int) =~= chars@.subrange(a + k, b as int));
    let (c, d) = trim_range(chars, a + k, b);
    let (e, f) = trim_char_range(chars, c, d, '"');
    Some((e, f))
}

/// The values that the comma-separated pieces of `tail` give for `key_eq`.
pub fn collect_equals_field_values<'a>(tail: &'a str, key_eq: &str) -> (r: Vec<&'a str>)
    ensures
        str_views(r@) == equals_field_values(tail@, key_eq@),
{
    let cs = chars_of(tail);
    let ks = chars_of(key_eq);
    let ghost s = tail@;
    let n = cs.len();
    let mut out: Vec<&'a str> = Vec::new();
    let mut start: usize = 0;
    let mut i: usize = 0;
    proof {
        assert(s.subrange(0, 0) =~= Seq::<char>::empty());
        assert(split_on(s.subrange(0, 0), ',').drop_last() =~= Seq::<Seq<char>>::empty());
        assert(str_views(out@) =~= Seq::<Seq<char>>::empty());
    }
    while i < n
        invariant
            cs@ == s,
            s == tail@,
            ks@ == key_eq@,
            n == s.len(),
            start <= i <= n,
            split_on(s.subrange(0, i as int), ',').len() >= 1,
            split_on(s.subrange(0, i as int), ',').last() == s.subrange(start as int, i as int),
            str_views(out@) == field_values(
                split_on(s.subrange(0, i as int), ',').drop_last(),
                key_eq@,
            ),
        decreases n - i,
    {
        let ghost prev = split_on(s.subrange(0, i as int), ',');
        let ghost views_before = str_views(out@);
        proof {
            assert(s.subrange(0, i + 1).drop_last() =~= s.subrange(0, i as int));
            assert(s.subrange(0, i + 1).last() == s[i as int]);
        }
        if cs[i] == ',' {
            let v = field_value_in_range(&cs, start, i, &ks);
            match v {
                Some((e, f)) => {
                    let piece = tail.substring_char(e, f);
                    out.push(piece);
                    assert(str_views(out@) =~= views_before.push(piece@));
                },
                None => {
                    assert(str_views(out@) =~= views_before);
                },
            }
            proof {
                let next = split_on(s.subrange(0, i + 1), ',');
                assert(next == prev.push(Seq::<char>::empty()));
                assert(next.drop_last() =~= prev);
                assert(prev =~= prev.drop_last().push(prev.last()));
                assert(s.subrange(i + 1, i + 1) =~= Seq::<char>::empty());
            }
            start = i + 1;
        } else {
            proof {
                let next = split_on(s.subrange(0, i + 1), ',');
                assert(next == prev.update(prev.len() - 1, prev.last().push(s[i as int])));
                assert(next.drop_last() =~= prev.drop_last());
                assert(next.last() =~= s.subrange(start as int, i + 1));
            }
        }
        i = i + 1;
    }
    proof {
        assert(s.subrange(0, n as int) =~= s);
    }
    let ghost prev = split_on(s, ',');
    let ghost views_before = str_views(out@);
    let v = field_value_in_range(&cs, start, n, &ks);
    match v {
        Some((e, f)) => {
            let piece = tail.substring_char(e, f);
            out.push(piece);
            assert(str_views(out@) =~= views_before.push(piece@));
        },
        None => {
            assert(str_views(out@) =~= views_before);
        },
    }
    proof {
        assert(prev =~= prev.drop_last().push(prev.last()));
    }
    out
}

/// Whether the target passes whatever the allowlists hold.
pub fn dispatcher_allowlist_always_admits(metadata_target: &str) -> (r: bool)
    ensures
        r == always_admits(metadata_target@),
{
    starts_with(metadata_target, "arena::") || starts_with(metadata_target, "arena_container::")
        || starts_with(metadata_target, "arena_ffi::") || str_eq(
        metadata_target,
        "ffi_logging_test",
    ) || starts_with(metadata_target, "ffi_logging_test::")
}

/// Whether some needle occurs in some value.
pub fn allowlist_needles_hit_values(needles: &[String], vals: &[&str]) -> (r: bool)
    ensures
        r == needles_hit(string_views(needles@), str_views(vals@)),
{
    let ghost ns = string_views(needles@);
    let ghost vs = str_views(vals@);
    let mut i: usize = 0;
    while i < needles.len()
        invariant
            i <= needles@.len(),
            ns == string_views(needles@),
            vs == str_views(vals@),
            forall|a: int, b: int|
                0 <= a < i && 0 <= b < vs.len() ==> !#[trigger] contains_seq(vs[b], ns[a]),
        decreases needles@.len() - i,
    {
        let mut j: usize = 0;
        while j < vals.len()
            invariant
                i < needles@.len(),
                j <= vals@.len(),
                ns == string_views(needles@),
                vs == str_views(vals@),
                forall|a: int, b: int|
                    0 <= a < i && 0 <= b < vs.len() ==> !#[trigger] contains_seq(vs[b], ns[a]),
                forall|b: int| 0 <= b < j ==> !#[trigger] contains_seq(vs[b], ns[i as int]),
            decreases vals@.len() - j,
        {
            if contains(vals[j], needles[i].as_str()) {
                assert(contains_seq(vs[j as int], ns[i as int]));
                return true;
            }
            j = j + 1;
        }
        i = i + 1;
    }
    false
}

/// Whether a record from `metadata_target` with `payload` reaches the host,
/// given the dependency and component allowlists.
pub fn dispatcher_impl_allowlists_allows_delivery(
    metadata_target: &str,
    payload: &str,
    dependency_allowlist: &[String],
    component_allowlist: &[String],
) -> (r: bool)
    ensures
        r == allows_delivery(
            metadata_target@,
            payload@,
            string_views(dependency_allowlist@),
            string_views(component_allowlist@),
        ),
{
    if dispatcher_allowlist_always_admits(metadata_target) {
        return true;
    }
    if !starts_with(metadata_target, "arena_") {
        return true;
    }
    let tail = dispatcher_field_kv_tail(payload);
    let deps = collect_equals_field_values(tail, "dependency=");
    let comps = collect_equals_field_values(tail, "component=");
    if deps.len() == 0 && comps.len() == 0 {
        return false;
    }
    let dep_hit = deps.len() > 0 && dependency_allowlist.len() > 0
        && allowlist_needles_hit_values(dependency_allowlist, deps.as_slice());
    let comp_hit = comps.len() > 0 && component_allowlist.len() > 0
        && allowlist_needles_hit_values(component_allowlist, comps.as_slice());
    dep_hit || comp_hit
}

} // verus!
