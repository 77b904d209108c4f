//! What the allowlists guarantee of records tagged with a `dependency=`
//! field: a record rendered with a message and plain fields is delivered
//! where an allowlist entry occurs in its dependency's name.
use vstd::prelude::*;

use crate::logging::allowlist::{
    allows_delivery, always_admits, equals_field_values, field_value_of, field_values, kv_tail,
    lemma_split_nonempty,
};
use crate::logging::payload::{host_payload, payload_body, target_label};
use crate::text::{
    contains_seq, is_prefix, is_white_space, join, last_index_of, split_on, trim, trim_char,
    trim_start,
};

verus! {

/// A field as a record renders it plainly: not empty, no white space at
/// either end, and neither `|` nor `,` inside.
pub open spec fn plain_field(f: Seq<char>) -> bool {
    &&& f.len() > 0
    &&& !is_white_space(f[0])
    &&& !is_white_space(f.last())
    &&& !f.contains('|')
    &&& !f.contains(',')
}

/// Adding characters without `c` after `a` leaves the last `c` where it was.
proof fn lemma_last_index_append(a: Seq<char>, b: Seq<char>, c: char)
    requires
        !b.contains(c),
    ensures
        last_index_of(a + b, c) == last_index_of(a, c),
    decreases b.len(),
{
    if b.len() > 0 {
        assert((a + b).drop_last() =~= a + b.drop_last());
        assert((a + b).last() == b.last());
        assert(b.last() == b[b.len() - 1]);
        assert(!b.drop_last().contains(c)) by {
            if b.drop_last().contains(c) {
                let i = choose|i: int| 0 <= i < b.drop_last().len() && b.drop_last()[i] == c;
                assert(b[i] == c);
            }
        }
        lemma_last_index_append(a, b.drop_last(), c);
    } else {
        assert(a + b =~= a);
    }
}

/// Splitting `x`, the separator, then `y` gives the pieces of `x` followed
/// by the pieces of `y`.
proof fn lemma_split_concat(x: Seq<char>, y: Seq<char>, sep: char)
    ensures
        split_on(x + seq![sep] + y, sep) == split_on(x, sep) + split_on(y, sep),
    decreases y.len(),
{
    let s = x + seq![sep] + y;
    if y.len() == 0 {
        assert(s.drop_last() =~= x);
        assert(s.last() == sep);
        assert(split_on(y, sep) =~= seq![Seq::<char>::empty()]);
        assert(split_on(s, sep) =~= split_on(x, sep) + split_on(y, sep));
    } else {
        assert(s.drop_last() =~= x + seq![sep] + y.drop_last());
        assert(s.last() == y.last());
        lemma_split_concat(x, y.drop_last(), sep);
        lemma_split_nonempty(y.drop_last(), sep);
        lemma_split_nonempty(x, sep);
        let sx = split_on(x, sep);
        let sy = split_on(y.drop_last(), sep);
        if y.last() == sep {
            assert(split_on(s, sep) =~= (sx + sy).push(Seq::<char>::empty()));
            assert(split_on(y, sep) =~= sy.push(Seq::<char>::empty()));
            assert(split_on(s, sep) =~= sx + split_on(y, sep));
        } else {
            let whole = sx + sy;
            assert(whole.last() == sy.last());
            assert(split_on(s, sep) == whole.update(whole.len() - 1, whole.last().push(y.last())));
            assert(split_on(y, sep) == sy.update(sy.len() - 1, sy.last().push(y.last())));
            assert(whole.update(whole.len() - 1, whole.last().push(y.last())) =~= sx + sy.update(
                sy.len() - 1,
                sy.last().push(y.last()),
            ));
        }
    }
}

/// A string without the separator is one piece.
proof fn lemma_split_single(s: Seq<char>, sep: char)
    requires
        !s.contains(sep),
    ensures
        split_on(s, sep) == seq![s],
    decreases s.len(),
{
    if s.len() > 0 {
        assert(!s.drop_last().contains(sep)) by {
            if s.drop_last().contains(sep) {
                let i = choose|i: int| 0 <= i < s.drop_last().len() && s.drop_last()[i] == sep;
                assert(s[i] == sep);
            }
        }
        lemma_split_single(s.drop_last(), sep);
        assert(s.last() == s[s.len() - 1]);
        assert(s.drop_last().push(s.last()) =~= s);
        assert(seq![s.drop_last()].update(0, s.drop_last().push(s.last())) =~= seq![s]);
    } else {
        assert(s =~= Seq::<char>::empty());
    }
}

/// The pieces that joining plain fields with `, ` and splitting at `,`
/// gives: the first field, then each later field after one space.
pub open spec fn joined_pieces(fields: Seq<Seq<char>>) -> Seq<Seq<char>> {
    Seq::new(fields.len(), |i: int| if i == 0 { fields[i] } else { seq![' '] + fields[i] })
}

/// Joining with `, ` puts a comma and a space before the last piece.
proof fn lemma_join_last(fields: Seq<Seq<char>>)
    requires
        fields.len() > 1,
    ensures
        join(fields, ", "@) == join(fields.drop_last(), ", "@) + seq![','] + (seq![' '] + fields.last()),
{
    reveal_strlit(", ");
    assert(join(fields, ", "@) =~= join(fields.drop_last(), ", "@) + seq![','] + (seq![' '] + fields.last()));
}

/// A field without a comma keeps none after one space is put before it.
proof fn lemma_spaced_no_comma(f: Seq<char>)
    requires
        !f.contains(','),
    ensures
        !(seq![' '] + f).contains(','),
{
    let rest = seq![' '] + f;
    if rest.contains(',') {
        let i = choose|i: int| 0 <= i < rest.len() && rest[i] == ',';
        assert(i > 0);
        assert(f[i - 1] == ',');
    }
}

/// The pieces of all fields are those of all but the last, then the last.
proof fn lemma_joined_pieces_push(fields: Seq<Seq<char>>)
    requires
        fields.len() > 1,
    ensures
        joined_pieces(fields) == joined_pieces(fields.drop_last()) + seq![seq![' '] + fields.last()],
{
    assert(joined_pieces(fields) =~= joined_pieces(fields.drop_last()) + seq![seq![' '] + fields.last()]);
}

/// Splitting the `, `-joined fields at `,` gives back each field (after one
/// space, but for the first).
proof fn lemma_split_joined(fields: Seq<Seq<char>>)
    requires
        fields.len() > 0,
        forall|i: int| 0 <= i < fields.len() ==> !(#[trigger] fields[i]).contains(','),
    ensures
        split_on(join(fields, ", "@), ',') == joined_pieces(fields),
    decreases fields.len(),
{
    if fields.len() == 1 {
        lemma_split_single(fields[0], ',');
        assert(joined_pieces(fields) =~= seq![fields[0]]);
    } else {
        let init = fields.drop_last();
        assert(forall|i: int| 0 <= i < init.len() ==> #[trigger] init[i] == fields[i]);
        lemma_split_joined(init);
        let rest = seq![' '] + fields.last();
        lemma_join_last(fields);
        assert(fields.last() == fields[fields.len() - 1]);
        lemma_spaced_no_comma(fields.last());
        lemma_split_concat(join(init, ", "@), rest, ',');
        lemma_split_single(rest, ',');
        lemma_joined_pieces_push(fields);
    }
}

/// A plain field, with or without one space before it, trims to itself.
proof fn lemma_trim_plain(f: Seq<char>)
    requires
        f.len() > 0,
        !is_white_space(f[0]),
        !is_white_space(f.last()),
    ensures
        trim(f) == f,
        trim(seq![' '] + f) == f,
{
    assert((seq![' '] + f).drop_first() =~= f);
    assert(is_white_space(' '));
    assert(trim_start(seq![' '] + f) == trim_start(f));
}

/// The value a piece gives for `key` is among the values of all pieces.
proof fn lemma_field_values_has(pieces: Seq<Seq<char>>, key: Seq<char>, k: int, v: Seq<char>)
    requires
        0 <= k < pieces.len(),
        field_value_of(pieces[k], key) == Some(v),
    ensures
        field_values(pieces, key).contains(v),
    decreases pieces.len(),
{
    let init = pieces.drop_last();
    let prev = field_values(init, key);
    if k == pieces.len() - 1 {
        assert(pieces.last() == pieces[k]);
        assert(field_values(pieces, key) == prev.push(v));
        assert(prev.push(v)[prev.len() as int] == v);
    } else {
        assert(init[k] == pieces[k]);
        lemma_field_values_has(init, key, k, v);
        let j = choose|j: int| 0 <= j < prev.len() && prev[j] == v;
        match field_value_of(pieces.last(), key) {
            Some(w) => {
                assert(field_values(pieces, key) == prev.push(w));
                assert(prev.push(w)[j] == v);
            },
            None => {},
        }
    }
}

/// The values that the field tail of a record rendered with a message and
/// plain fields gives for `key` include the (trimmed, unquoted) value of a
/// field made of `key` and `value`.
proof fn lemma_tagged_value_found(
    target: Seq<char>,
    message: Seq<char>,
    fields: Seq<Seq<char>>,
    k: int,
    key: Seq<char>,
    value: Seq<char>,
)
    requires
        message.len() > 0,
        forall|i: int| 0 <= i < fields.len() ==> plain_field(#[trigger] fields[i]),
        0 <= k < fields.len(),
        fields[k] == key + value,
    ensures
        equals_field_values(kv_tail(host_payload(target, payload_body(Some(message), fields))), key).contains(
            trim_char(trim(value), '"'),
        ),
{
    let j = join(fields, ", "@);
    assert(forall|i: int| 0 <= i < fields.len() ==> !(#[trigger] fields[i]).contains(','));
    lemma_split_joined(fields);
    lemma_join_plain(fields);
    assert(payload_body(Some(message), fields) == message + " | "@ + j);
    let body = message + " | "@ + j;
    let head = "["@ + target_label(target) + "] "@ + message + " |"@;
    let after = seq![' '] + j;
    assert(host_payload(target, body) =~= head + after) by {
        assert(" | "@ =~= " |"@ + seq![' ']) by {
            reveal_strlit(" | ");
            reveal_strlit(" |");
        }
    }
    assert(!after.contains('|')) by {
        if after.contains('|') {
            let i = choose|i: int| 0 <= i < after.len() && after[i] == '|';
            assert(i > 0);
            assert(j[i - 1] == '|');
        }
    }
    lemma_last_index_append(head, after, '|');
    assert(head.last() == '|') by {
        reveal_strlit(" |");
        assert(head.last() == " |"@.last());
    }
    assert(head == head.drop_last().push(head.last()));
    assert(last_index_of(head, '|') == head.len() - 1);
    let payload = host_payload(target, body);
    assert(payload.subrange(head.len() as int, payload.len() as int) =~= after);
    lemma_trim_plain(j);
    assert(kv_tail(payload) == j);
    let pieces = joined_pieces(fields);
    lemma_trim_plain(fields[k]);
    assert(trim(pieces[k]) == fields[k]);
    assert(is_prefix(key, fields[k])) by {
        assert(fields[k].subrange(0, key.len() as int) =~= key);
    }
    assert(fields[k].subrange(key.len() as int, fields[k].len() as int) =~= value);
    lemma_field_values_has(pieces, key, k, trim_char(trim(value), '"'));
}

/// A record of an `arena_` target that is not always admitted, rendered
/// with a message and plain fields one of which is `dependency=` followed by
/// a name, is delivered where some entry of the dependency allowlist occurs
/// in that name (once trimmed and unquoted), whatever the component
/// allowlist holds.
pub proof fn lemma_tagged_dependency_record_delivered(
    target: Seq<char>,
    message: Seq<char>,
    fields: Seq<Seq<char>>,
    k: int,
    name: Seq<char>,
    dependency_allowlist: Seq<Seq<char>>,
    component_allowlist: Seq<Seq<char>>,
    n: int,
)
    requires
        is_prefix("arena_"@, target),
        !always_admits(target),
        message.len() > 0,
        forall|i: int| 0 <= i < fields.len() ==> plain_field(#[trigger] fields[i]),
        0 <= k < fields.len(),
        fields[k] == "dependency="@ + name,
        0 <= n < dependency_allowlist.len(),
        contains_seq(trim_char(trim(name), '"'), dependency_allowlist[n]),
    ensures
        allows_delivery(
            target,
            host_payload(target, payload_body(Some(message), fields)),
            dependency_allowlist,
            component_allowlist,
        ),
{
    lemma_tagged_value_found(target, message, fields, k, "dependency="@, name);
    let deps = equals_field_values(
        kv_tail(host_payload(target, payload_body(Some(message), fields))),
        "dependency="@,
    );
    let at = choose|at: int| 0 <= at < deps.len() && deps[at] == trim_char(trim(name), '"');
    assert(contains_seq(deps[at], dependency_allowlist[n]));
}

/// The same for components: a record tagged `component=` with a name in
/// which some entry of the component allowlist occurs is delivered,
/// whatever the dependency allowlist holds.
pub proof fn lemma_tagged_component_record_delivered(
    target: Seq<char>,
    message: Seq<char>,
    fields: Seq<Seq<char>>,
    k: int,
    name: Seq<char>,
    dependency_allowlist: Seq<Seq<char>>,
    component_allowlist: Seq<Seq<char>>,
    n: int,
)
    requires
        is_prefix("arena_"@, target),
        !always_admits(target),
        message.len() > 0,
        forall|i: int| 0 <= i < fields.len() ==> plain_field(#[trigger] fields[i]),
        0 <= k < fields.len(),
        fields[k] == "component="@ + name,
        0 <= n < component_allowlist.len(),
        contains_seq(trim_char(trim(name), '"'), component_allowlist[n]),
    ensures
        allows_delivery(
            target,
            host_payload(target, payload_body(Some(message), fields)),
            dependency_allowlist,
            component_allowlist,
        ),
{
    lemma_tagged_value_found(target, message, fields, k, "component="@, name);
    let comps = equals_field_values(
        kv_tail(host_payload(target, payload_body(Some(message), fields))),
        "component="@,
    );
    let at = choose|at: int| 0 <= at < comps.len() && comps[at] == trim_char(trim(name), '"');
    assert(contains_seq(comps[at], component_allowlist[n]));
}

/// Plain fields joined with `, `: not empty, no `|`, no white space at either end.
proof fn lemma_join_plain(fields: Seq<Seq<char>>)
    requires
        fields.len() > 0,
        forall|i: int| 0 <= i < fields.len() ==> plain_field(#[trigger] fields[i]),
    ensures
        join(fields, ", "@).len() > 0,
        !join(fields, ", "@).contains('|'),
        !is_white_space(join(fields, ", "@)[0]),
        !is_white_space(join(fields, ", "@).last()),
    decreases fields.len(),
{
    let j = join(fields, ", "@);
    if fields.len() == 1 {
        assert(plain_field(fields[0]));
    } else {
        let init = fields.drop_last();
        assert(forall|i: int| 0 <= i < init.len() ==> #[trigger] init[i] == fields[i]);
        lemma_join_plain(init);
        let last = fields.last();
        assert(plain_field(fields[fields.len() - 1]));
        let ji = join(init, ", "@);
        assert(j == ji + ", "@ + last);
        reveal_strlit(", ");
        assert(j[0] == ji[0]);
        assert(j.last() == last.last());
        assert(!j.contains('|')) by {
            if j.contains('|') {
                let i = choose|i: int| 0 <= i < j.len() && j[i] == '|';
                if i < ji.len() {
                    assert(ji[i] == '|');
                } else if i < ji.len() + 2 {
                    assert(j[i] == ", "@[i - ji.len()]);
                } else {
                    assert(last[i - ji.len() - 2] == '|');
                }
            }
        }
    }
}

} // verus!
