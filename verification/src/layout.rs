//! The layout order of a struct's fields: its fields stably sorted by their
//! byte offsets, which is the order the runtime schema lists them in.
use vstd::prelude::*;
use crate::schema::FieldKind;

verus! {

/// Inserts `field` into `sorted` after every trailing field whose offset is
/// greater than its own, as one step of a stable insertion sort.
pub open spec fn insert_by_offset(
    sorted: Seq<(String, usize, FieldKind)>,
    field: (String, usize, FieldKind),
) -> Seq<(String, usize, FieldKind)>
    decreases sorted.len(),
{
    if sorted.len() == 0 {
        seq![field]
    } else if sorted.last().1 <= field.1 {
        sorted.push(field)
    } else {
        insert_by_offset(sorted.drop_last(), field).push(sorted.last())
    }
}

/// The fields stably sorted by offset: fields with equal offsets keep their
/// declaration order.
pub open spec fn sort_by_offset(fields: Seq<(String, usize, FieldKind)>) -> Seq<
    (String, usize, FieldKind),
>
    decreases fields.len(),
{
    if fields.len() == 0 {
        Seq::empty()
    } else {
        insert_by_offset(sort_by_offset(fields.drop_last()), fields.last())
    }
}

/// Lemma: inserting at the position found by scanning back over the larger
/// offsets is the insertion step.
proof fn lemma_insert_at_scan(
    sorted: Seq<(String, usize, FieldKind)>,
    field: (String, usize, FieldKind),
    j: int,
)
    requires
        0 <= j <= sorted.len(),
        forall|k: int| j <= k < sorted.len() ==> #[trigger] sorted[k].1 > field.1,
        j > 0 ==> sorted[j - 1].1 <= field.1,
    ensures
        insert_by_offset(sorted, field) == sorted.insert(j, field),
    decreases sorted.len(),
{
    if sorted.len() == 0 {
        assert(sorted.insert(j, field) =~= seq![field]);
    } else if sorted.last().1 <= field.1 {
        assert(sorted.insert(j, field) =~= sorted.push(field));
    } else {
        let rest = sorted.drop_last();
        lemma_insert_at_scan(rest, field, j);
        assert(rest.insert(j, field).push(sorted.last()) =~= sorted.insert(j, field));
    }
}

/// Lemma: the insertion step holds the inserted field and the fields it was
/// given, and nothing else.
pub proof fn lemma_insert_contents(
    sorted: Seq<(String, usize, FieldKind)>,
    field: (String, usize, FieldKind),
)
    ensures
        insert_by_offset(sorted, field).len() == sorted.len() + 1,
        forall|k: int|
            0 <= k < insert_by_offset(sorted, field).len() ==> (#[trigger] insert_by_offset(
                sorted,
                field,
            )[k] == field || sorted.contains(insert_by_offset(sorted, field)[k])),
    decreases sorted.len(),
{
    let r = insert_by_offset(sorted, field);
    if sorted.len() > 0 && sorted.last().1 > field.1 {
        let rest = sorted.drop_last();
        lemma_insert_contents(rest, field);
        assert forall|k: int| 0 <= k < r.len() implies (#[trigger] r[k] == field || sorted.contains(
            r[k],
        )) by {
            if k == r.len() - 1 {
                assert(sorted[sorted.len() - 1] == r[k]);
            } else {
                let inner = insert_by_offset(rest, field);
                assert(r[k] == inner[k]);
                if inner[k] != field {
                    let w = choose|w: int| 0 <= w < rest.len() && rest[w] == inner[k];
                    assert(sorted[w] == inner[k]);
                }
            }
        }
    } else if sorted.len() > 0 {
        assert forall|k: int| 0 <= k < r.len() implies (#[trigger] r[k] == field || sorted.contains(
            r[k],
        )) by {
            if k < sorted.len() {
                assert(sorted[k] == r[k]);
            }
        }
    }
}

/// Sorted by offset: no field comes before one with a smaller offset.
pub open spec fn sorted_by_offset(fields: Seq<(String, usize, FieldKind)>) -> bool {
    forall|i: int, j: int| 0 <= i < j < fields.len() ==> #[trigger] fields[i].1 <= #[trigger] fields[j].1
}

/// Lemma: the insertion step keeps a sorted sequence sorted.
proof fn lemma_insert_sorted(sorted: Seq<(String, usize, FieldKind)>, field: (String, usize, FieldKind))
    requires
        sorted_by_offset(sorted),
    ensures
        sorted_by_offset(insert_by_offset(sorted, field)),
    decreases sorted.len(),
{
    let r = insert_by_offset(sorted, field);
    if sorted.len() > 0 && sorted.last().1 > field.1 {
        let rest = sorted.drop_last();
        lemma_insert_sorted(rest, field);
        lemma_insert_contents(rest, field);
        let inner = insert_by_offset(rest, field);
        assert forall|i: int, j: int| 0 <= i < j < r.len() implies #[trigger] r[i].1
            <= #[trigger] r[j].1 by {
            if j == r.len() - 1 {
                if inner[i] != field {
                    let w = choose|w: int| 0 <= w < rest.len() && rest[w] == inner[i];
                    assert(sorted[w] == rest[w]);
                    assert(sorted[w].1 <= sorted[sorted.len() - 1].1);
                }
                assert(r[i] == inner[i]);
            } else {
                assert(r[i] == inner[i] && r[j] == inner[j]);
            }
        }
    } else if sorted.len() > 0 {
        assert forall|i: int, j: int| 0 <= i < j < r.len() implies #[trigger] r[i].1
            <= #[trigger] r[j].1 by {
            if j == r.len() - 1 {
                assert(r[i] == sorted[i]);
                assert(sorted[i].1 <= sorted[sorted.len() - 1].1 || i == sorted.len() - 1);
            } else {
                assert(r[i] == sorted[i] && r[j] == sorted[j]);
            }
        }
    }
}

/// Lemma: the insertion step adds the field to the multiset of fields.
proof fn lemma_insert_multiset(sorted: Seq<(String, usize, FieldKind)>, field: (String, usize, FieldKind))
    ensures
        insert_by_offset(sorted, field).to_multiset() =~= sorted.to_multiset().insert(field),
    decreases sorted.len(),
{
    broadcast use vstd::seq_lib::group_to_multiset_ensures;

    if sorted.len() == 0 {
        assert(seq![field] =~= sorted.push(field));
    } else if sorted.last().1 <= field.1 {
    } else {
        let rest = sorted.drop_last();
        lemma_insert_multiset(rest, field);
        assert(rest.push(sorted.last()) =~= sorted);
    }
}

/// Lemma: the insertion step keeps, among the fields of one offset, their
/// order, and puts the inserted field after them.
proof fn lemma_insert_filter(
    sorted: Seq<(String, usize, FieldKind)>,
    field: (String, usize, FieldKind),
    offset: usize,
)
    ensures
        insert_by_offset(sorted, field).filter(|f: (String, usize, FieldKind)| f.1 == offset) == if field.1
            == offset {
            sorted.filter(|f: (String, usize, FieldKind)| f.1 == offset).push(field)
        } else {
            sorted.filter(|f: (String, usize, FieldKind)| f.1 == offset)
        },
    decreases sorted.len(),
{
    let p = |f: (String, usize, FieldKind)| f.1 == offset;
    if sorted.len() == 0 {
        sorted.lemma_filter_push(field, p);
        assert(seq![field] =~= sorted.push(field));
    } else if sorted.last().1 <= field.1 {
        sorted.lemma_filter_push(field, p);
    } else {
        let rest = sorted.drop_last();
        lemma_insert_filter(rest, field, offset);
        insert_by_offset(rest, field).lemma_filter_push(sorted.last(), p);
        rest.lemma_filter_push(sorted.last(), p);
        assert(rest.push(sorted.last()) =~= sorted);
        assert(field.1 == offset ==> !p(sorted.last()));
    }
}

/// The layout order is sorted by offset.
pub proof fn law_layout_sorted(fields: Seq<(String, usize, FieldKind)>)
    ensures
        sorted_by_offset(sort_by_offset(fields)),
    decreases fields.len(),
{
    if fields.len() > 0 {
        law_layout_sorted(fields.drop_last());
        lemma_insert_sorted(sort_by_offset(fields.drop_last()), fields.last());
    }
}

/// The layout order holds exactly the declared fields, each as often as it
/// is declared.
pub proof fn law_layout_permutation(fields: Seq<(String, usize, FieldKind)>)
    ensures
        sort_by_offset(fields).to_multiset() =~= fields.to_multiset(),
    decreases fields.len(),
{
    broadcast use vstd::seq_lib::group_to_multiset_ensures;

    if fields.len() > 0 {
        let rest = fields.drop_last();
        law_layout_permutation(rest);
        lemma_insert_multiset(sort_by_offset(rest), fields.last());
        assert(rest.push(fields.last()) =~= fields);
    }
}

/// The layout order is stable: fields that share an offset keep their
/// declaration order.
pub proof fn law_layout_stable(fields: Seq<(String, usize, FieldKind)>, offset: usize)
    ensures
        sort_by_offset(fields).filter(|f: (String, usize, FieldKind)| f.1 == offset) == fields.filter(
            |f: (String, usize, FieldKind)| f.1 == offset,
        ),
    decreases fields.len(),
{
    let p = |f: (String, usize, FieldKind)| f.1 == offset;
    if fields.len() == 0 {
        reveal(Seq::filter);
    } else {
        let rest = fields.drop_last();
        law_layout_stable(rest, offset);
        lemma_insert_filter(sort_by_offset(rest), fields.last(), offset);
        rest.lemma_filter_push(fields.last(), p);
        assert(rest.push(fields.last()) =~= fields);
    }
}

/// No two fields share an offset.
pub open spec fn distinct_offsets(fields: Seq<(String, usize, FieldKind)>) -> bool {
    forall|i: int, j: int| 0 <= i < j < fields.len() ==> #[trigger] fields[i].1 != #[trigger] fields[j].1
}

/// Lemma: the insertion step puts the field at some position of the sequence.
proof fn lemma_insert_is_insert(sorted: Seq<(String, usize, FieldKind)>, field: (String, usize, FieldKind)) -> (j: int)
    ensures
        0 <= j <= sorted.len(),
        insert_by_offset(sorted, field) == sorted.insert(j, field),
    decreases sorted.len(),
{
    if sorted.len() == 0 {
        assert(sorted.insert(0, field) =~= seq![field]);
        0
    } else if sorted.last().1 <= field.1 {
        assert(sorted.insert(sorted.len() as int, field) =~= sorted.push(field));
        sorted.len() as int
    } else {
        let rest = sorted.drop_last();
        let j = lemma_insert_is_insert(rest, field);
        assert(rest.insert(j, field).push(sorted.last()) =~= sorted.insert(j, field));
        j
    }
}

/// Lemma: sorting fields with distinct offsets keeps the offsets distinct.
proof fn lemma_sort_distinct(fields: Seq<(String, usize, FieldKind)>)
    requires
        distinct_offsets(fields),
    ensures
        distinct_offsets(sort_by_offset(fields)),
    decreases fields.len(),
{
    broadcast use vstd::seq_lib::group_to_multiset_ensures;

    if fields.len() > 0 {
        let rest = fields.drop_last();
        let last = fields.last();
        assert(distinct_offsets(rest)) by {
            assert forall|i: int, j: int| 0 <= i < j < rest.len() implies #[trigger] rest[i].1
                != #[trigger] rest[j].1 by {
                assert(rest[i] == fields[i] && rest[j] == fields[j]);
            }
        }
        lemma_sort_distinct(rest);
        let sorted = sort_by_offset(rest);
        law_layout_permutation(rest);
        assert forall|k: int| 0 <= k < sorted.len() implies #[trigger] sorted[k].1 != last.1 by {
            assert(sorted.to_multiset().count(sorted[k]) > 0);
            assert(rest.contains(sorted[k]));
            let w = choose|w: int| 0 <= w < rest.len() && rest[w] == sorted[k];
            assert(fields[w] == rest[w]);
            assert(fields[w].1 != fields[fields.len() - 1].1);
        }
        let j = lemma_insert_is_insert(sorted, last);
        let r = sorted.insert(j, last);
        assert(r.len() == sorted.len() + 1);
        assert forall|k: int| j < k < r.len() implies #[trigger] r[k] == sorted[k - 1] by {
            assert(r[k] == sorted.subrange(j, sorted.len() as int)[k - j - 1]);
        }
        assert forall|k: int| 0 <= k < j implies #[trigger] r[k] == sorted[k] by {}
        assert(r[j] == last);
        assert forall|a: int, b: int| 0 <= a < b < r.len() implies #[trigger] r[a].1
            != #[trigger] r[b].1 by {
            if a < j {
                assert(r[a] == sorted[a]);
                if b < j {
                    assert(r[b] == sorted[b]);
                } else if b == j {
                    assert(r[b] == last);
                } else {
                    assert(r[b] == sorted[b - 1]);
                }
            } else if a == j {
                assert(r[a] == last);
                assert(r[b] == sorted[b - 1]);
            } else {
                assert(r[a] == sorted[a - 1] && r[b] == sorted[b - 1]);
            }
        }
    }
}

/// Lemma: two sequences sorted by distinct offsets that hold the same fields
/// are equal.
proof fn lemma_sorted_unique(s: Seq<(String, usize, FieldKind)>, t: Seq<(String, usize, FieldKind)>)
    requires
        sorted_by_offset(s),
        sorted_by_offset(t),
        distinct_offsets(s),
        distinct_offsets(t),
        s.to_multiset() =~= t.to_multiset(),
    ensures
        s == t,
    decreases s.len(),
{
    broadcast use vstd::seq_lib::group_to_multiset_ensures;

    assert(s.len() == s.to_multiset().len() && t.len() == t.to_multiset().len());
    if s.len() == 0 {
        assert(s =~= t);
    } else {
        let n = s.len() - 1;
        let a = s.last();
        let b = t.last();
        assert(s.to_multiset().count(a) > 0);
        assert(t.contains(a));
        let ka = choose|k: int| 0 <= k < t.len() && t[k] == a;
        assert(ka == n || t[ka].1 <= t[n].1);
        assert(t.to_multiset().count(b) > 0);
        assert(s.contains(b));
        let kb = choose|k: int| 0 <= k < s.len() && s[k] == b;
        assert(kb == n || s[kb].1 <= s[n].1);
        assert(a.1 == b.1);
        assert(kb == n);
        assert(a == b);
        let s0 = s.drop_last();
        let t0 = t.drop_last();
        assert(s0.push(a) =~= s);
        assert(t0.push(a) =~= t);
        assert(s0.to_multiset() =~= t0.to_multiset()) by {
            assert(s0.to_multiset().insert(a) =~= t0.to_multiset().insert(a));
            assert forall|x| #[trigger] s0.to_multiset().count(x) == t0.to_multiset().count(x) by {
                assert(s0.to_multiset().insert(a).count(x) == t0.to_multiset().insert(a).count(x));
            }
        }
        assert(sorted_by_offset(s0) && distinct_offsets(s0)) by {
            assert forall|i: int, j: int| 0 <= i < j < s0.len() implies #[trigger] s0[i].1
                <= #[trigger] s0[j].1 && s0[i].1 != s0[j].1 by {
                assert(s0[i] == s[i] && s0[j] == s[j]);
            }
        }
        assert(sorted_by_offset(t0) && distinct_offsets(t0)) by {
            assert forall|i: int, j: int| 0 <= i < j < t0.len() implies #[trigger] t0[i].1
                <= #[trigger] t0[j].1 && t0[i].1 != t0[j].1 by {
                assert(t0[i] == t[i] && t0[j] == t[j]);
            }
        }
        lemma_sorted_unique(s0, t0);
    }
}

/// The layout order does not depend on the order in which fields are
/// declared, when no two fields share an offset: any two declarations of the
/// same fields sort to the same sequence.
pub proof fn law_layout_independent_of_declaration_order(
    fields: Seq<(String, usize, FieldKind)>,
    reordered: Seq<(String, usize, FieldKind)>,
)
    requires
        fields.to_multiset() =~= reordered.to_multiset(),
        distinct_offsets(fields),
        distinct_offsets(reordered),
    ensures
        sort_by_offset(fields) == sort_by_offset(reordered),
{
    law_layout_sorted(fields);
    law_layout_sorted(reordered);
    law_layout_permutation(fields);
    law_layout_permutation(reordered);
    lemma_sort_distinct(fields);
    lemma_sort_distinct(reordered);
    lemma_sorted_unique(sort_by_offset(fields), sort_by_offset(reordered));
}

/// The fields stably sorted by their offsets, each copied.
pub fn layout_order(fields: &Vec<(String, usize, FieldKind)>) -> (r: Vec<(String, usize, FieldKind)>)
    ensures
        r@ == sort_by_offset(fields@),
{
    let mut sorted: Vec<(String, usize, FieldKind)> = Vec::new();
    let n = fields.len();
    let mut i: usize = 0;
    while i < n
        invariant
            i <= n,
            n == fields@.len(),
            sorted@ == sort_by_offset(fields@.take(i as int)),
        decreases n - i,
    {
        let (name, offset, kind) = &fields[i];
        let field = (name.clone(), *offset, kind.clone());
        let mut j = sorted.len();
        while j > 0 && sorted[j - 1].1 > *offset
            invariant
                j <= sorted@.len(),
                forall|k: int| j <= k < sorted@.len() ==> #[trigger] sorted@[k].1 > *offset,
            decreases j,
        {
            j = j - 1;
        }
        proof {
            lemma_insert_at_scan(sorted@, field, j as int);
            assert(fields@.take(i + 1).drop_last() =~= fields@.take(i as int));
        }
        sorted.insert(j, field);
        i = i + 1;
    }
    assert(fields@.take(n as int) =~= fields@);
    sorted
}

} // verus!
