//! The model of a field set, and of writing a list of fields into one.

use crate::value::Field;
use crate::value::FieldModel;
use vstd::prelude::*;

verus! {

/// A field set in contracts: field name to value.
pub type FieldMap = Map<Seq<char>, FieldModel>;

/// `base` after each of `fields` was written into it in order. A write
/// under a name that is already there replaces the value.
pub open spec fn apply_fields(base: FieldMap, fields: Seq<Field>) -> FieldMap
    decreases fields.len(),
{
    if fields.len() == 0 {
        base
    } else {
        apply_fields(base, fields.drop_last()).insert(fields.last().name@, fields.last().value@)
    }
}

/// The names that occur in `fields`.
pub open spec fn names_of(fields: Seq<Field>) -> Set<Seq<char>> {
    Set::new(
        |name: Seq<char>| exists|i: int| 0 <= i < fields.len() && (#[trigger] fields[i]).name@ == name,
    )
}

/// Entry `i` is the last one of `fields` under its name.
pub open spec fn is_last_write(fields: Seq<Field>, i: int) -> bool {
    &&& 0 <= i < fields.len()
    &&& forall|j: int| i < j < fields.len() ==> (#[trigger] fields[j]).name@ != fields[i].name@
}

/// No name occurs twice in `fields`.
pub open spec fn distinct_names(fields: Seq<Field>) -> bool {
    forall|i: int, j: int|
        0 <= i < j < fields.len() ==> (#[trigger] fields[i]).name@ != (#[trigger] fields[j]).name@
}

/// Writing fields adds their names to the set and takes none away.
pub proof fn lemma_apply_domain(base: FieldMap, fields: Seq<Field>)
    ensures
        apply_fields(base, fields).dom() == base.dom().union(names_of(fields)),
    decreases fields.len(),
{
    if fields.len() == 0 {
        assert(names_of(fields) =~= Set::empty());
        assert(base.dom().union(names_of(fields)) =~= base.dom());
    } else {
        let front = fields.drop_last();
        lemma_apply_domain(base, front);
        assert forall|name: Seq<char>|
            names_of(fields).contains(name) <==> names_of(front).insert(
                fields.last().name@,
            ).contains(name) by {
            if names_of(front).contains(name) {
                let i: int = choose|i: int| 0 <= i < front.len() && (#[trigger] front[i]).name@ == name;
                assert(fields[i].name@ == name);
            }
            if name == fields.last().name@ {
                assert(fields[fields.len() - 1].name@ == name);
            }
            if names_of(fields).contains(name) {
                let i: int = choose|i: int| 0 <= i < fields.len() && (#[trigger] fields[i]).name@ == name;
                if i < front.len() {
                    assert(front[i].name@ == name);
                }
            }
        }
        assert(names_of(fields) =~= names_of(front).insert(fields.last().name@));
        assert(apply_fields(base, fields).dom() =~= base.dom().union(names_of(fields)));
    }
}

/// Under a name that was written, the set holds the value written last.
pub proof fn lemma_apply_last_wins(base: FieldMap, fields: Seq<Field>, i: int)
    requires
        is_last_write(fields, i),
    ensures
        apply_fields(base, fields).contains_key(fields[i].name@),
        apply_fields(base, fields)[fields[i].name@] == fields[i].value@,
    decreases fields.len(),
{
    if i < fields.len() - 1 {
        let front = fields.drop_last();
        assert(is_last_write(front, i)) by {
            assert forall|j: int| i < j < front.len() implies (#[trigger] front[j]).name@
                != front[i].name@ by {
                assert(fields[j].name@ != fields[i].name@);
            }
        }
        lemma_apply_last_wins(base, front, i);
        assert(fields[fields.len() - 1].name@ != fields[i].name@);
    }
}

/// Under a name that was not written, the set is as it was.
pub proof fn lemma_apply_keeps_rest(base: FieldMap, fields: Seq<Field>, name: Seq<char>)
    requires
        !names_of(fields).contains(name),
    ensures
        apply_fields(base, fields).contains_key(name) == base.contains_key(name),
        apply_fields(base, fields)[name] == base[name],
    decreases fields.len(),
{
    if fields.len() > 0 {
        let front = fields.drop_last();
        assert(fields[fields.len() - 1].name@ != name);
        assert(!names_of(front).contains(name)) by {
            if names_of(front).contains(name) {
                let i: int = choose|i: int| 0 <= i < front.len() && (#[trigger] front[i]).name@ == name;
                assert(fields[i].name@ == name);
            }
        }
        lemma_apply_keeps_rest(base, front, name);
    }
}

/// Writing one list and then another is writing the two in a row: a field
/// set is its starting point and everything written since, in order.
pub proof fn lemma_apply_concat(base: FieldMap, first: Seq<Field>, second: Seq<Field>)
    ensures
        apply_fields(apply_fields(base, first), second) == apply_fields(base, first + second),
    decreases second.len(),
{
    if second.len() == 0 {
        assert(first + second =~= first);
    } else {
        lemma_apply_concat(base, first, second.drop_last());
        assert((first + second).drop_last() =~= first + second.drop_last());
        assert((first + second).last() == second.last());
    }
}

/// Writing fields into `base` is the union of `base` with the fields
/// written, where on a shared name the written field wins.
pub proof fn lemma_apply_union(base: FieldMap, fields: Seq<Field>)
    ensures
        apply_fields(base, fields) == base.union_prefer_right(
            apply_fields(Map::empty(), fields),
        ),
    decreases fields.len(),
{
    let written = apply_fields(Map::empty(), fields);
    if fields.len() == 0 {
        assert(apply_fields(base, fields) =~= base.union_prefer_right(written));
    } else {
        lemma_apply_union(base, fields.drop_last());
        assert(apply_fields(base, fields) =~= base.union_prefer_right(written));
    }
}

/// A list in which no name occurs twice gives one field for each entry.
pub proof fn lemma_apply_distinct_len(fields: Seq<Field>)
    requires
        distinct_names(fields),
    ensures
        apply_fields(Map::empty(), fields).dom().finite(),
        apply_fields(Map::empty(), fields).len() == fields.len(),
    decreases fields.len(),
{
    if fields.len() > 0 {
        let front = fields.drop_last();
        let name = fields.last().name@;
        assert(distinct_names(front)) by {
            assert forall|a: int, b: int| 0 <= a < b < front.len() implies (#[trigger] front[a]).name@
                != (#[trigger] front[b]).name@ by {
                assert(fields[a].name@ != fields[b].name@);
            }
        }
        lemma_apply_distinct_len(front);
        assert(!names_of(front).contains(name)) by {
            if names_of(front).contains(name) {
                let i: int = choose|i: int| 0 <= i < front.len() && (#[trigger] front[i]).name@ == name;
                assert(fields[i].name@ != fields[fields.len() - 1].name@);
            }
        }
        lemma_apply_keeps_rest(Map::empty(), front, name);
    }
}

/// Replacing the value of entry `i`, in a list where no name occurs twice,
/// is writing that field once more.
pub(crate) proof fn lemma_apply_update(base: FieldMap, fields: Seq<Field>, i: int, field: Field)
    requires
        distinct_names(fields),
        0 <= i < fields.len(),
        field.name@ == fields[i].name@,
    ensures
        apply_fields(base, fields.update(i, field)) == apply_fields(base, fields).insert(
            field.name@,
            field.value@,
        ),
    decreases fields.len(),
{
    let front = fields.drop_last();
    let updated = fields.update(i, field);
    if i == fields.len() - 1 {
        assert(updated.drop_last() =~= front);
        assert(apply_fields(base, updated) =~= apply_fields(base, fields).insert(
            field.name@,
            field.value@,
        ));
    } else {
        assert(distinct_names(front)) by {
            assert forall|a: int, b: int| 0 <= a < b < front.len() implies (#[trigger] front[a]).name@
                != (#[trigger] front[b]).name@ by {
                assert(fields[a].name@ != fields[b].name@);
            }
        }
        lemma_apply_update(base, front, i, field);
        assert(updated.drop_last() =~= front.update(i, field));
        assert(updated.last() == fields.last());
        assert(fields[i].name@ != fields[fields.len() - 1].name@);
        assert(apply_fields(base, updated) =~= apply_fields(base, fields).insert(
            field.name@,
            field.value@,
        ));
    }
}

} // verus!
