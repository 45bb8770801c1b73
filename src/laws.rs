use vstd::prelude::*;
use crate::error::{quoted, ErrorKind, PyError, PyResult};
use crate::iteration::{count_scan, index_scan};
use crate::object::{empty_table, resolved_mapping, resolved_table, ObjectId, PyObject};
use crate::sequence::{fails_with, PySequence, SeqAction};

verus! {

/// A type whose table offers item access and nothing else is a sequence,
/// and asking for its length fails with a type error.
pub proof fn item_only_is_sequence_without_length(s: PySequence, r: SeqAction)
    requires
        s.table().item is Some,
        s.table().length is None,
        s.table().concat is None,
        s.table().repeat is None,
        s.table().ass_item is None,
        s.table().contains is None,
        s.table().inplace_concat is None,
        s.table().inplace_repeat is None,
        s.length_result(r),
    ensures
        s.is_sequence(),
        fails_with(r, s.class_name(), " is not a sequence or has no len()"@),
{
}

/// On a type with no sequence slots every table operation fails with its
/// type error: the operator fallbacks of concatenation and repetition are
/// tried only for sequences, which such a type is not.
pub proof fn empty_table_operations_fail(
    s: PySequence,
    other: PyObject,
    n: usize,
    i: isize,
    value: ObjectId,
    length: SeqAction,
    concat: SeqAction,
    repeat: SeqAction,
    inplace_concat: SeqAction,
    inplace_repeat: SeqAction,
    get_item: SeqAction,
    set_item: SeqAction,
    del_item: SeqAction,
)
    requires
        s.table() == empty_table(),
        s.length_result(length),
        s.concat_result(other, concat),
        s.repeat_result(n, repeat),
        s.inplace_concat_result(other, inplace_concat),
        s.inplace_repeat_result(n, inplace_repeat),
        s.get_item_result(i, get_item),
        s.set_item_result(i, value, set_item),
        s.del_item_result(i, del_item),
    ensures
        !s.is_sequence(),
        fails_with(length, s.class_name(), " is not a sequence or has no len()"@),
        fails_with(concat, s.class_name(), " object can't be concatenated"@),
        fails_with(repeat, s.class_name(), " object can't be repeated"@),
        fails_with(inplace_concat, s.class_name(), " object can't be concatenated"@),
        fails_with(inplace_repeat, s.class_name(), " object can't be repeated"@),
        fails_with(get_item, s.class_name(), " is not a sequence or does not support indexing"@),
        set_item is Fail && set_item->Fail_0.kind == ErrorKind::TypeError,
        del_item is Fail && del_item->Fail_0.kind == ErrorKind::TypeError,
{
}

/// The operator fallbacks of concatenation are reached only between two
/// sequences, and only on a type without the native slots that come first.
pub proof fn concat_operator_only_between_sequences(
    s: PySequence,
    other: PyObject,
    concat: SeqAction,
    inplace_concat: SeqAction,
)
    requires
        s.concat_result(other, concat),
        s.inplace_concat_result(other, inplace_concat),
    ensures
        concat is Operator ==> s.table().concat is None && s.is_sequence()
            && resolved_table(other).item is Some,
        inplace_concat is Operator ==> s.table().inplace_concat is None && s.table().concat is None
            && s.is_sequence() && resolved_table(other).item is Some,
{
}

/// The operator fallbacks of repetition are reached only for a sequence
/// without the native slots that come first.
pub proof fn repeat_operator_only_for_sequences(
    s: PySequence,
    n: usize,
    repeat: SeqAction,
    inplace_repeat: SeqAction,
)
    requires
        s.repeat_result(n, repeat),
        s.inplace_repeat_result(n, inplace_repeat),
    ensures
        repeat is Operator ==> s.table().repeat is None && s.is_sequence(),
        inplace_repeat is Operator ==> s.table().inplace_repeat is None && s.table().repeat is None
            && s.is_sequence(),
{
}

/// Counting and searching go by iteration alone: two views over any tables,
/// native membership slot or not, agree on every iteration.
pub proof fn counting_ignores_native_slots(
    a: PySequence,
    b: PySequence,
    outcomes: Seq<PyResult<bool>>,
    r: PyResult<usize>,
)
    ensures
        a.count_result(outcomes, r) <==> b.count_result(outcomes, r),
        a.index_result(outcomes, r) <==> b.index_result(outcomes, r),
{
}

/// Item assignment and item deletion on a type without the assignment slot
/// fail with messages that differ only in their last word.
pub proof fn assignment_and_deletion_differ_in_verb(
    s: PySequence,
    i: isize,
    value: ObjectId,
    set: SeqAction,
    del: SeqAction,
)
    requires
        s.table().ass_item is None,
        s.set_item_result(i, value, set),
        s.del_item_result(i, del),
    ensures
        set is Fail && del is Fail,
        set->Fail_0.kind == del->Fail_0.kind,
        set->Fail_0.msg@ == quoted(s.class_name(), " is not a sequence or doesn't support item "@)
            + "assignment"@,
        del->Fail_0.msg@ == quoted(s.class_name(), " is not a sequence or doesn't support item "@)
            + "deletion"@,
{
    let p = quoted(s.class_name(), " is not a sequence or doesn't support item "@);
    assert(quoted(s.class_name(), " is not a sequence or doesn't support item "@ + "assignment"@)
        =~= p + "assignment"@);
    assert(quoted(s.class_name(), " is not a sequence or doesn't support item "@ + "deletion"@)
        =~= p + "deletion"@);
}

proof fn count_all_matches_from(o: Seq<PyResult<bool>>, i: int)
    requires
        o.len() == isize::MAX + 1,
        forall|j: int| 0 <= j < o.len() ==> o[j] == Ok::<bool, PyError>(true),
        0 <= i <= isize::MAX,
    ensures
        count_scan(o, i, i) is Overflow,
    decreases isize::MAX - i,
{
    if i < isize::MAX {
        count_all_matches_from(o, i + 1);
    }
}

/// Counting an iteration of `isize::MAX + 1` matching elements fails with the
/// overflow error instead of wrapping.
pub proof fn count_overflows(s: PySequence, outcomes: Seq<PyResult<bool>>, r: PyResult<usize>)
    requires
        outcomes.len() == isize::MAX + 1,
        forall|j: int|
            0 <= j < outcomes.len() ==> outcomes[j] == Ok::<bool, PyError>(true),
        s.count_result(outcomes, r),
    ensures
        r is Err,
        r->Err_0.kind == ErrorKind::OverflowError,
{
    count_all_matches_from(outcomes, 0);
}

proof fn index_no_match_from(o: Seq<PyResult<bool>>, i: int)
    requires
        o.len() > isize::MAX + 1,
        forall|j: int| 0 <= j <= isize::MAX ==> o[j] == Ok::<bool, PyError>(false),
        0 <= i <= isize::MAX + 1,
    ensures
        index_scan(o, i) is Overflow,
    decreases isize::MAX + 1 - i,
{
    if i <= isize::MAX {
        index_no_match_from(o, i + 1);
    }
}

/// Searching past `isize::MAX + 1` elements without a match fails with the
/// overflow error, as the next position has no signed index.
pub proof fn index_overflows(s: PySequence, outcomes: Seq<PyResult<bool>>, r: PyResult<usize>)
    requires
        outcomes.len() > isize::MAX + 1,
        forall|j: int|
            0 <= j <= isize::MAX ==> outcomes[j] == Ok::<bool, PyError>(false),
        s.index_result(outcomes, r),
    ensures
        r is Err,
        r->Err_0.kind == ErrorKind::OverflowError,
{
    index_no_match_from(outcomes, 0);
}

/// Slicing goes through the nearest mapping table's subscript slots only:
/// it never calls a slot of the sequence table, even where the type has item
/// access, and it succeeds exactly when that mapping slot exists.
pub proof fn slices_go_through_mapping(
    s: PySequence,
    start: isize,
    stop: isize,
    value: ObjectId,
    get: SeqAction,
    set: SeqAction,
    del: SeqAction,
)
    requires
        s.get_slice_result(start, stop, get),
        s.set_slice_result(start, stop, value, set),
        s.del_slice_result(start, stop, del),
    ensures
        !(get is Native) && !(set is Native) && !(del is Native),
        get is Subscript <==> (resolved_mapping(s.object()) is Some
            && resolved_mapping(s.object())->Some_0.subscript is Some),
        set is Subscript <==> (resolved_mapping(s.object()) is Some
            && resolved_mapping(s.object())->Some_0.ass_subscript is Some),
        del is Subscript <==> (resolved_mapping(s.object()) is Some
            && resolved_mapping(s.object())->Some_0.ass_subscript is Some),
        get is Subscript ==> get->Subscript_0 == resolved_mapping(s.object())->Some_0.subscript->Some_0,
        set is Subscript ==> set->Subscript_0
            == resolved_mapping(s.object())->Some_0.ass_subscript->Some_0,
        del is Subscript ==> del->Subscript_0
            == resolved_mapping(s.object())->Some_0.ass_subscript->Some_0,
{
}

} // verus!
