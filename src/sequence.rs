use vstd::prelude::*;
use crate::error::{
    not_found_error, overflow_error, quoted, type_error_about, ErrorKind, PyError, PyResult,
};
use crate::iteration::{
    collects, contains_scan, count_scan, index_scan, scan_result, try_collect_items,
};
use crate::object::{
    find_mapping_slot, resolve_methods, resolved_mapping, resolved_table, ClassKind, MethodsCow,
    ObjectId, PyObject, PySequenceMethods, SlotFn,
};

verus! {

/// A generic arithmetic operator of the runtime.
#[derive(Clone, Copy, Debug, PartialEq, Eq, Structural)]
pub enum BinaryOp {
    Add,
    Mul,
    InplaceAdd,
    InplaceMul,
}

/// The right operand handed to a generic operator.
#[derive(Clone, Copy, Debug, PartialEq, Eq, Structural)]
pub enum Operand {
    Object(ObjectId),
    Count(usize),
}

/// A slice `start:stop` with no step.
#[derive(Clone, Copy, Debug, PartialEq, Eq, Structural)]
pub struct PySlice {
    pub start: isize,
    pub stop: isize,
}

/// What the runtime reports after applying a generic operator.
#[derive(Clone, Copy, Debug, PartialEq, Eq, Structural)]
pub enum PyArithmeticValue {
    Implemented(ObjectId),
    NotImplemented,
}

/// The step an operation resolves to.
#[derive(Debug)]
pub enum SeqAction {
    /// Call this native slot with the operation's arguments.
    Native(SlotFn),
    /// Apply the generic operator to the object and the operand, then hand
    /// what it reports to `finish_operator`.
    Operator(BinaryOp, Operand),
    /// Call this mapping subscript slot with the object and the slice.
    Subscript(SlotFn, PySlice),
    /// Run the iteration-based default.
    Iterate,
    /// The operation fails with this error.
    Fail(PyError),
}

/// How `tuple` turns the object into a tuple.
#[derive(Debug)]
pub enum TupleAction {
    /// The object is a tuple already: it is the result itself.
    Same,
    /// A new tuple holding these elements.
    Copy(Vec<ObjectId>),
    /// A new tuple built by iterating the object (see `collect_items`).
    Iterate,
}

/// Whether `r` is the type error `'<name>'<rest>`.
pub open spec fn fails_with(r: SeqAction, name: Seq<char>, rest: Seq<char>) -> bool {
    &&& r is Fail
    &&& r->Fail_0.kind == ErrorKind::TypeError
    &&& r->Fail_0.msg@ == quoted(name, rest)
}

/// Whether `r` is the type error `'<name>'<rest>`.
pub open spec fn errs_with<T>(r: PyResult<T>, name: Seq<char>, rest: Seq<char>) -> bool {
    &&& r is Err
    &&& r->Err_0.kind == ErrorKind::TypeError
    &&& r->Err_0.msg@ == quoted(name, rest)
}

/// `"assignment"` when a value is given, `"deletion"` when none is.
pub open spec fn verb(value: Option<ObjectId>) -> Seq<char> {
    if value is Some {
        "assignment"@
    } else {
        "deletion"@
    }
}

/// A view of an object through the sequence protocol.
pub struct PySequence<'a> {
    pub obj: &'a PyObject,
    methods: MethodsCow,
}

impl<'a> PySequence<'a> {
    /// The view's method table.
    pub closed spec fn table(&self) -> PySequenceMethods {
        self.methods.table()
    }

    /// The object viewed.
    pub closed spec fn object(&self) -> PyObject {
        *self.obj
    }

    /// The name of the object's type.
    pub open spec fn class_name(&self) -> Seq<char> {
        self.object().class.name@
    }

    /// Whether the table offers item access, the mark of a sequence.
    pub open spec fn is_sequence(&self) -> bool {
        self.table().item is Some
    }

    /// What `length` returns.
    pub open spec fn length_result(&self, r: SeqAction) -> bool {
        match self.table().length {
            Some(f) => r == SeqAction::Native(f),
            None => fails_with(r, self.class_name(), " is not a sequence or has no len()"@),
        }
    }

    /// What `get_item` returns.
    pub open spec fn get_item_result(&self, i: isize, r: SeqAction) -> bool {
        match self.table().item {
            Some(f) => r == SeqAction::Native(f),
            None => fails_with(
                r,
                self.class_name(),
                " is not a sequence or does not support indexing"@,
            ),
        }
    }

    /// What `concat` returns.
    pub open spec fn concat_result(&self, other: PyObject, r: SeqAction) -> bool {
        match self.table().concat {
            Some(f) => r == SeqAction::Native(f),
            None => if self.is_sequence() && resolved_table(other).item is Some {
                r == SeqAction::Operator(BinaryOp::Add, Operand::Object(other.id))
            } else {
                fails_with(r, self.class_name(), " object can't be concatenated"@)
            },
        }
    }

    /// What `repeat` returns.
    pub open spec fn repeat_result(&self, n: usize, r: SeqAction) -> bool {
        match self.table().repeat {
            Some(f) => r == SeqAction::Native(f),
            None => if self.is_sequence() {
                r == SeqAction::Operator(BinaryOp::Mul, Operand::Count(n))
            } else {
                fails_with(r, self.class_name(), " object can't be repeated"@)
            },
        }
    }

    /// What `inplace_concat` returns.
    pub open spec fn inplace_concat_result(&self, other: PyObject, r: SeqAction) -> bool {
        match (self.table().inplace_concat, self.table().concat) {
            (Some(f), _) => r == SeqAction::Native(f),
            (None, Some(f)) => r == SeqAction::Native(f),
            (None, None) => if self.is_sequence() && resolved_table(other).item is Some {
                r == SeqAction::Operator(BinaryOp::InplaceAdd, Operand::Object(other.id))
            } else {
                fails_with(r, self.class_name(), " object can't be concatenated"@)
            },
        }
    }

    /// What `inplace_repeat` returns.
    pub open spec fn inplace_repeat_result(&self, n: usize, r: SeqAction) -> bool {
        match (self.table().inplace_repeat, self.table().repeat) {
            (Some(f), _) => r == SeqAction::Native(f),
            (None, Some(f)) => r == SeqAction::Native(f),
            (None, None) => if self.is_sequence() {
                r == SeqAction::Operator(BinaryOp::InplaceMul, Operand::Count(n))
            } else {
                fails_with(r, self.class_name(), " object can't be repeated"@)
            },
        }
    }

    /// What `set_item` returns.
    pub open spec fn set_item_result(&self, i: isize, value: ObjectId, r: SeqAction) -> bool {
        match self.table().ass_item {
            Some(f) => r == SeqAction::Native(f),
            None => fails_with(
                r,
                self.class_name(),
                " is not a sequence or doesn't support item "@ + "assignment"@,
            ),
        }
    }

    /// What `del_item` returns.
    pub open spec fn del_item_result(&self, i: isize, r: SeqAction) -> bool {
        match self.table().ass_item {
            Some(f) => r == SeqAction::Native(f),
            None => fails_with(
                r,
                self.class_name(),
                " is not a sequence or doesn't support item "@ + "deletion"@,
            ),
        }
    }

    /// What `get_slice` returns.
    pub open spec fn get_slice_result(&self, start: isize, stop: isize, r: SeqAction) -> bool {
        match resolved_mapping(self.object()) {
            Some(m) if m.subscript is Some => r == SeqAction::Subscript(
                m.subscript->Some_0,
                PySlice { start, stop },
            ),
            _ => fails_with(r, self.class_name(), " object is unsliceable"@),
        }
    }

    /// What `set_slice` returns.
    pub open spec fn set_slice_result(&self, start: isize, stop: isize, value: ObjectId, r: SeqAction) -> bool {
        match resolved_mapping(self.object()) {
            Some(m) if m.ass_subscript is Some => r == SeqAction::Subscript(
                m.ass_subscript->Some_0,
                PySlice { start, stop },
            ),
            _ => fails_with(
                r,
                self.class_name(),
                " object doesn't support slice "@ + "assignment"@,
            ),
        }
    }

    /// What `del_slice` returns.
    pub open spec fn del_slice_result(&self, start: isize, stop: isize, r: SeqAction) -> bool {
        match resolved_mapping(self.object()) {
            Some(m) if m.ass_subscript is Some => r == SeqAction::Subscript(
                m.ass_subscript->Some_0,
                PySlice { start, stop },
            ),
            _ => fails_with(
                r,
                self.class_name(),
                " object doesn't support slice "@ + "deletion"@,
            ),
        }
    }

    /// What `contains` returns.
    pub open spec fn contains_result(&self, r: SeqAction) -> bool {
        match self.table().contains {
            Some(f) => r == SeqAction::Native(f),
            None => r is Iterate,
        }
    }

    /// What `count` returns.
    pub open spec fn count_result(&self, outcomes: Seq<PyResult<bool>>, r: PyResult<usize>) -> bool {
        scan_result(r, count_scan(outcomes, 0, 0))
    }

    /// What `index` returns.
    pub open spec fn index_result(&self, outcomes: Seq<PyResult<bool>>, r: PyResult<usize>) -> bool {
        scan_result(r, index_scan(outcomes, 0))
    }

    /// A view whose table is resolved from the object's type.
    pub fn new(obj: &'a PyObject) -> (r: Self)
        ensures
            r.object() == *obj,
            r.table() == resolved_table(*obj),
    {
        PySequence { obj, methods: resolve_methods(obj) }
    }

    /// A view with a table given by the caller, bypassing resolution.
    pub fn with_methods(obj: &'a PyObject, methods: MethodsCow) -> (r: Self)
        ensures
            r.object() == *obj,
            r.table() == methods.table(),
    {
        PySequence { obj, methods }
    }

    /// The view's table, as it is held.
    pub fn methods_cow(&self) -> (r: &MethodsCow)
        ensures
            r.table() == self.table(),
    {
        &self.methods
    }

    /// The view's table.
    pub fn methods(&self) -> (r: PySequenceMethods)
        ensures
            r == self.table(),
    {
        match self.methods_cow() {
            MethodsCow::NotImplemented => PySequenceMethods::not_implemented(),
            MethodsCow::Owned(t) => *t,
        }
    }

    /// Whether the object is a sequence: its table has an item slot.
    pub fn has_protocol(&self) -> (r: bool)
        ensures
            r == self.is_sequence(),
    {
        self.methods().item.is_some()
    }

    /// Fails with a type error unless the object is a sequence.
    pub fn try_protocol(&self) -> (r: PyResult<()>)
        ensures
            self.is_sequence() ==> r is Ok,
            !self.is_sequence() ==> errs_with(r, self.class_name(), " is not a sequence"@),
    {
        if self.has_protocol() {
            Ok(())
        } else {
            Err(type_error_about(self.obj.class.name.as_str(), " is not a sequence"))
        }
    }

    /// The length: the native length slot, with no fallback.
    pub fn length(&self) -> (r: SeqAction)
        ensures
            self.length_result(r),

    {
        match self.methods().length {
            Some(f) => SeqAction::Native(f),
            None => SeqAction::Fail(
                type_error_about(self.obj.class.name.as_str(), " is not a sequence or has no len()"),
            ),
        }
    }

    /// Reading an item: the native item slot, with no fallback.
    pub fn get_item(&self, i: isize) -> (r: SeqAction)
        ensures
            self.get_item_result(i, r),

    {
        match self.methods().item {
            Some(f) => SeqAction::Native(f),
            None => SeqAction::Fail(
                type_error_about(
                    self.obj.class.name.as_str(),
                    " is not a sequence or does not support indexing",
                ),
            ),
        }
    }
    /// Concatenation: the native concat slot; else, when both operands are
    /// sequences, the generic addition; else a type error.
    pub fn concat(&self, other: &PyObject) -> (r: SeqAction)
        ensures
            self.concat_result(*other, r),

    {
        if let Some(f) = self.methods().concat {
            return SeqAction::Native(f);
        }
        if self.has_protocol() && PySequence::new(other).has_protocol() {
            return SeqAction::Operator(BinaryOp::Add, Operand::Object(other.id));
        }
        SeqAction::Fail(
            type_error_about(self.obj.class.name.as_str(), " object can't be concatenated"),
        )
    }

    /// Repetition: the native repeat slot; else, when the object is a
    /// sequence, the generic multiplication by the count; else a type error.
    pub fn repeat(&self, n: usize) -> (r: SeqAction)
        ensures
            self.repeat_result(n, r),

    {
        if let Some(f) = self.methods().repeat {
            return SeqAction::Native(f);
        }
        if self.has_protocol() {
            return SeqAction::Operator(BinaryOp::Mul, Operand::Count(n));
        }
        SeqAction::Fail(type_error_about(self.obj.class.name.as_str(), " object can't be repeated"))
    }

    /// In-place concatenation: the native in-place slot, then the plain
    /// concat slot; else, when both operands are sequences, the generic
    /// in-place addition; else a type error.
    pub fn inplace_concat(&self, other: &PyObject) -> (r: SeqAction)
        ensures
            self.inplace_concat_result(*other, r),

    {
        if let Some(f) = self.methods().inplace_concat {
            return SeqAction::Native(f);
        }
        if let Some(f) = self.methods().concat {
            return SeqAction::Native(f);
        }
        if self.has_protocol() && PySequence::new(other).has_protocol() {
            return SeqAction::Operator(BinaryOp::InplaceAdd, Operand::Object(other.id));
        }
        SeqAction::Fail(
            type_error_about(self.obj.class.name.as_str(), " object can't be concatenated"),
        )
    }

    /// In-place repetition: the native in-place slot, then the plain repeat
    /// slot; else, when the object is a sequence, the generic in-place
    /// multiplication by the count; else a type error.
    pub fn inplace_repeat(&self, n: usize) -> (r: SeqAction)
        ensures
            self.inplace_repeat_result(n, r),

    {
        if let Some(f) = self.methods().inplace_repeat {
            return SeqAction::Native(f);
        }
        if let Some(f) = self.methods().repeat {
            return SeqAction::Native(f);
        }
        if self.has_protocol() {
            return SeqAction::Operator(BinaryOp::InplaceMul, Operand::Count(n));
        }
        SeqAction::Fail(type_error_about(self.obj.class.name.as_str(), " object can't be repeated"))
    }

    /// Ends an operator fallback with what the runtime reported: its error,
    /// its result, or the operation's type error when the operator was not
    /// implemented for the pair.
    pub fn finish_operator(&self, op: BinaryOp, reported: PyResult<PyArithmeticValue>) -> (r: PyResult<ObjectId>)
        ensures
            match reported {
                Err(e) => r == Err::<ObjectId, PyError>(e),
                Ok(PyArithmeticValue::Implemented(o)) => r == Ok::<ObjectId, PyError>(o),
                Ok(PyArithmeticValue::NotImplemented) => errs_with(
                    r,
                    self.class_name(),
                    if op == BinaryOp::Add || op == BinaryOp::InplaceAdd {
                        " object can't be concatenated"@
                    } else {
                        " object can't be repeated"@
                    },
                ),
            },
    {
        match reported {
            Err(e) => Err(e),
            Ok(PyArithmeticValue::Implemented(o)) => Ok(o),
            Ok(PyArithmeticValue::NotImplemented) => {
                if op == BinaryOp::Add || op == BinaryOp::InplaceAdd {
                    Err(type_error_about(self.obj.class.name.as_str(), " object can't be concatenated"))
                } else {
                    Err(type_error_about(self.obj.class.name.as_str(), " object can't be repeated"))
                }
            },
        }
    }

    /// Item assignment (a value given) or deletion (none): the native
    /// assignment slot, with no fallback.
    fn ass_item(&self, i: isize, value: Option<ObjectId>) -> (r: SeqAction)
        ensures
            match self.table().ass_item {
                Some(f) => r == SeqAction::Native(f),
                None => fails_with(
                    r,
                    self.class_name(),
                    " is not a sequence or doesn't support item "@ + verb(value),
                ),
            },
    {
        if let Some(f) = self.methods().ass_item {
            return SeqAction::Native(f);
        }
        let what = if value.is_some() {
            "assignment"
        } else {
            "deletion"
        };
        let rest = String::from_str(" is not a sequence or doesn't support item ").concat(what);
        SeqAction::Fail(type_error_about(self.obj.class.name.as_str(), rest.as_str()))
    }

    /// Assigning `value` to item `i`.
    pub fn set_item(&self, i: isize, value: ObjectId) -> (r: SeqAction)
        ensures
            self.set_item_result(i, value, r),

    {
        self.ass_item(i, Some(value))
    }

    /// Deleting item `i`.
    pub fn del_item(&self, i: isize) -> (r: SeqAction)
        ensures
            self.del_item_result(i, r),

    {
        self.ass_item(i, None)
    }
    /// Reading the slice `start:stop`: the subscript slot of the nearest
    /// mapping table in the ancestry, never the sequence table.
    pub fn get_slice(&self, start: isize, stop: isize) -> (r: SeqAction)
        ensures
            self.get_slice_result(start, stop, r),

    {
        if let Some(m) = find_mapping_slot(&self.obj.class.mro) {
            if let Some(f) = m.subscript {
                return SeqAction::Subscript(f, PySlice { start, stop });
            }
        }
        SeqAction::Fail(type_error_about(self.obj.class.name.as_str(), " object is unsliceable"))
    }

    /// Slice assignment (a value given) or deletion (none): the subscript
    /// assignment slot of the nearest mapping table in the ancestry.
    fn ass_slice(&self, start: isize, stop: isize, value: Option<ObjectId>) -> (r: SeqAction)
        ensures
            match resolved_mapping(self.object()) {
                Some(m) if m.ass_subscript is Some => r == SeqAction::Subscript(
                    m.ass_subscript->Some_0,
                    PySlice { start, stop },
                ),
                _ => fails_with(
                    r,
                    self.class_name(),
                    " object doesn't support slice "@ + verb(value),
                ),
            },
    {
        if let Some(m) = find_mapping_slot(&self.obj.class.mro) {
            if let Some(f) = m.ass_subscript {
                return SeqAction::Subscript(f, PySlice { start, stop });
            }
        }
        let what = if value.is_some() {
            "assignment"
        } else {
            "deletion"
        };
        let rest = String::from_str(" object doesn't support slice ").concat(what);
        SeqAction::Fail(type_error_about(self.obj.class.name.as_str(), rest.as_str()))
    }

    /// Assigning `value` to the slice `start:stop`.
    pub fn set_slice(&self, start: isize, stop: isize, value: ObjectId) -> (r: SeqAction)
        ensures
            self.set_slice_result(start, stop, value, r),

    {
        self.ass_slice(start, stop, Some(value))
    }

    /// Deleting the slice `start:stop`.
    pub fn del_slice(&self, start: isize, stop: isize) -> (r: SeqAction)
        ensures
            self.del_slice_result(start, stop, r),

    {
        self.ass_slice(start, stop, None)
    }

    /// Coercion to a tuple: a tuple is returned as it is, a list's elements
    /// are copied, anything else is iterated.
    pub fn tuple(&self) -> (r: TupleAction)
        ensures
            self.object().class.kind == ClassKind::Tuple ==> r is Same,
            self.object().class.kind == ClassKind::List ==> r is Copy && r->Copy_0@
                == self.object().items@,
            self.object().class.kind != ClassKind::Tuple && self.object().class.kind
                != ClassKind::List ==> r is Iterate,
    {
        match self.obj.class.kind {
            ClassKind::Tuple => TupleAction::Same,
            ClassKind::List => TupleAction::Copy(self.obj.items.clone()),
            _ => TupleAction::Iterate,
        }
    }

    /// Coercion to a new list, built from what iterating the object produced
    /// (each element, or the error that ended the iteration).
    pub fn list(&self, items: Vec<PyResult<ObjectId>>) -> (r: PyResult<Vec<ObjectId>>)
        ensures
            collects(r, items@),
    {
        collect_items(items)
    }

    /// Membership: the native contains slot, else iteration (see
    /// `contains_by_iteration`).
    pub fn contains(&self) -> (r: SeqAction)
        ensures
            self.contains_result(r),

    {
        match self.methods().contains {
            Some(f) => SeqAction::Native(f),
            None => SeqAction::Iterate,
        }
    }

    /// Counts the elements equal to the target. `outcomes` holds, in
    /// iteration order, the result of getting each element and comparing it
    /// with the target; the table is not consulted.
    pub fn count(&self, outcomes: &Vec<PyResult<bool>>) -> (r: PyResult<usize>)
        ensures
            self.count_result(outcomes@, r),

    {
        let mut n: usize = 0;
        let mut i: usize = 0;
        while i < outcomes.len()
            invariant
                i <= outcomes@.len(),
                n <= isize::MAX,
                count_scan(outcomes@, 0, 0) == count_scan(outcomes@, i as int, n as int),
            decreases outcomes@.len() - i,
        {
            match &outcomes[i] {
                Err(e) => return Err(e.clone()),
                Ok(true) => {
                    if n == isize::MAX as usize {
                        return Err(overflow_error());
                    }
                    n = n + 1;
                },
                Ok(false) => {},
            }
            i = i + 1;
        }
        Ok(n)
    }

    /// The position of the first element equal to the target, with
    /// `outcomes` as for `count`; the table is not consulted.
    pub fn index(&self, outcomes: &Vec<PyResult<bool>>) -> (r: PyResult<usize>)
        ensures
            self.index_result(outcomes@, r),

    {
        let mut index: isize = -1;
        let mut i: usize = 0;
        while i < outcomes.len()
            invariant
                i <= outcomes@.len(),
                index == i - 1,
                index_scan(outcomes@, 0) == index_scan(outcomes@, i as int),
            decreases outcomes@.len() - i,
        {
            if index == isize::MAX {
                return Err(overflow_error());
            }
            index = index + 1;
            match &outcomes[i] {
                Err(e) => return Err(e.clone()),
                Ok(true) => return Ok(index as usize),
                Ok(false) => {},
            }
            i = i + 1;
        }
        Err(not_found_error())
    }
}

/// Membership by iteration, with `outcomes` as for `count`: true at the first
/// match, the first error raised before one, else false.
pub fn contains_by_iteration(outcomes: &Vec<PyResult<bool>>) -> (r: PyResult<bool>)
    ensures
        r == contains_scan(outcomes@, 0),
{
    let mut i: usize = 0;
    while i < outcomes.len()
        invariant
            i <= outcomes@.len(),
            contains_scan(outcomes@, 0) == contains_scan(outcomes@, i as int),
        decreases outcomes@.len() - i,
    {
        match &outcomes[i] {
            Err(e) => return Err(e.clone()),
            Ok(true) => return Ok(true),
            Ok(false) => {},
        }
        i = i + 1;
    }
    Ok(false)
}

/// The elements that iterating an object produced, or the first error
/// raised: the new tuple or list of a coercion.
pub fn collect_items(items: Vec<PyResult<ObjectId>>) -> (r: PyResult<Vec<ObjectId>>)
    ensures
        collects(r, items@),
{
    try_collect_items(items)
}

} // verus!
