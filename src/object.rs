use vstd::prelude::*;

verus! {

/// The identity of a runtime object.
pub type ObjectId = u64;

/// A handle on a native operation that a type registers in one of its slots;
/// the runtime calls it when the dispatch below selects it.
#[derive(Clone, Copy, Debug, PartialEq, Eq, Structural)]
pub struct SlotFn {
    pub id: u64,
}

/// What a type natively supports of the sequence protocol: one optional
/// operation per slot.
#[derive(Clone, Copy, Debug)]
pub struct PySequenceMethods {
    pub length: Option<SlotFn>,
    pub concat: Option<SlotFn>,
    pub repeat: Option<SlotFn>,
    pub item: Option<SlotFn>,
    pub ass_item: Option<SlotFn>,
    pub contains: Option<SlotFn>,
    pub inplace_concat: Option<SlotFn>,
    pub inplace_repeat: Option<SlotFn>,
}

/// The table with every slot empty.
pub open spec fn empty_table() -> PySequenceMethods {
    PySequenceMethods {
        length: None,
        concat: None,
        repeat: None,
        item: None,
        ass_item: None,
        contains: None,
        inplace_concat: None,
        inplace_repeat: None,
    }
}

impl PySequenceMethods {
    /// The shared table of a type that supports none of the protocol.
    pub fn not_implemented() -> (r: Self)
        ensures
            r == empty_table(),
    {
        PySequenceMethods {
            length: None,
            concat: None,
            repeat: None,
            item: None,
            ass_item: None,
            contains: None,
            inplace_concat: None,
            inplace_repeat: None,
        }
    }
}

/// The view's method table: the shared empty table, or one of its own.
#[derive(Clone, Copy, Debug)]
pub enum MethodsCow {
    NotImplemented,
    Owned(PySequenceMethods),
}

impl MethodsCow {
    /// The table this stands for.
    pub open spec fn table(self) -> PySequenceMethods {
        match self {
            MethodsCow::NotImplemented => empty_table(),
            MethodsCow::Owned(t) => t,
        }
    }
}

/// The subscript slots of the mapping protocol, through which slices go.
#[derive(Clone, Copy, Debug)]
pub struct PyMappingMethods {
    pub subscript: Option<SlotFn>,
    pub ass_subscript: Option<SlotFn>,
}

/// The protocol slots that one type of an ancestry declares itself.
#[derive(Clone, Copy, Debug)]
pub struct TypeSlots {
    pub as_sequence: Option<PySequenceMethods>,
    pub as_mapping: Option<PyMappingMethods>,
}

/// The builtin types that the protocol tells apart by exact type.
#[derive(Clone, Copy, Debug, PartialEq, Eq, Structural)]
pub enum ClassKind {
    Dict,
    Tuple,
    List,
    Other,
}

/// A runtime type: its name, which builtin it is exactly (if any), and its
/// ancestry, most derived first, starting with the type itself.
#[derive(Clone, Debug)]
pub struct PyClass {
    pub name: String,
    pub kind: ClassKind,
    pub mro: Vec<TypeSlots>,
}

/// A runtime object as the protocol sees it. `items` is the backing storage of
/// a list; other objects leave it empty.
#[derive(Clone, Debug)]
pub struct PyObject {
    pub id: ObjectId,
    pub class: PyClass,
    pub items: Vec<ObjectId>,
}

/// The first sequence table declared in `mro` at position `i` or after.
pub open spec fn sequence_slot_from(mro: Seq<TypeSlots>, i: int) -> Option<PySequenceMethods>
    decreases mro.len() - i,
{
    if i < 0 || i >= mro.len() {
        None
    } else if mro[i].as_sequence.is_some() {
        mro[i].as_sequence
    } else {
        sequence_slot_from(mro, i + 1)
    }
}

/// The first mapping table declared in `mro` at position `i` or after.
pub open spec fn mapping_slot_from(mro: Seq<TypeSlots>, i: int) -> Option<PyMappingMethods>
    decreases mro.len() - i,
{
    if i < 0 || i >= mro.len() {
        None
    } else if mro[i].as_mapping.is_some() {
        mro[i].as_mapping
    } else {
        mapping_slot_from(mro, i + 1)
    }
}

/// The sequence table that an object's type resolves to: the nearest one in
/// its ancestry, except for the exact dict type, which never resolves to one.
pub open spec fn resolved_table(obj: PyObject) -> PySequenceMethods {
    if obj.class.kind == ClassKind::Dict {
        empty_table()
    } else {
        match sequence_slot_from(obj.class.mro@, 0) {
            Some(t) => t,
            None => empty_table(),
        }
    }
}

/// The mapping table nearest in an object's ancestry, if any.
pub open spec fn resolved_mapping(obj: PyObject) -> Option<PyMappingMethods> {
    mapping_slot_from(obj.class.mro@, 0)
}

/// Walks the ancestry for the nearest sequence table.
pub fn find_sequence_slot(mro: &Vec<TypeSlots>) -> (r: Option<PySequenceMethods>)
    ensures
        r == sequence_slot_from(mro@, 0),
{
    let mut i: usize = 0;
    while i < mro.len()
        invariant
            i <= mro@.len(),
            sequence_slot_from(mro@, 0) == sequence_slot_from(mro@, i as int),
        decreases mro@.len() - i,
    {
        if mro[i].as_sequence.is_some() {
            return mro[i].as_sequence;
        }
        i = i + 1;
    }
    None
}

/// Walks the ancestry for the nearest mapping table.
pub fn find_mapping_slot(mro: &Vec<TypeSlots>) -> (r: Option<PyMappingMethods>)
    ensures
        r == mapping_slot_from(mro@, 0),
{
    let mut i: usize = 0;
    while i < mro.len()
        invariant
            i <= mro@.len(),
            mapping_slot_from(mro@, 0) == mapping_slot_from(mro@, i as int),
        decreases mro@.len() - i,
    {
        if mro[i].as_mapping.is_some() {
            return mro[i].as_mapping;
        }
        i = i + 1;
    }
    None
}

/// Resolves the sequence table of an object's type; a type without one gets
/// the shared empty table.
pub fn resolve_methods(obj: &PyObject) -> (r: MethodsCow)
    ensures
        r.table() == resolved_table(*obj),
        (obj.class.kind == ClassKind::Dict || sequence_slot_from(obj.class.mro@, 0) is None)
            ==> r is NotImplemented,
{
    if obj.class.kind != ClassKind::Dict {
        if let Some(t) = find_sequence_slot(&obj.class.mro) {
            return MethodsCow::Owned(t);
        }
    }
    MethodsCow::NotImplemented
}

} // verus!
