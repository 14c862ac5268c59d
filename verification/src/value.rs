//! The tagged-union object model of the ACPI namespace.
//!
//! Every named object firmware can declare — buffers, packages, methods,
//! devices, operation regions, and the rest — is one variant of
//! [`AmlValue`]. Firmware bytecode is dynamically typed, so the interpreter
//! must check the kind of a value at every point of use; the narrowing
//! accessors (`get_as_*`) centralize that check as strict, fallible
//! extraction: they yield the underlying data only when the variant is
//! exactly the requested kind, and the type-mismatch error otherwise.
//!
//! The abstract state of a value is its view, a [`AmlValueView`] tree over
//! mathematical sequences; all contracts in this crate speak of views.

use vstd::prelude::*;

use crate::accessor::Accessor;

verus! {

/// The one error this core raises: a narrowing accessor was invoked
/// against a variant other than the requested kind.
#[derive(Clone, Copy, PartialEq, Eq, Structural, Debug)]
pub enum AmlError {
    AmlValueError,
}

/// The hardware address space an operation region windows onto.
#[derive(Clone, Copy, PartialEq, Eq, Structural, Debug)]
pub enum RegionSpace {
    SystemMemory,
    SystemIO,
    PCIConfig,
    EmbeddedControl,
    SMBus,
    SystemCMOS,
    PciBarTarget,
    IPMI,
    GeneralPurposeIO,
    GenericSerialBus,
    UserDefined(u8),
}

/// The access width a field unit reads and writes with.
#[derive(Clone, Copy, PartialEq, Eq, Structural, Debug)]
pub enum AccessType {
    AnyAcc,
    ByteAcc,
    WordAcc,
    DWordAcc,
    QWordAcc,
    BufferAcc,
}

/// What happens to the bits of a field's container that the field does not
/// cover when the field is written.
#[derive(Clone, Copy, PartialEq, Eq, Structural, Debug)]
pub enum UpdateRule {
    Preserve,
    WriteAsOnes,
    WriteAsZeros,
}

/// The access descriptor of a field unit: width, update rule and whether
/// the global lock must be held around accesses.
#[derive(Clone, Copy, PartialEq, Eq, Structural, Debug)]
pub struct FieldFlags {
    pub access_type: AccessType,
    pub lock_rule: bool,
    pub update_rule: UpdateRule,
}

/// How a field unit locates its backing storage. The string-carrying
/// variants are weak references: a namespace path resolved later through
/// the shared namespace, never a direct alias.
pub enum FieldSelector {
    /// Addressed within an operation region, named by path.
    Region(String),
    /// Addressed within a banked region: the bank selector value must be
    /// written before the region is accessed.
    Bank { region: String, bank_selector: Box<AmlValue> },
    /// Addressed indirectly through an index register and a data register,
    /// each named by path.
    Index { index_selector: String, data_selector: String },
}

/// The five ways AML produces an indirection. Slot variants name a
/// positional slot of the running method; `NamedObj` is a weak reference by
/// path; `Object` and `Index` own their referent outright.
pub enum ObjectReference {
    ArgObj(u8),
    LocalObj(u8),
    NamedObj(String),
    Object(Box<AmlValue>),
    Index(Box<AmlValue>, Box<AmlValue>),
}

/// A callable control method: an immutable record created once when the
/// namespace loader decodes a method definition and never mutated by an
/// invocation.
///
/// `serialized` and `sync_level` are metadata for a caller-side mutual
/// exclusion policy; this core does not itself serialize invocations.
pub struct Method {
    /// Declared number of arguments, 0 through 7.
    pub arg_count: u8,
    /// Whether concurrent invocations must be serialized by the caller.
    pub serialized: bool,
    /// Synchronization level, 0 through 15.
    pub sync_level: u8,
    /// The method body: a raw AML term list.
    pub term_list: Vec<u8>,
}

impl Method {
    /// The ranges the ACPI method grammar gives the metadata fields.
    pub open spec fn wf(&self) -> bool {
        &&& self.arg_count <= 7
        &&& self.sync_level <= 15
    }

    /// A method record over the given metadata and body.
    pub fn new(arg_count: u8, serialized: bool, sync_level: u8, term_list: Vec<u8>) -> (r: Method)
        requires
            arg_count <= 7,
            sync_level <= 15,
        ensures
            r.wf(),
            r.arg_count == arg_count,
            r.serialized == serialized,
            r.sync_level == sync_level,
            r.term_list@ == term_list@,
    {
        Method { arg_count, serialized, sync_level, term_list }
    }
}

/// The universal representation of an ACPI namespace object.
///
/// Variants that nest values own them exclusively — the structure is a
/// tree, never a cycle — except where a variant carries a symbolic
/// namespace path (a `String`) to be resolved later through the shared
/// namespace tree.
#[allow(inconsistent_fields)]
pub enum AmlValue {
    /// No value at all.
    Absent,
    /// A declared slot whose value has not been computed yet.
    Uninitialized,
    /// A raw byte buffer.
    Buffer(Vec<u8>),
    /// A bit-addressed window into a source buffer; offset and length are
    /// nested values because firmware computes them.
    BufferField { source_buf: Box<AmlValue>, index: Box<AmlValue>, length: Box<AmlValue> },
    /// A handle on a secondary system description table: an index into the
    /// XSDT.
    DDBHandle(u32),
    /// The debug sink; writes to it are diagnostics.
    DebugObject,
    /// A device, owning the paths of the objects declared under it.
    Device(Vec<String>),
    /// A synchronization event with its pending signal count.
    Event(u64),
    /// A bit/byte-addressed view into an operation region or other backing
    /// storage.
    FieldUnit {
        selector: FieldSelector,
        connection: Box<AmlValue>,
        flags: FieldFlags,
        offset: usize,
        length: usize,
    },
    /// A computed integer.
    Integer(u64),
    /// An integer literal, distinguished from a computed integer to mark
    /// provenance; narrowing is variant-exact between the two.
    IntegerConstant(u64),
    /// A callable control method.
    Method(Method),
    /// A mutex: its synchronization level and the token of its current
    /// owner, if held.
    Mutex((u8, Option<u64>)),
    /// An indirection.
    ObjectReference(ObjectReference),
    /// A window onto a hardware address space; offset and length are nested
    /// values because firmware computes them.
    OperationRegion {
        region: RegionSpace,
        offset: Box<AmlValue>,
        len: Box<AmlValue>,
        accessor: Accessor,
        accessed_by: Option<u64>,
    },
    /// An ordered package of nested values.
    Package(Vec<AmlValue>),
    /// A text string.
    String(String),
    /// A power resource: its system level, resource order, and the paths of
    /// its member objects.
    PowerResource { system_level: u8, resource_order: u16, obj_list: Vec<String> },
    /// A processor descriptor: its id, optional control-block address, and
    /// the paths of its member objects.
    Processor { proc_id: u8, p_blk: Option<u32>, obj_list: Vec<String> },
    /// An opaque data buffer produced by a resource template.
    RawDataBuffer(Vec<u8>),
    /// A thermal zone, owning the paths of its member objects.
    ThermalZone(Vec<String>),
}

/// The abstract state of a [`FieldSelector`].
#[verifier::ext_equal]
pub enum FieldSelectorView {
    Region(Seq<char>),
    Bank { region: Seq<char>, bank_selector: Box<AmlValueView> },
    Index { index_selector: Seq<char>, data_selector: Seq<char> },
}

/// The abstract state of an [`ObjectReference`].
#[verifier::ext_equal]
pub enum ObjectReferenceView {
    ArgObj(u8),
    LocalObj(u8),
    NamedObj(Seq<char>),
    Object(Box<AmlValueView>),
    Index(Box<AmlValueView>, Box<AmlValueView>),
}

/// The abstract state of a [`Method`].
#[verifier::ext_equal]
pub struct MethodView {
    pub arg_count: u8,
    pub serialized: bool,
    pub sync_level: u8,
    pub term_list: Seq<u8>,
}

/// The abstract state of an [`AmlValue`]: the same tree over mathematical
/// sequences. Every contract in this crate describes values through this
/// type.
#[verifier::ext_equal]
#[allow(inconsistent_fields)]
pub enum AmlValueView {
    Absent,
    Uninitialized,
    Buffer(Seq<u8>),
    BufferField { source_buf: Box<AmlValueView>, index: Box<AmlValueView>, length: Box<AmlValueView> },
    DDBHandle(u32),
    DebugObject,
    Device(Seq<Seq<char>>),
    Event(u64),
    FieldUnit {
        selector: FieldSelectorView,
        connection: Box<AmlValueView>,
        flags: FieldFlags,
        offset: usize,
        length: usize,
    },
    Integer(u64),
    IntegerConstant(u64),
    Method(MethodView),
    Mutex((u8, Option<u64>)),
    ObjectReference(ObjectReferenceView),
    OperationRegion {
        region: RegionSpace,
        offset: Box<AmlValueView>,
        len: Box<AmlValueView>,
        accessor: Seq<u64>,
        accessed_by: Option<u64>,
    },
    Package(Seq<AmlValueView>),
    String(Seq<char>),
    PowerResource { system_level: u8, resource_order: u16, obj_list: Seq<Seq<char>> },
    Processor { proc_id: u8, p_blk: Option<u32>, obj_list: Seq<Seq<char>> },
    RawDataBuffer(Seq<u8>),
    ThermalZone(Seq<Seq<char>>),
}

/// The views of a list of namespace paths.
pub open spec fn paths_view(paths: Vec<String>) -> Seq<Seq<char>> {
    paths@.map_values(|s: String| s@)
}

/// The views of the values of a package, in order.
pub open spec fn values_view(values: Seq<AmlValue>) -> Seq<AmlValueView>
    decreases values,
{
    Seq::new(
        values.len(),
        |i: int|
            if 0 <= i < values.len() {
                value_view(values[i])
            } else {
                AmlValueView::Absent
            },
    )
}

/// The abstract state of a field selector.
pub open spec fn selector_view(s: FieldSelector) -> FieldSelectorView
    decreases s,
{
    match s {
        FieldSelector::Region(region) => FieldSelectorView::Region(region@),
        FieldSelector::Bank { region, bank_selector } => FieldSelectorView::Bank {
            region: region@,
            bank_selector: Box::new(value_view(*bank_selector)),
        },
        FieldSelector::Index { index_selector, data_selector } => FieldSelectorView::Index {
            index_selector: index_selector@,
            data_selector: data_selector@,
        },
    }
}

/// The abstract state of an object reference.
pub open spec fn reference_view(r: ObjectReference) -> ObjectReferenceView
    decreases r,
{
    match r {
        ObjectReference::ArgObj(n) => ObjectReferenceView::ArgObj(n),
        ObjectReference::LocalObj(n) => ObjectReferenceView::LocalObj(n),
        ObjectReference::NamedObj(path) => ObjectReferenceView::NamedObj(path@),
        ObjectReference::Object(v) => ObjectReferenceView::Object(Box::new(value_view(*v))),
        ObjectReference::Index(collection, index) => ObjectReferenceView::Index(
            Box::new(value_view(*collection)),
            Box::new(value_view(*index)),
        ),
    }
}

/// The abstract state of a method record.
pub open spec fn method_view(m: Method) -> MethodView {
    MethodView {
        arg_count: m.arg_count,
        serialized: m.serialized,
        sync_level: m.sync_level,
        term_list: m.term_list@,
    }
}

/// The abstract state of a value: the same tree, over sequences.
pub open spec fn value_view(v: AmlValue) -> AmlValueView
    decreases v,
{
    match v {
        AmlValue::Absent => AmlValueView::Absent,
        AmlValue::Uninitialized => AmlValueView::Uninitialized,
        AmlValue::Buffer(b) => AmlValueView::Buffer(b@),
        AmlValue::BufferField { source_buf, index, length } => AmlValueView::BufferField {
            source_buf: Box::new(value_view(*source_buf)),
            index: Box::new(value_view(*index)),
            length: Box::new(value_view(*length)),
        },
        AmlValue::DDBHandle(i) => AmlValueView::DDBHandle(i),
        AmlValue::DebugObject => AmlValueView::DebugObject,
        AmlValue::Device(paths) => AmlValueView::Device(paths_view(paths)),
        AmlValue::Event(count) => AmlValueView::Event(count),
        AmlValue::FieldUnit { selector, connection, flags, offset, length } => AmlValueView::FieldUnit {
            selector: selector_view(selector),
            connection: Box::new(value_view(*connection)),
            flags: flags,
            offset: offset,
            length: length,
        },
        AmlValue::Integer(i) => AmlValueView::Integer(i),
        AmlValue::IntegerConstant(i) => AmlValueView::IntegerConstant(i),
        AmlValue::Method(m) => AmlValueView::Method(method_view(m)),
        AmlValue::Mutex(m) => AmlValueView::Mutex(m),
        AmlValue::ObjectReference(r) => AmlValueView::ObjectReference(reference_view(r)),
        AmlValue::OperationRegion { region, offset, len, accessor, accessed_by } => AmlValueView::OperationRegion {
            region: region,
            offset: Box::new(value_view(*offset)),
            len: Box::new(value_view(*len)),
            accessor: accessor@,
            accessed_by: accessed_by,
        },
        AmlValue::Package(values) => AmlValueView::Package(values_view(values@)),
        AmlValue::String(s) => AmlValueView::String(s@),
        AmlValue::PowerResource { system_level, resource_order, obj_list } => AmlValueView::PowerResource {
            system_level: system_level,
            resource_order: resource_order,
            obj_list: paths_view(obj_list),
        },
        AmlValue::Processor { proc_id, p_blk, obj_list } => AmlValueView::Processor {
            proc_id: proc_id,
            p_blk: p_blk,
            obj_list: paths_view(obj_list),
        },
        AmlValue::RawDataBuffer(b) => AmlValueView::RawDataBuffer(b@),
        AmlValue::ThermalZone(paths) => AmlValueView::ThermalZone(paths_view(paths)),
    }
}

impl View for FieldSelector {
    type V = FieldSelectorView;

    open spec fn view(&self) -> FieldSelectorView {
        selector_view(*self)
    }
}

impl View for ObjectReference {
    type V = ObjectReferenceView;

    open spec fn view(&self) -> ObjectReferenceView {
        reference_view(*self)
    }
}

impl View for Method {
    type V = MethodView;

    open spec fn view(&self) -> MethodView {
        method_view(*self)
    }
}

impl View for AmlValue {
    type V = AmlValueView;

    open spec fn view(&self) -> AmlValueView {
        value_view(*self)
    }
}

/// What narrowing to the event kind yields: the pending signal count for an
/// event, the type-mismatch error for every other variant.
pub open spec fn event_narrowing(v: AmlValueView) -> Result<u64, AmlError> {
    match v {
        AmlValueView::Event(count) => Ok(count),
        _ => Err(AmlError::AmlValueError),
    }
}

/// What narrowing to the string kind yields.
pub open spec fn string_narrowing(v: AmlValueView) -> Result<Seq<char>, AmlError> {
    match v {
        AmlValueView::String(s) => Ok(s),
        _ => Err(AmlError::AmlValueError),
    }
}

/// What narrowing to the buffer kind yields.
pub open spec fn buffer_narrowing(v: AmlValueView) -> Result<Seq<u8>, AmlError> {
    match v {
        AmlValueView::Buffer(b) => Ok(b),
        _ => Err(AmlError::AmlValueError),
    }
}

/// What narrowing to the package kind yields.
pub open spec fn package_narrowing(v: AmlValueView) -> Result<Seq<AmlValueView>, AmlError> {
    match v {
        AmlValueView::Package(values) => Ok(values),
        _ => Err(AmlError::AmlValueError),
    }
}

/// What narrowing to the integer-constant kind yields. Narrowing is
/// variant-exact: a computed `Integer` is not substituted for a requested
/// `IntegerConstant`.
pub open spec fn integer_narrowing(v: AmlValueView) -> Result<u64, AmlError> {
    match v {
        AmlValueView::IntegerConstant(i) => Ok(i),
        _ => Err(AmlError::AmlValueError),
    }
}

/// What narrowing to the method kind yields.
pub open spec fn method_narrowing(v: AmlValueView) -> Result<MethodView, AmlError> {
    match v {
        AmlValueView::Method(m) => Ok(m),
        _ => Err(AmlError::AmlValueError),
    }
}

impl AmlValue {
    /// Narrows to the event kind: yields the pending signal count, or the
    /// type-mismatch error when the variant is not `Event`.
    pub fn get_as_event(&self) -> (r: Result<u64, AmlError>)
        ensures
            r == event_narrowing(self@),
    {
        match self {
            AmlValue::Event(count) => Ok(*count),
            _ => Err(AmlError::AmlValueError),
        }
    }

    /// Narrows to the string kind: yields a copy of the text, or the
    /// type-mismatch error when the variant is not `String`.
    pub fn get_as_string(&self) -> (r: Result<String, AmlError>)
        ensures
            match r {
                Ok(s) => string_narrowing(self@) == Ok::<Seq<char>, AmlError>(s@),
                Err(e) => string_narrowing(self@) == Err::<Seq<char>, AmlError>(e),
            },
    {
        match self {
            AmlValue::String(s) => Ok(s.clone()),
            _ => Err(AmlError::AmlValueError),
        }
    }

    /// Narrows to the buffer kind: yields a copy of the bytes, or the
    /// type-mismatch error when the variant is not `Buffer`.
    pub fn get_as_buffer(&self) -> (r: Result<Vec<u8>, AmlError>)
        ensures
            match r {
                Ok(b) => buffer_narrowing(self@) == Ok::<Seq<u8>, AmlError>(b@),
                Err(e) => buffer_narrowing(self@) == Err::<Seq<u8>, AmlError>(e),
            },
    {
        match self {
            AmlValue::Buffer(b) => Ok(clone_bytes(b)),
            _ => Err(AmlError::AmlValueError),
        }
    }

    /// Narrows to the package kind: yields a copy of the ordered values, or
    /// the type-mismatch error when the variant is not `Package`.
    pub fn get_as_package(&self) -> (r: Result<Vec<AmlValue>, AmlError>)
        ensures
            match r {
                Ok(p) => package_narrowing(self@) == Ok::<Seq<AmlValueView>, AmlError>(
                    values_view(p@),
                ),
                Err(e) => package_narrowing(self@) == Err::<Seq<AmlValueView>, AmlError>(e),
            },
    {
        match self {
            AmlValue::Package(values) => {
                let copy = clone_values(values);
                proof {
                    assert(values_view(copy@) =~= values_view(values@));
                }
                Ok(copy)
            },
            _ => Err(AmlError::AmlValueError),
        }
    }

    /// Narrows to the integer-constant kind: yields the literal, or the
    /// type-mismatch error when the variant is not `IntegerConstant`. A
    /// computed `Integer` is rejected: narrowing never coerces between
    /// related kinds.
    pub fn get_as_integer(&self) -> (r: Result<u64, AmlError>)
        ensures
            r == integer_narrowing(self@),
    {
        match self {
            AmlValue::IntegerConstant(i) => Ok(*i),
            _ => Err(AmlError::AmlValueError),
        }
    }

    /// Narrows to the method kind: yields a copy of the method record, or
    /// the type-mismatch error when the variant is not `Method`.
    pub fn get_as_method(&self) -> (r: Result<Method, AmlError>)
        ensures
            match r {
                Ok(m) => method_narrowing(self@) == Ok::<MethodView, AmlError>(m@),
                Err(e) => method_narrowing(self@) == Err::<MethodView, AmlError>(e),
            },
    {
        match self {
            AmlValue::Method(m) => Ok(m.clone()),
            _ => Err(AmlError::AmlValueError),
        }
    }
}

/// For any value whose view holds text `s`, string narrowing yields exactly
/// `s`; for every other variant it yields the type-mismatch error.
pub proof fn lemma_string_narrowing_exact(v: AmlValueView)
    ensures
        v is String ==> string_narrowing(v) == Ok::<Seq<char>, AmlError>(v->String_0),
        !(v is String) ==> string_narrowing(v) == Err::<Seq<char>, AmlError>(
            AmlError::AmlValueError,
        ),
{
}

/// Package round trip: narrowing a package built from an ordered sequence
/// of values yields that sequence, unchanged and in order.
pub proof fn lemma_package_round_trip(values: Seq<AmlValueView>)
    ensures
        package_narrowing(AmlValueView::Package(values)) == Ok::<Seq<AmlValueView>, AmlError>(
            values,
        ),
{
}

/// Copies a byte vector.
fn clone_bytes(bytes: &Vec<u8>) -> (r: Vec<u8>)
    ensures
        r@ == bytes@,
{
    let mut r: Vec<u8> = Vec::new();
    let mut i: usize = 0;
    while i < bytes.len()
        invariant
            i <= bytes@.len(),
            r@ == bytes@.subrange(0, i as int),
        decreases bytes@.len() - i,
    {
        r.push(bytes[i]);
        i = i + 1;
    }
    assert(r@ == bytes@);
    r
}

/// Copies a list of namespace paths.
fn clone_paths(paths: &Vec<String>) -> (r: Vec<String>)
    ensures
        paths_view(r) == paths_view(*paths),
{
    let mut r: Vec<String> = Vec::new();
    let mut i: usize = 0;
    while i < paths.len()
        invariant
            i <= paths@.len(),
            r@.len() == i,
            forall|j: int| 0 <= j < i ==> r@[j]@ == paths@[j]@,
        decreases paths@.len() - i,
    {
        r.push(paths[i].clone());
        i = i + 1;
    }
    proof {
        assert(paths_view(r) =~= paths_view(*paths));
    }
    r
}

/// Copies every value of a package, preserving order and abstract state.
fn clone_values(values: &Vec<AmlValue>) -> (r: Vec<AmlValue>)
    ensures
        r@.len() == values@.len(),
        forall|i: int| 0 <= i < values@.len() ==> value_view(r@[i]) == value_view(values@[i]),
    decreases values@,
{
    let mut r: Vec<AmlValue> = Vec::new();
    let mut i: usize = 0;
    while i < values.len()
        invariant
            i <= values@.len(),
            r@.len() == i,
            forall|j: int| 0 <= j < i ==> value_view(r@[j]) == value_view(values@[j]),
        decreases values@.len() - i,
    {
        r.push(clone_value(&values[i]));
        i = i + 1;
    }
    r
}

/// Copies a value: the copy owns its own tree and has the same abstract
/// state as the original.
pub fn clone_value(v: &AmlValue) -> (r: AmlValue)
    ensures
        r@ == v@,
    decreases *v,
{
    match v {
        AmlValue::Absent => AmlValue::Absent,
        AmlValue::Uninitialized => AmlValue::Uninitialized,
        AmlValue::Buffer(b) => AmlValue::Buffer(clone_bytes(b)),
        AmlValue::BufferField { source_buf, index, length } => AmlValue::BufferField {
            source_buf: Box::new(clone_value(source_buf)),
            index: Box::new(clone_value(index)),
            length: Box::new(clone_value(length)),
        },
        AmlValue::DDBHandle(i) => AmlValue::DDBHandle(*i),
        AmlValue::DebugObject => AmlValue::DebugObject,
        AmlValue::Device(paths) => AmlValue::Device(clone_paths(paths)),
        AmlValue::Event(count) => AmlValue::Event(*count),
        AmlValue::FieldUnit { selector, connection, flags, offset, length } => AmlValue::FieldUnit {
            selector: clone_selector(selector),
            connection: Box::new(clone_value(connection)),
            flags: *flags,
            offset: *offset,
            length: *length,
        },
        AmlValue::Integer(i) => AmlValue::Integer(*i),
        AmlValue::IntegerConstant(i) => AmlValue::IntegerConstant(*i),
        AmlValue::Method(m) => AmlValue::Method(m.clone()),
        AmlValue::Mutex(m) => AmlValue::Mutex(*m),
        AmlValue::ObjectReference(r) => AmlValue::ObjectReference(clone_reference(r)),
        AmlValue::OperationRegion { region, offset, len, accessor, accessed_by } => AmlValue::OperationRegion {
            region: *region,
            offset: Box::new(clone_value(offset)),
            len: Box::new(clone_value(len)),
            accessor: accessor.clone(),
            accessed_by: *accessed_by,
        },
        AmlValue::Package(values) => {
            let copy = clone_values(values);
            proof {
                assert(values_view(copy@) =~= values_view(values@));
            }
            AmlValue::Package(copy)
        },
        AmlValue::String(s) => AmlValue::String(s.clone()),
        AmlValue::PowerResource { system_level, resource_order, obj_list } => AmlValue::PowerResource {
            system_level: *system_level,
            resource_order: *resource_order,
            obj_list: clone_paths(obj_list),
        },
        AmlValue::Processor { proc_id, p_blk, obj_list } => AmlValue::Processor {
            proc_id: *proc_id,
            p_blk: *p_blk,
            obj_list: clone_paths(obj_list),
        },
        AmlValue::RawDataBuffer(b) => AmlValue::RawDataBuffer(clone_bytes(b)),
        AmlValue::ThermalZone(paths) => AmlValue::ThermalZone(clone_paths(paths)),
    }
}

/// Copies a field selector, preserving its abstract state.
pub fn clone_selector(s: &FieldSelector) -> (r: FieldSelector)
    ensures
        r@ == s@,
    decreases *s,
{
    match s {
        FieldSelector::Region(region) => FieldSelector::Region(region.clone()),
        FieldSelector::Bank { region, bank_selector } => FieldSelector::Bank {
            region: region.clone(),
            bank_selector: Box::new(clone_value(bank_selector)),
        },
        FieldSelector::Index { index_selector, data_selector } => FieldSelector::Index {
            index_selector: index_selector.clone(),
            data_selector: data_selector.clone(),
        },
    }
}

/// Copies an object reference, preserving its abstract state.
pub fn clone_reference(r: &ObjectReference) -> (res: ObjectReference)
    ensures
        res@ == r@,
    decreases *r,
{
    match r {
        ObjectReference::ArgObj(n) => ObjectReference::ArgObj(*n),
        ObjectReference::LocalObj(n) => ObjectReference::LocalObj(*n),
        ObjectReference::NamedObj(path) => ObjectReference::NamedObj(path.clone()),
        ObjectReference::Object(v) => ObjectReference::Object(Box::new(clone_value(v))),
        ObjectReference::Index(collection, index) => ObjectReference::Index(
            Box::new(clone_value(collection)),
            Box::new(clone_value(index)),
        ),
    }
}

impl Clone for Method {
    /// A copy of a method record has the same abstract state.
    fn clone(&self) -> (r: Method)
        ensures
            r@ == self@,
    {
        Method {
            arg_count: self.arg_count,
            serialized: self.serialized,
            sync_level: self.sync_level,
            term_list: clone_bytes(&self.term_list),
        }
    }
}

impl Clone for FieldSelector {
    /// A copy of a field selector has the same abstract state.
    fn clone(&self) -> (r: FieldSelector)
        ensures
            r@ == self@,
    {
        clone_selector(self)
    }
}

impl Clone for ObjectReference {
    /// A copy of an object reference has the same abstract state.
    fn clone(&self) -> (r: ObjectReference)
        ensures
            r@ == self@,
    {
        clone_reference(self)
    }
}

impl Clone for AmlValue {
    /// A copy of a value has the same abstract state.
    fn clone(&self) -> (r: AmlValue)
        ensures
            r@ == self@,
    {
        clone_value(self)
    }
}

} // verus!
