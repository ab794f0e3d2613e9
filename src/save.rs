use vstd::prelude::*;

verus! {

broadcast use vstd::std_specs::vec::axiom_vec_index_decreases,
    vstd::std_specs::vec::axiom_vec_decreases_to_view;

/// The mathematical content of a [`Variant`].
pub struct VariantModel {
    pub name: Seq<char>,
    pub variant_index: u32,
    pub variant: Seq<char>,
}

/// The mathematical content of an [`Error`]: its message and whether the
/// serializer itself raised it because the serde protocol was broken.
pub struct ErrorModel {
    pub message: Seq<char>,
    pub protocol: bool,
}

/// The mathematical model of a [`Save`] tree: strings become character
/// sequences, buffers become sequences, and persisted errors their model.
pub enum Tree {
    Bool(bool),
    I8(i8),
    I16(i16),
    I32(i32),
    I64(i64),
    I128(i128),
    U8(u8),
    U16(u16),
    U32(u32),
    U64(u64),
    U128(u128),
    F32(u32),
    F64(u64),
    Char(char),
    String(Seq<char>),
    ByteArray(Seq<u8>),
    Option(Option<Box<Tree>>),
    Unit,
    UnitStruct(Seq<char>),
    UnitVariant(VariantModel),
    NewTypeStruct { name: Seq<char>, value: Box<Tree> },
    NewTypeVariant { variant: VariantModel, value: Box<Tree> },
    Sequence(Seq<Tree>),
    Mapping(Seq<(Tree, Tree)>),
    Tuple(Seq<Tree>),
    TupleStruct { name: Seq<char>, values: Seq<Tree> },
    TupleVariant { variant: VariantModel, values: Seq<Tree> },
    Struct { name: Seq<char>, fields: Seq<(Seq<char>, Option<Tree>)> },
    StructVariant { variant: VariantModel, fields: Seq<(Seq<char>, Option<Tree>)> },
    Error(ErrorModel),
}

/// A complete serde serialization tree.
///
/// `E` is the payload of persisted errors. It is `Infallible` unless errors
/// are persisted, so that `Save::Error` cannot occur and a `match` may omit it.
///
/// Floating-point values are held as their IEEE 754 bit patterns
/// (`f32::to_bits`, `f64::to_bits`).
#[derive(Debug, PartialEq, PartialOrd)]
pub enum Save<E = core::convert::Infallible> {
    /// From `serialize_bool`.
    Bool(bool),
    /// From `serialize_i8`.
    I8(i8),
    /// From `serialize_i16`.
    I16(i16),
    /// From `serialize_i32`.
    I32(i32),
    /// From `serialize_i64`.
    I64(i64),
    /// From `serialize_i128`.
    I128(i128),
    /// From `serialize_u8`.
    U8(u8),
    /// From `serialize_u16`.
    U16(u16),
    /// From `serialize_u32`.
    U32(u32),
    /// From `serialize_u64`.
    U64(u64),
    /// From `serialize_u128`.
    U128(u128),
    /// From `serialize_f32`: the bits of the value.
    F32(u32),
    /// From `serialize_f64`: the bits of the value.
    F64(u64),
    /// From `serialize_char`.
    Char(char),
    /// From `serialize_str` or `collect_str`.
    String(String),
    /// From `serialize_bytes`.
    ByteArray(Vec<u8>),
    /// From `serialize_some` or `serialize_none`.
    Option(Option<Box<Save<E>>>),
    /// From `serialize_unit`.
    Unit,
    /// From `serialize_unit_struct`.
    UnitStruct(&'static str),
    /// From `serialize_unit_variant`.
    UnitVariant(Variant),
    /// From `serialize_newtype_struct`.
    NewTypeStruct { name: &'static str, value: Box<Save<E>> },
    /// From `serialize_newtype_variant`.
    NewTypeVariant { variant: Variant, value: Box<Save<E>> },
    /// From `serialize_seq`. Checks that the number of items matches the
    /// length hint, if one was given.
    Sequence(Vec<Save<E>>),
    /// From `serialize_map`: key/value pairs in the order they were given.
    /// Checks the length hint and that no key or value is orphaned;
    /// duplicate keys are kept.
    Mapping(Vec<(Save<E>, Save<E>)>),
    /// From `serialize_tuple`. Checks the declared length.
    Tuple(Vec<Save<E>>),
    /// From `serialize_tuple_struct`. Checks the declared length.
    TupleStruct { name: &'static str, values: Vec<Save<E>> },
    /// From `serialize_tuple_variant`. Checks the declared length.
    TupleVariant { variant: Variant, values: Vec<Save<E>> },
    /// From `serialize_struct`. A skipped field has `None`; an error found
    /// by the checks is a field named `"!error"`. Checks the declared length
    /// and that field names are unique.
    Struct { name: &'static str, fields: Vec<(&'static str, Option<Save<E>>)> },
    /// From `serialize_struct_variant`, checked as `Struct` is.
    StructVariant { variant: Variant, fields: Vec<(&'static str, Option<Save<E>>)> },
    /// A persisted error.
    Error(E),
}

/// Information about a serialized `enum` variant.
#[derive(Debug, Clone, Copy, Hash, PartialEq, Eq, PartialOrd, Ord)]
pub struct Variant {
    /// The name of the outer `enum`.
    pub name: &'static str,
    /// The index of this variant within the outer `enum`.
    pub variant_index: u32,
    /// The name of the variant.
    pub variant: &'static str,
}

impl View for Variant {
    type V = VariantModel;

    open spec fn view(&self) -> VariantModel {
        VariantModel { name: self.name@, variant_index: self.variant_index, variant: self.variant@ }
    }
}

/// An error of a value's own serialization, or one that the protocol checks
/// raised.
#[derive(Debug, PartialEq, Eq, PartialOrd, Ord, Hash, Clone)]
pub struct Error {
    msg: String,
    protocol: bool,
}

impl View for Error {
    type V = ErrorModel;

    closed spec fn view(&self) -> ErrorModel {
        ErrorModel { message: self.msg@, protocol: self.protocol }
    }
}

impl Error {
    /// An error raised by a value's own serialization.
    pub fn custom(msg: &str) -> (r: Error)
        ensures
            r@ == (ErrorModel { message: msg@, protocol: false }),
    {
        Error { msg: String::from_str(msg), protocol: false }
    }

    /// An error raised because the serde protocol was broken.
    pub(crate) fn protocol(msg: String) -> (r: Error)
        ensures
            r@ == (ErrorModel { message: msg@, protocol: true }),
    {
        Error { msg, protocol: true }
    }

    /// Whether the serde protocol was broken, as opposed to a value failing
    /// to serialize itself.
    pub fn is_protocol(&self) -> (r: bool)
        ensures
            r == self@.protocol,
    {
        self.protocol
    }

    /// The message of this error.
    pub fn message(&self) -> (r: &str)
        ensures
            r@ == self@.message,
    {
        self.msg.as_str()
    }
}

/// A type that can be persisted in a [`Save`] tree as an error.
pub trait ErrorPayload {
    spec fn model(&self) -> ErrorModel;

    /// The error that serializing this payload again raises: its message,
    /// as an error of the value's own.
    fn to_custom(&self) -> (r: Error)
        ensures
            r@ == (ErrorModel { message: self.model().message, protocol: false }),
    ;
}

impl ErrorPayload for Error {
    open spec fn model(&self) -> ErrorModel {
        self@
    }

    fn to_custom(&self) -> (r: Error) {
        Error { msg: self.msg.clone(), protocol: false }
    }
}

impl ErrorPayload for core::convert::Infallible {
    /// No value of this type exists: the model is never consulted.
    open spec fn model(&self) -> ErrorModel {
        ErrorModel { message: Seq::empty(), protocol: false }
    }

    fn to_custom(&self) -> (r: Error) {
        proof {
            reveal_strlit("");
            assert(""@ =~= Seq::<char>::empty());
        }
        Error::custom("")
    }
}

/// The models of a sequence of trees.
pub open spec fn trees_of<E: ErrorPayload>(v: Seq<Save<E>>) -> Seq<Tree>
    decreases v,
{
    Seq::new(v.len(), |i: int| if 0 <= i < v.len() { tree_of(v[i]) } else { Tree::Unit })
}

/// The models of a sequence of key/value pairs.
pub open spec fn pairs_of<E: ErrorPayload>(v: Seq<(Save<E>, Save<E>)>) -> Seq<(Tree, Tree)>
    decreases v,
{
    Seq::new(
        v.len(),
        |i: int|
            if 0 <= i < v.len() {
                (tree_of(v[i].0), tree_of(v[i].1))
            } else {
                (Tree::Unit, Tree::Unit)
            },
    )
}

/// The model of one struct field.
pub open spec fn field_of<E: ErrorPayload>(f: (&'static str, Option<Save<E>>)) -> (Seq<char>, Option<Tree>)
    decreases f,
{
    (f.0@, match f.1 {
        Some(x) => Some(tree_of(x)),
        None => None,
    })
}

/// The models of a sequence of struct fields.
pub open spec fn fields_of<E: ErrorPayload>(v: Seq<(&'static str, Option<Save<E>>)>) -> Seq<(Seq<char>, Option<Tree>)>
    decreases v,
{
    Seq::new(v.len(), |i: int| if 0 <= i < v.len() { field_of(v[i]) } else { (Seq::empty(), None) })
}

/// The model of a tree.
pub open spec fn tree_of<E: ErrorPayload>(s: Save<E>) -> Tree
    decreases s,
{
    match s {
        Save::Bool(v) => Tree::Bool(v),
        Save::I8(v) => Tree::I8(v),
        Save::I16(v) => Tree::I16(v),
        Save::I32(v) => Tree::I32(v),
        Save::I64(v) => Tree::I64(v),
        Save::I128(v) => Tree::I128(v),
        Save::U8(v) => Tree::U8(v),
        Save::U16(v) => Tree::U16(v),
        Save::U32(v) => Tree::U32(v),
        Save::U64(v) => Tree::U64(v),
        Save::U128(v) => Tree::U128(v),
        Save::F32(v) => Tree::F32(v),
        Save::F64(v) => Tree::F64(v),
        Save::Char(v) => Tree::Char(v),
        Save::String(v) => Tree::String(v@),
        Save::ByteArray(v) => Tree::ByteArray(v@),
        Save::Option(o) => match o {
            Some(b) => Tree::Option(Some(Box::new(tree_of(*b)))),
            None => Tree::Option(None),
        },
        Save::Unit => Tree::Unit,
        Save::UnitStruct(name) => Tree::UnitStruct(name@),
        Save::UnitVariant(variant) => Tree::UnitVariant(variant@),
        Save::NewTypeStruct { name, value } => Tree::NewTypeStruct {
            name: name@,
            value: Box::new(tree_of(*value)),
        },
        Save::NewTypeVariant { variant, value } => Tree::NewTypeVariant {
            variant: variant@,
            value: Box::new(tree_of(*value)),
        },
        Save::Sequence(v) => Tree::Sequence(trees_of(v@)),
        Save::Mapping(v) => Tree::Mapping(pairs_of(v@)),
        Save::Tuple(v) => Tree::Tuple(trees_of(v@)),
        Save::TupleStruct { name, values } => Tree::TupleStruct {
            name: name@,
            values: trees_of(values@),
        },
        Save::TupleVariant { variant, values } => Tree::TupleVariant {
            variant: variant@,
            values: trees_of(values@),
        },
        Save::Struct { name, fields } => Tree::Struct { name: name@, fields: fields_of(fields@) },
        Save::StructVariant { variant, fields } => Tree::StructVariant {
            variant: variant@,
            fields: fields_of(fields@),
        },
        Save::Error(e) => Tree::Error(e.model()),
    }
}

impl<E: ErrorPayload> View for Save<E> {
    type V = Tree;

    open spec fn view(&self) -> Tree {
        tree_of(*self)
    }
}

pub broadcast proof fn lemma_trees_of_push<E: ErrorPayload>(v: Seq<Save<E>>, x: Save<E>)
    ensures
        #[trigger] trees_of(v.push(x)) == trees_of(v).push(tree_of(x)),
{
    assert(trees_of(v.push(x)) =~= trees_of(v).push(tree_of(x)));
}

pub broadcast proof fn lemma_fields_of_push<E: ErrorPayload>(
    v: Seq<(&'static str, Option<Save<E>>)>,
    x: (&'static str, Option<Save<E>>),
)
    ensures
        #[trigger] fields_of(v.push(x)) == fields_of(v).push(field_of(x)),
{
    assert(fields_of(v.push(x)) =~= fields_of(v).push(field_of(x)));
}

pub broadcast proof fn lemma_pairs_of_push<E: ErrorPayload>(
    v: Seq<(Save<E>, Save<E>)>,
    x: (Save<E>, Save<E>),
)
    ensures
        #[trigger] pairs_of(v.push(x)) == pairs_of(v).push((tree_of(x.0), tree_of(x.1))),
{
    assert(pairs_of(v.push(x)) =~= pairs_of(v).push((tree_of(x.0), tree_of(x.1))));
}

pub broadcast group group_model_push {
    lemma_trees_of_push,
    lemma_fields_of_push,
    lemma_pairs_of_push,
}

impl Save<Error> {
    /// A persisted error raised by a value's own serialization.
    pub fn error(msg: &str) -> (r: Self)
        ensures
            r@ == Tree::Error((ErrorModel { message: msg@, protocol: false })),
    {
        Save::Error(Error::custom(msg))
    }
}

/// The models of fields none of which is skipped.
pub open spec fn unskipped_fields<E: ErrorPayload>(v: Seq<(&'static str, Save<E>)>) -> Seq<(Seq<char>, Option<Tree>)> {
    Seq::new(v.len(), |i: int| (v[i].0@, Some(tree_of(v[i].1))))
}

impl<E: ErrorPayload> Save<E> {
    /// A `Struct` none of whose fields is skipped.
    pub fn strukt(name: &'static str, fields: Vec<(&'static str, Save<E>)>) -> (r: Self)
        ensures
            r@ == (Tree::Struct { name: name@, fields: unskipped_fields(fields@) }),
    {
        broadcast use group_model_push;

        let mut rest = fields;
        let mut out: Vec<(&'static str, Option<Save<E>>)> = Vec::new();
        while rest.len() > 0
            invariant
                out@.len() + rest@.len() == fields@.len(),
                rest@ == fields@.subrange(out@.len() as int, fields@.len() as int),
                fields_of(out@) == unskipped_fields(fields@.take(out@.len() as int)),
            decreases rest@.len(),
        {
            let (k, v) = rest.remove(0);
            proof {
                assert(unskipped_fields(fields@.take(out@.len() + 1 as int)) =~= unskipped_fields(
                    fields@.take(out@.len() as int),
                ).push(field_of((k, Some(v)))));
            }
            out.push((k, Some(v)));
        }
        assert(fields@.take(out@.len() as int) =~= fields@);
        Save::Struct { name, fields: out }
    }

    /// A `String`.
    pub fn string(it: &str) -> (r: Self)
        ensures
            r@ == Tree::String(it@),
    {
        Save::String(String::from_str(it))
    }

    /// A `ByteArray`.
    pub fn bytes(it: Vec<u8>) -> (r: Self)
        ensures
            r@ == Tree::ByteArray(it@),
    {
        Save::ByteArray(it)
    }
}

impl<E> From<bool> for Save<E> {
    fn from(it: bool) -> (r: Self) {
        Save::Bool(it)
    }
}

impl<E> vstd::std_specs::convert::FromSpecImpl<bool> for Save<E> {
    open spec fn obeys_from_spec() -> bool {
        true
    }

    open spec fn from_spec(it: bool) -> Self {
        Save::Bool(it)
    }
}

impl<E> From<i8> for Save<E> {
    fn from(it: i8) -> (r: Self) {
        Save::I8(it)
    }
}

impl<E> vstd::std_specs::convert::FromSpecImpl<i8> for Save<E> {
    open spec fn obeys_from_spec() -> bool {
        true
    }

    open spec fn from_spec(it: i8) -> Self {
        Save::I8(it)
    }
}

impl<E> From<i16> for Save<E> {
    fn from(it: i16) -> (r: Self) {
        Save::I16(it)
    }
}

impl<E> vstd::std_specs::convert::FromSpecImpl<i16> for Save<E> {
    open spec fn obeys_from_spec() -> bool {
        true
    }

    open spec fn from_spec(it: i16) -> Self {
        Save::I16(it)
    }
}

impl<E> From<i32> for Save<E> {
    fn from(it: i32) -> (r: Self) {
        Save::I32(it)
    }
}

impl<E> vstd::std_specs::convert::FromSpecImpl<i32> for Save<E> {
    open spec fn obeys_from_spec() -> bool {
        true
    }

    open spec fn from_spec(it: i32) -> Self {
        Save::I32(it)
    }
}

impl<E> From<i64> for Save<E> {
    fn from(it: i64) -> (r: Self) {
        Save::I64(it)
    }
}

impl<E> vstd::std_specs::convert::FromSpecImpl<i64> for Save<E> {
    open spec fn obeys_from_spec() -> bool {
        true
    }

    open spec fn from_spec(it: i64) -> Self {
        Save::I64(it)
    }
}

impl<E> From<i128> for Save<E> {
    fn from(it: i128) -> (r: Self) {
        Save::I128(it)
    }
}

impl<E> vstd::std_specs::convert::FromSpecImpl<i128> for Save<E> {
    open spec fn obeys_from_spec() -> bool {
        true
    }

    open spec fn from_spec(it: i128) -> Self {
        Save::I128(it)
    }
}

impl<E> From<u8> for Save<E> {
    fn from(it: u8) -> (r: Self) {
        Save::U8(it)
    }
}

impl<E> vstd::std_specs::convert::FromSpecImpl<u8> for Save<E> {
    open spec fn obeys_from_spec() -> bool {
        true
    }

    open spec fn from_spec(it: u8) -> Self {
        Save::U8(it)
    }
}

impl<E> From<u16> for Save<E> {
    fn from(it: u16) -> (r: Self) {
        Save::U16(it)
    }
}

impl<E> vstd::std_specs::convert::FromSpecImpl<u16> for Save<E> {
    open spec fn obeys_from_spec() -> bool {
        true
    }

    open spec fn from_spec(it: u16) -> Self {
        Save::U16(it)
    }
}

impl<E> From<u32> for Save<E> {
    fn from(it: u32) -> (r: Self) {
        Save::U32(it)
    }
}

impl<E> vstd::std_specs::convert::FromSpecImpl<u32> for Save<E> {
    open spec fn obeys_from_spec() -> bool {
        true
    }

    open spec fn from_spec(it: u32) -> Self {
        Save::U32(it)
    }
}

impl<E> From<u64> for Save<E> {
    fn from(it: u64) -> (r: Self) {
        Save::U64(it)
    }
}

impl<E> vstd::std_specs::convert::FromSpecImpl<u64> for Save<E> {
    open spec fn obeys_from_spec() -> bool {
        true
    }

    open spec fn from_spec(it: u64) -> Self {
        Save::U64(it)
    }
}

impl<E> From<u128> for Save<E> {
    fn from(it: u128) -> (r: Self) {
        Save::U128(it)
    }
}

impl<E> vstd::std_specs::convert::FromSpecImpl<u128> for Save<E> {
    open spec fn obeys_from_spec() -> bool {
        true
    }

    open spec fn from_spec(it: u128) -> Self {
        Save::U128(it)
    }
}

impl<E> From<char> for Save<E> {
    fn from(it: char) -> (r: Self) {
        Save::Char(it)
    }
}

impl<E> vstd::std_specs::convert::FromSpecImpl<char> for Save<E> {
    open spec fn obeys_from_spec() -> bool {
        true
    }

    open spec fn from_spec(it: char) -> Self {
        Save::Char(it)
    }
}

impl<E> From<String> for Save<E> {
    fn from(it: String) -> (r: Self) {
        Save::String(it)
    }
}

impl<E> vstd::std_specs::convert::FromSpecImpl<String> for Save<E> {
    open spec fn obeys_from_spec() -> bool {
        true
    }

    open spec fn from_spec(it: String) -> Self {
        Save::String(it)
    }
}

impl<E> From<Vec<u8>> for Save<E> {
    fn from(it: Vec<u8>) -> (r: Self) {
        Save::ByteArray(it)
    }
}

impl<E> vstd::std_specs::convert::FromSpecImpl<Vec<u8>> for Save<E> {
    open spec fn obeys_from_spec() -> bool {
        true
    }

    open spec fn from_spec(it: Vec<u8>) -> Self {
        Save::ByteArray(it)
    }
}

impl<E> From<Variant> for Save<E> {
    fn from(it: Variant) -> (r: Self) {
        Save::UnitVariant(it)
    }
}

impl<E> vstd::std_specs::convert::FromSpecImpl<Variant> for Save<E> {
    open spec fn obeys_from_spec() -> bool {
        true
    }

    open spec fn from_spec(it: Variant) -> Self {
        Save::UnitVariant(it)
    }
}

impl<E> From<()> for Save<E> {
    fn from(it: ()) -> (r: Self) {
        Save::Unit
    }
}

impl<E> vstd::std_specs::convert::FromSpecImpl<()> for Save<E> {
    open spec fn obeys_from_spec() -> bool {
        true
    }

    open spec fn from_spec(it: ()) -> Self {
        Save::Unit
    }
}

impl<E> From<Vec<Save<E>>> for Save<E> {
    fn from(it: Vec<Save<E>>) -> (r: Self) {
        Save::Sequence(it)
    }
}

impl<E> vstd::std_specs::convert::FromSpecImpl<Vec<Save<E>>> for Save<E> {
    open spec fn obeys_from_spec() -> bool {
        true
    }

    open spec fn from_spec(it: Vec<Save<E>>) -> Self {
        Save::Sequence(it)
    }
}

impl<E> From<Vec<(Save<E>, Save<E>)>> for Save<E> {
    fn from(it: Vec<(Save<E>, Save<E>)>) -> (r: Self) {
        Save::Mapping(it)
    }
}

impl<E> vstd::std_specs::convert::FromSpecImpl<Vec<(Save<E>, Save<E>)>> for Save<E> {
    open spec fn obeys_from_spec() -> bool {
        true
    }

    open spec fn from_spec(it: Vec<(Save<E>, Save<E>)>) -> Self {
        Save::Mapping(it)
    }
}

impl<E> From<Option<Save<E>>> for Save<E> {
    fn from(it: Option<Save<E>>) -> (r: Self) {
        match it {
            Some(v) => Save::Option(Some(Box::new(v))),
            None => Save::Option(None),
        }
    }
}

impl<E> vstd::std_specs::convert::FromSpecImpl<Option<Save<E>>> for Save<E> {
    open spec fn obeys_from_spec() -> bool {
        true
    }

    open spec fn from_spec(it: Option<Save<E>>) -> Self {
        match it {
            Some(v) => Save::Option(Some(Box::new(v))),
            None => Save::Option(None),
        }
    }
}

impl<E> From<(Save<E>,)> for Save<E> {
    fn from(it: (Save<E>,)) -> (r: Self) {
        Save::Tuple(vec![it.0])
    }
}

impl<E> vstd::std_specs::convert::FromSpecImpl<(Save<E>,)> for Save<E> {
    /// A `Vec` cannot be built in a specification, so the tuple made is not
    /// stated here.
    open spec fn obeys_from_spec() -> bool {
        false
    }

    open spec fn from_spec(it: (Save<E>,)) -> Self {
        arbitrary()
    }
}

impl<E> From<(Save<E>, Save<E>)> for Save<E> {
    fn from(it: (Save<E>, Save<E>)) -> (r: Self) {
        Save::Tuple(vec![it.0, it.1])
    }
}

impl<E> vstd::std_specs::convert::FromSpecImpl<(Save<E>, Save<E>)> for Save<E> {
    /// A `Vec` cannot be built in a specification, so the tuple made is not
    /// stated here.
    open spec fn obeys_from_spec() -> bool {
        false
    }

    open spec fn from_spec(it: (Save<E>, Save<E>)) -> Self {
        arbitrary()
    }
}

impl<E> From<(Save<E>, Save<E>, Save<E>)> for Save<E> {
    fn from(it: (Save<E>, Save<E>, Save<E>)) -> (r: Self) {
        Save::Tuple(vec![it.0, it.1, it.2])
    }
}

impl<E> vstd::std_specs::convert::FromSpecImpl<(Save<E>, Save<E>, Save<E>)> for Save<E> {
    /// A `Vec` cannot be built in a specification, so the tuple made is not
    /// stated here.
    open spec fn obeys_from_spec() -> bool {
        false
    }

    open spec fn from_spec(it: (Save<E>, Save<E>, Save<E>)) -> Self {
        arbitrary()
    }
}

impl<E> From<(Save<E>, Save<E>, Save<E>, Save<E>)> for Save<E> {
    fn from(it: (Save<E>, Save<E>, Save<E>, Save<E>)) -> (r: Self) {
        Save::Tuple(vec![it.0, it.1, it.2, it.3])
    }
}

impl<E> vstd::std_specs::convert::FromSpecImpl<(Save<E>, Save<E>, Save<E>, Save<E>)> for Save<E> {
    /// A `Vec` cannot be built in a specification, so the tuple made is not
    /// stated here.
    open spec fn obeys_from_spec() -> bool {
        false
    }

    open spec fn from_spec(it: (Save<E>, Save<E>, Save<E>, Save<E>)) -> Self {
        arbitrary()
    }
}

impl<E> From<(Save<E>, Save<E>, Save<E>, Save<E>, Save<E>)> for Save<E> {
    fn from(it: (Save<E>, Save<E>, Save<E>, Save<E>, Save<E>)) -> (r: Self) {
        Save::Tuple(vec![it.0, it.1, it.2, it.3, it.4])
    }
}

impl<E> vstd::std_specs::convert::FromSpecImpl<(Save<E>, Save<E>, Save<E>, Save<E>, Save<E>)> for Save<E> {
    /// A `Vec` cannot be built in a specification, so the tuple made is not
    /// stated here.
    open spec fn obeys_from_spec() -> bool {
        false
    }

    open spec fn from_spec(it: (Save<E>, Save<E>, Save<E>, Save<E>, Save<E>)) -> Self {
        arbitrary()
    }
}

impl<E> From<(Save<E>, Save<E>, Save<E>, Save<E>, Save<E>, Save<E>)> for Save<E> {
    fn from(it: (Save<E>, Save<E>, Save<E>, Save<E>, Save<E>, Save<E>)) -> (r: Self) {
        Save::Tuple(vec![it.0, it.1, it.2, it.3, it.4, it.5])
    }
}

impl<E> vstd::std_specs::convert::FromSpecImpl<(Save<E>, Save<E>, Save<E>, Save<E>, Save<E>, Save<E>)> for Save<E> {
    /// A `Vec` cannot be built in a specification, so the tuple made is not
    /// stated here.
    open spec fn obeys_from_spec() -> bool {
        false
    }

    open spec fn from_spec(it: (Save<E>, Save<E>, Save<E>, Save<E>, Save<E>, Save<E>)) -> Self {
        arbitrary()
    }
}

impl<E> From<(Save<E>, Save<E>, Save<E>, Save<E>, Save<E>, Save<E>, Save<E>)> for Save<E> {
    fn from(it: (Save<E>, Save<E>, Save<E>, Save<E>, Save<E>, Save<E>, Save<E>)) -> (r: Self) {
        Save::Tuple(vec![it.0, it.1, it.2, it.3, it.4, it.5, it.6])
    }
}

impl<E> vstd::std_specs::convert::FromSpecImpl<(Save<E>, Save<E>, Save<E>, Save<E>, Save<E>, Save<E>, Save<E>)> for Save<E> {
    /// A `Vec` cannot be built in a specification, so the tuple made is not
    /// stated here.
    open spec fn obeys_from_spec() -> bool {
        false
    }

    open spec fn from_spec(it: (Save<E>, Save<E>, Save<E>, Save<E>, Save<E>, Save<E>, Save<E>)) -> Self {
        arbitrary()
    }
}

impl<E> From<(Save<E>, Save<E>, Save<E>, Save<E>, Save<E>, Save<E>, Save<E>, Save<E>)> for Save<E> {
    fn from(it: (Save<E>, Save<E>, Save<E>, Save<E>, Save<E>, Save<E>, Save<E>, Save<E>)) -> (r: Self) {
        Save::Tuple(vec![it.0, it.1, it.2, it.3, it.4, it.5, it.6, it.7])
    }
}

impl<E> vstd::std_specs::convert::FromSpecImpl<(Save<E>, Save<E>, Save<E>, Save<E>, Save<E>, Save<E>, Save<E>, Save<E>)> for Save<E> {
    /// A `Vec` cannot be built in a specification, so the tuple made is not
    /// stated here.
    open spec fn obeys_from_spec() -> bool {
        false
    }

    open spec fn from_spec(it: (Save<E>, Save<E>, Save<E>, Save<E>, Save<E>, Save<E>, Save<E>, Save<E>)) -> Self {
        arbitrary()
    }
}

impl<E> From<(Save<E>, Save<E>, Save<E>, Save<E>, Save<E>, Save<E>, Save<E>, Save<E>, Save<E>)> for Save<E> {
    fn from(it: (Save<E>, Save<E>, Save<E>, Save<E>, Save<E>, Save<E>, Save<E>, Save<E>, Save<E>)) -> (r: Self) {
        Save::Tuple(vec![it.0, it.1, it.2, it.3, it.4, it.5, it.6, it.7, it.8])
    }
}

impl<E> vstd::std_specs::convert::FromSpecImpl<(Save<E>, Save<E>, Save<E>, Save<E>, Save<E>, Save<E>, Save<E>, Save<E>, Save<E>)> for Save<E> {
    /// A `Vec` cannot be built in a specification, so the tuple made is not
    /// stated here.
    open spec fn obeys_from_spec() -> bool {
        false
    }

    open spec fn from_spec(it: (Save<E>, Save<E>, Save<E>, Save<E>, Save<E>, Save<E>, Save<E>, Save<E>, Save<E>)) -> Self {
        arbitrary()
    }
}

impl<E> From<(Save<E>, Save<E>, Save<E>, Save<E>, Save<E>, Save<E>, Save<E>, Save<E>, Save<E>, Save<E>)> for Save<E> {
    fn from(it: (Save<E>, Save<E>, Save<E>, Save<E>, Save<E>, Save<E>, Save<E>, Save<E>, Save<E>, Save<E>)) -> (r: Self) {
        Save::Tuple(vec![it.0, it.1, it.2, it.3, it.4, it.5, it.6, it.7, it.8, it.9])
    }
}

impl<E> vstd::std_specs::convert::FromSpecImpl<(Save<E>, Save<E>, Save<E>, Save<E>, Save<E>, Save<E>, Save<E>, Save<E>, Save<E>, Save<E>)> for Save<E> {
    /// A `Vec` cannot be built in a specification, so the tuple made is not
    /// stated here.
    open spec fn obeys_from_spec() -> bool {
        false
    }

    open spec fn from_spec(it: (Save<E>, Save<E>, Save<E>, Save<E>, Save<E>, Save<E>, Save<E>, Save<E>, Save<E>, Save<E>)) -> Self {
        arbitrary()
    }
}

impl<E> From<(Save<E>, Save<E>, Save<E>, Save<E>, Save<E>, Save<E>, Save<E>, Save<E>, Save<E>, Save<E>, Save<E>)> for Save<E> {
    fn from(it: (Save<E>, Save<E>, Save<E>, Save<E>, Save<E>, Save<E>, Save<E>, Save<E>, Save<E>, Save<E>, Save<E>)) -> (r: Self) {
        Save::Tuple(vec![it.0, it.1, it.2, it.3, it.4, it.5, it.6, it.7, it.8, it.9, it.10])
    }
}

impl<E> vstd::std_specs::convert::FromSpecImpl<(Save<E>, Save<E>, Save<E>, Save<E>, Save<E>, Save<E>, Save<E>, Save<E>, Save<E>, Save<E>, Save<E>)> for Save<E> {
    /// A `Vec` cannot be built in a specification, so the tuple made is not
    /// stated here.
    open spec fn obeys_from_spec() -> bool {
        false
    }

    open spec fn from_spec(it: (Save<E>, Save<E>, Save<E>, Save<E>, Save<E>, Save<E>, Save<E>, Save<E>, Save<E>, Save<E>, Save<E>)) -> Self {
        arbitrary()
    }
}

impl<E> From<(Save<E>, Save<E>, Save<E>, Save<E>, Save<E>, Save<E>, Save<E>, Save<E>, Save<E>, Save<E>, Save<E>, Save<E>)> for Save<E> {
    fn from(it: (Save<E>, Save<E>, Save<E>, Save<E>, Save<E>, Save<E>, Save<E>, Save<E>, Save<E>, Save<E>, Save<E>, Save<E>)) -> (r: Self) {
        Save::Tuple(vec![it.0, it.1, it.2, it.3, it.4, it.5, it.6, it.7, it.8, it.9, it.10, it.11])
    }
}

impl<E> vstd::std_specs::convert::FromSpecImpl<(Save<E>, Save<E>, Save<E>, Save<E>, Save<E>, Save<E>, Save<E>, Save<E>, Save<E>, Save<E>, Save<E>, Save<E>)> for Save<E> {
    /// A `Vec` cannot be built in a specification, so the tuple made is not
    /// stated here.
    open spec fn obeys_from_spec() -> bool {
        false
    }

    open spec fn from_spec(it: (Save<E>, Save<E>, Save<E>, Save<E>, Save<E>, Save<E>, Save<E>, Save<E>, Save<E>, Save<E>, Save<E>, Save<E>)) -> Self {
        arbitrary()
    }
}

} // verus!
