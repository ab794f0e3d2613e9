use crate::message::{
    duplicates_message, duplicates_text, jagged_message, jagged_text, length_message, length_text,
};
use crate::save::{
    fields_of, pairs_of, tree_of, trees_of, Error, ErrorModel, ErrorPayload, Save, Tree, Variant,
    VariantModel,
};
use crate::sealed::Sealed;
use core::marker::PhantomData;
use vstd::prelude::*;
use vstd::slice::slice_to_vec;

verus! {

broadcast use crate::save::group_model_push;

/// The model of what a serialization produced.
pub open spec fn outcome<E: ErrorPayload>(r: Result<Save<E>, Error>) -> Result<Tree, ErrorModel> {
    match r {
        Ok(s) => Ok(s@),
        Err(e) => Err(e@),
    }
}

/// The model of a step that produces nothing but may fail.
pub open spec fn status(r: Result<(), Error>) -> Result<(), ErrorModel> {
    match r {
        Ok(_) => Ok(()),
        Err(e) => Err(e@),
    }
}

/// An error that the protocol checks raise.
pub open spec fn protocol_error(message: Seq<char>) -> ErrorModel {
    ErrorModel { message, protocol: true }
}

/// How errors are handled: returned at once, or kept in the tree.
pub trait ErrorDiscipline: Sealed {
    /// What a persisted error holds in the tree.
    type SaveError: ErrorPayload;

    /// Whether errors are kept in the tree.
    spec fn persists() -> bool;

    /// Passes a success through; an error is returned, or kept in the tree
    /// as a success.
    fn handle(res: Result<Save<Self::SaveError>, Error>) -> (r: Result<Save<Self::SaveError>, Error>)
        ensures
            match outcome(res) {
                Ok(t) => outcome(r) == Ok::<Tree, ErrorModel>(t),
                Err(m) => outcome(r) == if Self::persists() {
                    Ok::<Tree, ErrorModel>(Tree::Error(m))
                } else {
                    Err::<Tree, ErrorModel>(m)
                },
            },
    ;
}

/// The model of [`ErrorDiscipline::handle`].
pub open spec fn handled<D: ErrorDiscipline + ?Sized>(res: Result<Tree, ErrorModel>) -> Result<Tree, ErrorModel> {
    match res {
        Ok(t) => Ok(t),
        Err(m) => if D::persists() {
            Ok(Tree::Error(m))
        } else {
            Err(m)
        },
    }
}

/// Errors are returned at once, ending the serialization; the tree cannot
/// hold them.
pub struct ShortCircuit;

/// Errors are kept in the tree as [`Save::Error`], and serialization goes on.
pub struct Persist;

impl Sealed for ShortCircuit {}

impl Sealed for Persist {}

impl ErrorDiscipline for ShortCircuit {
    type SaveError = core::convert::Infallible;

    open spec fn persists() -> bool {
        false
    }

    fn handle(res: Result<Save<Self::SaveError>, Error>) -> (r: Result<Save<Self::SaveError>, Error>) {
        res
    }
}

impl ErrorDiscipline for Persist {
    type SaveError = Error;

    open spec fn persists() -> bool {
        true
    }

    fn handle(res: Result<Save<Self::SaveError>, Error>) -> (r: Result<Save<Self::SaveError>, Error>) {
        match res {
            Ok(s) => Ok(s),
            Err(e) => Ok(Save::Error(e)),
        }
    }
}

/// `ShortCircuit` passes every result through unchanged; `Persist` never
/// fails, and turns an error into an `Error` node that holds it.
pub proof fn lemma_disciplines(res: Result<Tree, ErrorModel>)
    ensures
        handled::<ShortCircuit>(res) == res,
        handled::<Persist>(res) is Ok,
        res is Ok ==> handled::<Persist>(res) == res,
        res is Err ==> handled::<Persist>(res) == Ok::<Tree, ErrorModel>(Tree::Error(res->Err_0)),
{
}

/// The configuration that a serializer hands on to every nested value.
#[derive(Debug, Clone, Copy, PartialEq, Eq)]
pub struct Config {
    /// What `is_human_readable` answers.
    pub is_human_readable: bool,
    /// Whether declared lengths and field names are checked.
    pub protocol_errors: bool,
}

/// A serializer that produces [`Save`] trees.
pub struct Serializer<E = ShortCircuit> {
    config: Config,
    discipline: PhantomData<E>,
}

impl<E> View for Serializer<E> {
    type V = Config;

    closed spec fn view(&self) -> Config {
        self.config
    }
}

impl Serializer<ShortCircuit> {
    /// A serializer that is human readable, checks the protocol, and stops at
    /// the first error.
    pub fn new() -> (r: Self)
        ensures
            r@ == (Config { is_human_readable: true, protocol_errors: true }),
    {
        Serializer {
            config: Config { is_human_readable: true, protocol_errors: true },
            discipline: PhantomData,
        }
    }
}

impl Default for Serializer<ShortCircuit> {
    /// See [`Serializer::new`].
    fn default() -> (r: Self)
        ensures
            r@ == (Config { is_human_readable: true, protocol_errors: true }),
    {
        Self::new()
    }
}

impl<E> Serializer<E> {
    /// Sets what `is_human_readable` answers.
    pub fn human_readable(self, is_human_readable: bool) -> (r: Self)
        ensures
            r@ == (Config { is_human_readable, protocol_errors: self@.protocol_errors }),
    {
        Serializer {
            config: Config { is_human_readable, protocol_errors: self.config.protocol_errors },
            discipline: PhantomData,
        }
    }

    /// Sets whether declared lengths and field names are checked.
    pub fn check_for_protocol_errors(self, check: bool) -> (r: Self)
        ensures
            r@ == (Config { is_human_readable: self@.is_human_readable, protocol_errors: check }),
    {
        Serializer {
            config: Config { is_human_readable: self.config.is_human_readable, protocol_errors: check },
            discipline: PhantomData,
        }
    }

    /// Keeps errors in the tree instead of returning them; the checks put
    /// theirs as the last entries of the aggregate concerned.
    pub fn save_errors(self) -> (r: Serializer<Persist>)
        ensures
            r@ == self@,
    {
        Serializer { config: self.config, discipline: PhantomData }
    }

    /// Whether the produced data should be human readable.
    pub fn is_human_readable(&self) -> (r: bool)
        ensures
            r == self@.is_human_readable,
    {
        self.config.is_human_readable
    }

    /// A serializer for a nested value, with the same configuration.
    pub fn for_child(&self) -> (r: Self)
        ensures
            r@ == self@,
    {
        Serializer { config: self.config, discipline: PhantomData }
    }
}

impl<E: ErrorDiscipline> Serializer<E> {
    /// A `Bool` leaf.
    pub fn serialize_bool(self, v: bool) -> (r: Save<E::SaveError>)
        ensures
            r@ == Tree::Bool(v),
    {
        Save::Bool(v)
    }

    /// A `I8` leaf.
    pub fn serialize_i8(self, v: i8) -> (r: Save<E::SaveError>)
        ensures
            r@ == Tree::I8(v),
    {
        Save::I8(v)
    }

    /// A `I16` leaf.
    pub fn serialize_i16(self, v: i16) -> (r: Save<E::SaveError>)
        ensures
            r@ == Tree::I16(v),
    {
        Save::I16(v)
    }

    /// A `I32` leaf.
    pub fn serialize_i32(self, v: i32) -> (r: Save<E::SaveError>)
        ensures
            r@ == Tree::I32(v),
    {
        Save::I32(v)
    }

    /// A `I64` leaf.
    pub fn serialize_i64(self, v: i64) -> (r: Save<E::SaveError>)
        ensures
            r@ == Tree::I64(v),
    {
        Save::I64(v)
    }

    /// A `I128` leaf.
    pub fn serialize_i128(self, v: i128) -> (r: Save<E::SaveError>)
        ensures
            r@ == Tree::I128(v),
    {
        Save::I128(v)
    }

    /// A `U8` leaf.
    pub fn serialize_u8(self, v: u8) -> (r: Save<E::SaveError>)
        ensures
            r@ == Tree::U8(v),
    {
        Save::U8(v)
    }

    /// A `U16` leaf.
    pub fn serialize_u16(self, v: u16) -> (r: Save<E::SaveError>)
        ensures
            r@ == Tree::U16(v),
    {
        Save::U16(v)
    }

    /// A `U32` leaf.
    pub fn serialize_u32(self, v: u32) -> (r: Save<E::SaveError>)
        ensures
            r@ == Tree::U32(v),
    {
        Save::U32(v)
    }

    /// A `U64` leaf.
    pub fn serialize_u64(self, v: u64) -> (r: Save<E::SaveError>)
        ensures
            r@ == Tree::U64(v),
    {
        Save::U64(v)
    }

    /// A `U128` leaf.
    pub fn serialize_u128(self, v: u128) -> (r: Save<E::SaveError>)
        ensures
            r@ == Tree::U128(v),
    {
        Save::U128(v)
    }

    /// A `Char` leaf.
    pub fn serialize_char(self, v: char) -> (r: Save<E::SaveError>)
        ensures
            r@ == Tree::Char(v),
    {
        Save::Char(v)
    }

    /// An `F32` leaf, from the bits of the value.
    pub fn serialize_f32(self, bits: u32) -> (r: Save<E::SaveError>)
        ensures
            r@ == Tree::F32(bits),
    {
        Save::F32(bits)
    }

    /// An `F64` leaf, from the bits of the value.
    pub fn serialize_f64(self, bits: u64) -> (r: Save<E::SaveError>)
        ensures
            r@ == Tree::F64(bits),
    {
        Save::F64(bits)
    }

    /// A `String` leaf.
    pub fn serialize_str(self, v: &str) -> (r: Save<E::SaveError>)
        ensures
            r@ == Tree::String(v@),
    {
        Save::String(String::from_str(v))
    }

    /// A `String` leaf from a rendered value.
    pub fn collect_str(self, rendered: String) -> (r: Save<E::SaveError>)
        ensures
            r@ == Tree::String(rendered@),
    {
        Save::String(rendered)
    }

    /// A `ByteArray` leaf.
    pub fn serialize_bytes(self, v: &[u8]) -> (r: Save<E::SaveError>)
        ensures
            r@ == Tree::ByteArray(v@),
    {
        Save::ByteArray(slice_to_vec(v))
    }

    /// An absent option.
    pub fn serialize_none(self) -> (r: Save<E::SaveError>)
        ensures
            r@ == Tree::Option(None),
    {
        Save::Option(None)
    }

    /// A present option, from what serializing its value gave.
    pub fn serialize_some(self, value: Result<Save<E::SaveError>, Error>) -> (r: Result<Save<E::SaveError>, Error>)
        ensures
            outcome(r) == match handled::<E>(outcome(value)) {
                Ok(t) => Ok(Tree::Option(Some(Box::new(t)))),
                Err(m) => Err(m),
            },
    {
        match E::handle(value) {
            Ok(n) => Ok(Save::Option(Some(Box::new(n)))),
            Err(e) => Err(e),
        }
    }

    /// The unit value.
    pub fn serialize_unit(self) -> (r: Save<E::SaveError>)
        ensures
            r@ == Tree::Unit,
    {
        Save::Unit
    }

    /// A unit struct.
    pub fn serialize_unit_struct(self, name: &'static str) -> (r: Save<E::SaveError>)
        ensures
            r@ == Tree::UnitStruct(name@),
    {
        Save::UnitStruct(name)
    }

    /// A unit variant of an enum.
    pub fn serialize_unit_variant(self, name: &'static str, variant_index: u32, variant: &'static str) -> (r: Save<E::SaveError>)
        ensures
            r@ == Tree::UnitVariant((VariantModel { name: name@, variant_index, variant: variant@ })),
    {
        Save::UnitVariant(Variant { name, variant_index, variant })
    }

    /// A struct with one unnamed field, from what serializing the field gave.
    pub fn serialize_newtype_struct(self, name: &'static str, value: Result<Save<E::SaveError>, Error>) -> (r: Result<Save<E::SaveError>, Error>)
        ensures
            outcome(r) == match handled::<E>(outcome(value)) {
                Ok(t) => Ok(Tree::NewTypeStruct { name: name@, value: Box::new(t) }),
                Err(m) => Err(m),
            },
    {
        match E::handle(value) {
            Ok(n) => Ok(Save::NewTypeStruct { name, value: Box::new(n) }),
            Err(e) => Err(e),
        }
    }

    /// An enum variant with one unnamed field, from what serializing the
    /// field gave.
    pub fn serialize_newtype_variant(
        self,
        name: &'static str,
        variant_index: u32,
        variant: &'static str,
        value: Result<Save<E::SaveError>, Error>,
    ) -> (r: Result<Save<E::SaveError>, Error>)
        ensures
            outcome(r) == match handled::<E>(outcome(value)) {
                Ok(t) => Ok(Tree::NewTypeVariant {
                    variant: VariantModel { name: name@, variant_index, variant: variant@ },
                    value: Box::new(t),
                }),
                Err(m) => Err(m),
            },
    {
        match E::handle(value) {
            Ok(n) => Ok(Save::NewTypeVariant { variant: Variant { name, variant_index, variant }, value: Box::new(n) }),
            Err(e) => Err(e),
        }
    }

    /// Starts a sequence, with its length hint.
    pub fn serialize_seq(self, len: Option<usize>) -> (r: SerializeSeq<E>)
        ensures
            r.config() == self@,
            r.expected_len() == len,
            r.elements() == Seq::<Tree>::empty(),
    {
        let inner = Vec::new();
        assert(trees_of(inner@) =~= Seq::<Tree>::empty());
        SerializeSeq { config: self.config, expected_len: len, inner }
    }

    /// Starts a tuple of `len` elements.
    pub fn serialize_tuple(self, len: usize) -> (r: SerializeTuple<E>)
        ensures
            r.config() == self@,
            r.expected_len() == len,
            r.elements() == Seq::<Tree>::empty(),
    {
        let values = Vec::new();
        assert(trees_of(values@) =~= Seq::<Tree>::empty());
        SerializeTuple { config: self.config, expected_len: len, values }
    }

    /// Starts a tuple struct of `len` fields.
    pub fn serialize_tuple_struct(self, name: &'static str, len: usize) -> (r: SerializeTupleStruct<E>)
        ensures
            r.config() == self@,
            r.expected_len() == len,
            r.name() == name@,
            r.elements() == Seq::<Tree>::empty(),
    {
        let values = Vec::new();
        assert(trees_of(values@) =~= Seq::<Tree>::empty());
        SerializeTupleStruct { config: self.config, expected_len: len, name, values }
    }

    /// Starts a tuple variant of `len` fields.
    pub fn serialize_tuple_variant(
        self,
        name: &'static str,
        variant_index: u32,
        variant: &'static str,
        len: usize,
    ) -> (r: SerializeTupleVariant<E>)
        ensures
            r.config() == self@,
            r.expected_len() == len,
            r.variant() == (VariantModel { name: name@, variant_index, variant: variant@ }),
            r.elements() == Seq::<Tree>::empty(),
    {
        let values = Vec::new();
        assert(trees_of(values@) =~= Seq::<Tree>::empty());
        SerializeTupleVariant {
            config: self.config,
            expected_len: len,
            variant: Variant { name, variant_index, variant },
            values,
        }
    }

    /// Starts a map, with its length hint.
    pub fn serialize_map(self, len: Option<usize>) -> (r: SerializeMap<E>)
        ensures
            r.config() == self@,
            r.expected_len() == len,
            r.keys() == Seq::<Tree>::empty(),
            r.values() == Seq::<Tree>::empty(),
    {
        let keys = Vec::new();
        let values = Vec::new();
        assert(trees_of(keys@) =~= Seq::<Tree>::empty());
        assert(trees_of(values@) =~= Seq::<Tree>::empty());
        SerializeMap { config: self.config, expected_len: len, keys, values }
    }

    /// Starts a struct of `len` fields.
    pub fn serialize_struct(self, name: &'static str, len: usize) -> (r: SerializeStruct<E>)
        ensures
            r.config() == self@,
            r.expected_len() == len,
            r.name() == name@,
            r.fields() == Seq::<(Seq<char>, Option<Tree>)>::empty(),
    {
        let fields = Vec::new();
        assert(fields_of(fields@) =~= Seq::<(Seq<char>, Option<Tree>)>::empty());
        SerializeStruct { config: self.config, expected_len: len, name, fields }
    }

    /// Starts a struct variant of `len` fields.
    pub fn serialize_struct_variant(
        self,
        name: &'static str,
        variant_index: u32,
        variant: &'static str,
        len: usize,
    ) -> (r: SerializeStructVariant<E>)
        ensures
            r.config() == self@,
            r.expected_len() == len,
            r.variant() == (VariantModel { name: name@, variant_index, variant: variant@ }),
            r.fields() == Seq::<(Seq<char>, Option<Tree>)>::empty(),
    {
        let fields = Vec::new();
        assert(fields_of(fields@) =~= Seq::<(Seq<char>, Option<Tree>)>::empty());
        SerializeStructVariant {
            config: self.config,
            expected_len: len,
            variant: Variant { name, variant_index, variant },
            fields,
        }
    }
}

/// The tree of a serialization that persists errors: where the value at the
/// root failed, the tree is that error.
pub fn persisted(res: Result<Save<Error>, Error>) -> (r: Save<Error>)
    ensures
        r@ == match outcome(res) {
            Ok(t) => t,
            Err(m) => Tree::Error(m),
        },
{
    match Persist::handle(res) {
        Ok(s) => s,
        Err(e) => Save::Error(e),
    }
}

fn serializer<E>(config: Config) -> (r: Serializer<E>)
    ensures
        r@ == config,
{
    Serializer { config, discipline: PhantomData }
}

/// Applies the discipline to a nested value's result and appends it.
fn push_handled<E: ErrorDiscipline>(
    items: &mut Vec<Save<E::SaveError>>,
    value: Result<Save<E::SaveError>, Error>,
) -> (r: Result<(), Error>)
    ensures
        match handled::<E>(outcome(value)) {
            Ok(t) => r is Ok && trees_of(final(items)@) == trees_of(old(items)@).push(t),
            Err(m) => status(r) == Err::<(), ErrorModel>(m) && final(items)@ == old(items)@,
        },
{
    match E::handle(value) {
        Ok(n) => {
            items.push(n);
            Ok(())
        },
        Err(e) => Err(e),
    }
}

/// The items after the length check: one error more where the count differs
/// from the declared one.
pub open spec fn length_checked<D: ErrorDiscipline>(
    config: Config,
    kind: Seq<char>,
    expected: nat,
    items: Seq<Tree>,
) -> Result<Seq<Tree>, ErrorModel> {
    if config.protocol_errors && expected != items.len() {
        match handled::<D>(Err(protocol_error(length_message(kind, expected, items.len())))) {
            Ok(t) => Ok(items.push(t)),
            Err(m) => Err(m),
        }
    } else {
        Ok(items)
    }
}

/// The items after the check of an optional length hint.
pub open spec fn hint_checked<D: ErrorDiscipline>(
    config: Config,
    kind: Seq<char>,
    expected: Option<usize>,
    items: Seq<Tree>,
) -> Result<Seq<Tree>, ErrorModel> {
    match expected {
        Some(n) => length_checked::<D>(config, kind, n as nat, items),
        None => Ok(items),
    }
}

fn check_length<E: ErrorDiscipline>(
    what: &str,
    config: &Config,
    expected: usize,
    pushing: &mut Vec<Save<E::SaveError>>,
) -> (r: Result<(), Error>)
    ensures
        match length_checked::<E>(*config, what@, expected as nat, trees_of(old(pushing)@)) {
            Ok(items) => r is Ok && trees_of(final(pushing)@) == items,
            Err(m) => status(r) == Err::<(), ErrorModel>(m) && final(pushing)@ == old(pushing)@,
        },
{
    if config.protocol_errors {
        let actual = pushing.len();
        if expected != actual {
            let e = Error::protocol(length_text(what, expected, actual));
            match E::handle(Err(e)) {
                Ok(n) => pushing.push(n),
                Err(e) => return Err(e),
            }
        }
    }
    Ok(())
}

/// Builds a [`Save::Sequence`].
pub struct SerializeSeq<E: ErrorDiscipline> {
    config: Config,
    expected_len: Option<usize>,
    inner: Vec<Save<E::SaveError>>,
}

impl<E: ErrorDiscipline> SerializeSeq<E> {
    pub closed spec fn config(&self) -> Config {
        self.config
    }

    pub closed spec fn expected_len(&self) -> Option<usize> {
        self.expected_len
    }

    pub closed spec fn elements(&self) -> Seq<Tree> {
        trees_of(self.inner@)
    }

    /// A serializer for the next element.
    pub fn serializer(&self) -> (r: Serializer<E>)
        ensures
            r@ == self.config(),
    {
        serializer(self.config)
    }

    /// Appends what serializing the next element gave.
    pub fn serialize_element(&mut self, value: Result<Save<E::SaveError>, Error>) -> (r: Result<(), Error>)
        ensures
            final(self).config() == old(self).config(),
            final(self).expected_len() == old(self).expected_len(),
            match handled::<E>(outcome(value)) {
                Ok(t) => r is Ok && final(self).elements() == old(self).elements().push(t),
                Err(m) => status(r) == Err::<(), ErrorModel>(m) && final(self).elements() == old(self).elements(),
            },
    {
        push_handled::<E>(&mut self.inner, value)
    }

    /// The sequence, checked against the length hint.
    pub fn end(self) -> (r: Result<Save<E::SaveError>, Error>)
        ensures
            outcome(r) == match hint_checked::<E>(self.config(), "sequence"@, self.expected_len(), self.elements()) {
                Ok(items) => Ok(Tree::Sequence(items)),
                Err(m) => Err(m),
            },
    {
        let mut inner = self.inner;
        if let Some(expected_len) = self.expected_len {
            if let Err(e) = check_length::<E>("sequence", &self.config, expected_len, &mut inner) {
                return Err(e);
            }
        }
        Ok(Save::Sequence(inner))
    }
}

/// Builds a [`Save::Tuple`].
pub struct SerializeTuple<E: ErrorDiscipline> {
    config: Config,
    expected_len: usize,
    values: Vec<Save<E::SaveError>>,
}

impl<E: ErrorDiscipline> SerializeTuple<E> {
    pub closed spec fn config(&self) -> Config {
        self.config
    }

    pub closed spec fn expected_len(&self) -> usize {
        self.expected_len
    }

    pub closed spec fn elements(&self) -> Seq<Tree> {
        trees_of(self.values@)
    }

    /// A serializer for the next element.
    pub fn serializer(&self) -> (r: Serializer<E>)
        ensures
            r@ == self.config(),
    {
        serializer(self.config)
    }

    /// Appends what serializing the next element gave.
    pub fn serialize_element(&mut self, value: Result<Save<E::SaveError>, Error>) -> (r: Result<(), Error>)
        ensures
            final(self).config() == old(self).config(),
            final(self).expected_len() == old(self).expected_len(),
            match handled::<E>(outcome(value)) {
                Ok(t) => r is Ok && final(self).elements() == old(self).elements().push(t),
                Err(m) => status(r) == Err::<(), ErrorModel>(m) && final(self).elements() == old(self).elements(),
            },
    {
        push_handled::<E>(&mut self.values, value)
    }

    /// The tuple, checked against the declared length.
    pub fn end(self) -> (r: Result<Save<E::SaveError>, Error>)
        ensures
            outcome(r) == match length_checked::<E>(self.config(), "tuple"@, self.expected_len() as nat, self.elements()) {
                Ok(items) => Ok(Tree::Tuple(items)),
                Err(m) => Err(m),
            },
    {
        let mut values = self.values;
        if let Err(e) = check_length::<E>("tuple", &self.config, self.expected_len, &mut values) {
            return Err(e);
        }
        Ok(Save::Tuple(values))
    }
}

/// Builds a [`Save::TupleStruct`].
pub struct SerializeTupleStruct<E: ErrorDiscipline> {
    config: Config,
    expected_len: usize,
    name: &'static str,
    values: Vec<Save<E::SaveError>>,
}

impl<E: ErrorDiscipline> SerializeTupleStruct<E> {
    pub closed spec fn config(&self) -> Config {
        self.config
    }

    pub closed spec fn expected_len(&self) -> usize {
        self.expected_len
    }

    pub closed spec fn name(&self) -> Seq<char> {
        self.name@
    }

    pub closed spec fn elements(&self) -> Seq<Tree> {
        trees_of(self.values@)
    }

    /// A serializer for the next field.
    pub fn serializer(&self) -> (r: Serializer<E>)
        ensures
            r@ == self.config(),
    {
        serializer(self.config)
    }

    /// Appends what serializing the next field gave.
    pub fn serialize_field(&mut self, value: Result<Save<E::SaveError>, Error>) -> (r: Result<(), Error>)
        ensures
            final(self).config() == old(self).config(),
            final(self).expected_len() == old(self).expected_len(),
            final(self).name() == old(self).name(),
            match handled::<E>(outcome(value)) {
                Ok(t) => r is Ok && final(self).elements() == old(self).elements().push(t),
                Err(m) => status(r) == Err::<(), ErrorModel>(m) && final(self).elements() == old(self).elements(),
            },
    {
        push_handled::<E>(&mut self.values, value)
    }

    /// The tuple struct, checked against the declared length.
    pub fn end(self) -> (r: Result<Save<E::SaveError>, Error>)
        ensures
            outcome(r) == match length_checked::<E>(self.config(), "tuple struct"@, self.expected_len() as nat, self.elements()) {
                Ok(items) => Ok((Tree::TupleStruct { name: self.name(), values: items })),
                Err(m) => Err(m),
            },
    {
        let mut values = self.values;
        if let Err(e) = check_length::<E>("tuple struct", &self.config, self.expected_len, &mut values) {
            return Err(e);
        }
        Ok(Save::TupleStruct { name: self.name, values })
    }
}

/// Builds a [`Save::TupleVariant`].
pub struct SerializeTupleVariant<E: ErrorDiscipline> {
    config: Config,
    expected_len: usize,
    variant: Variant,
    values: Vec<Save<E::SaveError>>,
}

impl<E: ErrorDiscipline> SerializeTupleVariant<E> {
    pub closed spec fn config(&self) -> Config {
        self.config
    }

    pub closed spec fn expected_len(&self) -> usize {
        self.expected_len
    }

    pub closed spec fn variant(&self) -> VariantModel {
        self.variant@
    }

    pub closed spec fn elements(&self) -> Seq<Tree> {
        trees_of(self.values@)
    }

    /// A serializer for the next field.
    pub fn serializer(&self) -> (r: Serializer<E>)
        ensures
            r@ == self.config(),
    {
        serializer(self.config)
    }

    /// Appends what serializing the next field gave.
    pub fn serialize_field(&mut self, value: Result<Save<E::SaveError>, Error>) -> (r: Result<(), Error>)
        ensures
            final(self).config() == old(self).config(),
            final(self).expected_len() == old(self).expected_len(),
            final(self).variant() == old(self).variant(),
            match handled::<E>(outcome(value)) {
                Ok(t) => r is Ok && final(self).elements() == old(self).elements().push(t),
                Err(m) => status(r) == Err::<(), ErrorModel>(m) && final(self).elements() == old(self).elements(),
            },
    {
        push_handled::<E>(&mut self.values, value)
    }

    /// The tuple variant, checked against the declared length.
    pub fn end(self) -> (r: Result<Save<E::SaveError>, Error>)
        ensures
            outcome(r) == match length_checked::<E>(self.config(), "tuple variant"@, self.expected_len() as nat, self.elements()) {
                Ok(items) => Ok((Tree::TupleVariant { variant: self.variant(), values: items })),
                Err(m) => Err(m),
            },
    {
        let mut values = self.values;
        if let Err(e) = check_length::<E>("tuple variant", &self.config, self.expected_len, &mut values) {
            return Err(e);
        }
        Ok(Save::TupleVariant { variant: self.variant, values })
    }
}

/// The key/value pairs by position, an orphaned key or value paired with
/// `filler`.
pub open spec fn zipped(keys: Seq<Tree>, values: Seq<Tree>, filler: Tree) -> Seq<(Tree, Tree)> {
    Seq::new(
        if keys.len() >= values.len() { keys.len() } else { values.len() },
        |i: int|
            (if i < keys.len() { keys[i] } else { filler }, if i < values.len() {
                values[i]
            } else {
                filler
            }),
    )
}

/// The pairs of a map whose keys and values came separately: where their
/// numbers differ, the missing side of each pair is an error, whether or not
/// the protocol is checked.
pub open spec fn paired<D: ErrorDiscipline>(keys: Seq<Tree>, values: Seq<Tree>) -> Result<Seq<(Tree, Tree)>, ErrorModel> {
    if keys.len() == values.len() {
        Ok(zipped(keys, values, Tree::Unit))
    } else {
        match handled::<D>(Err(protocol_error(jagged_message(keys.len(), values.len())))) {
            Ok(t) => Ok(zipped(keys, values, t)),
            Err(m) => Err(m),
        }
    }
}

/// The pairs of a map after the checks: orphans are paired with errors
/// first, then a pair of errors is added where the number of pairs differs
/// from the length hint.
pub open spec fn map_checked<D: ErrorDiscipline>(
    config: Config,
    expected: Option<nat>,
    keys: Seq<Tree>,
    values: Seq<Tree>,
) -> Result<Seq<(Tree, Tree)>, ErrorModel> {
    match paired::<D>(keys, values) {
        Err(m) => Err(m),
        Ok(pairs) => match expected {
            Some(n) => if config.protocol_errors && n != pairs.len() {
                match handled::<D>(Err(protocol_error(length_message("map"@, n, pairs.len())))) {
                    Ok(t) => Ok(pairs.push((t, t))),
                    Err(m) => Err(m),
                }
            } else {
                Ok(pairs)
            },
            None => Ok(pairs),
        },
    }
}

/// A length hint as a number.
pub open spec fn hint_len(hint: Option<usize>) -> Option<nat> {
    match hint {
        Some(n) => Some(n as nat),
        None => None,
    }
}

/// Builds a [`Save::Mapping`].
pub struct SerializeMap<E: ErrorDiscipline> {
    config: Config,
    expected_len: Option<usize>,
    keys: Vec<Save<E::SaveError>>,
    values: Vec<Save<E::SaveError>>,
}

impl<E: ErrorDiscipline> SerializeMap<E> {
    pub closed spec fn config(&self) -> Config {
        self.config
    }

    pub closed spec fn expected_len(&self) -> Option<usize> {
        self.expected_len
    }

    pub closed spec fn keys(&self) -> Seq<Tree> {
        trees_of(self.keys@)
    }

    pub closed spec fn values(&self) -> Seq<Tree> {
        trees_of(self.values@)
    }

    /// A serializer for the next key or value.
    pub fn serializer(&self) -> (r: Serializer<E>)
        ensures
            r@ == self.config(),
    {
        serializer(self.config)
    }

    /// Appends what serializing the next key gave.
    pub fn serialize_key(&mut self, key: Result<Save<E::SaveError>, Error>) -> (r: Result<(), Error>)
        ensures
            final(self).config() == old(self).config(),
            final(self).expected_len() == old(self).expected_len(),
            final(self).values() == old(self).values(),
            match handled::<E>(outcome(key)) {
                Ok(t) => r is Ok && final(self).keys() == old(self).keys().push(t),
                Err(m) => status(r) == Err::<(), ErrorModel>(m) && final(self).keys() == old(self).keys(),
            },
    {
        push_handled::<E>(&mut self.keys, key)
    }

    /// Appends what serializing the next value gave.
    pub fn serialize_value(&mut self, value: Result<Save<E::SaveError>, Error>) -> (r: Result<(), Error>)
        ensures
            final(self).config() == old(self).config(),
            final(self).expected_len() == old(self).expected_len(),
            final(self).keys() == old(self).keys(),
            match handled::<E>(outcome(value)) {
                Ok(t) => r is Ok && final(self).values() == old(self).values().push(t),
                Err(m) => status(r) == Err::<(), ErrorModel>(m) && final(self).values() == old(self).values(),
            },
    {
        push_handled::<E>(&mut self.values, value)
    }

    /// The map: keys and values paired by position, then checked.
    pub fn end(self) -> (r: Result<Save<E::SaveError>, Error>)
        ensures
            outcome(r) == match map_checked::<E>(self.config(), hint_len(self.expected_len()), self.keys(), self.values()) {
                Ok(pairs) => Ok(Tree::Mapping(pairs)),
                Err(m) => Err(m),
            },
    {
        let config = self.config;
        let expected_len = self.expected_len;
        let mut keys = self.keys;
        let mut values = self.values;
        let n_keys = keys.len();
        let n_values = values.len();
        let n = if n_keys >= n_values { n_keys } else { n_values };
        let ghost k0 = keys@;
        let ghost v0 = values@;
        let ghost jag = protocol_error(jagged_message(n_keys as nat, n_values as nat));
        let ghost filler = match handled::<E>(Err(jag)) {
            Ok(t) => t,
            Err(_) => Tree::Unit,
        };
        let ghost target = zipped(trees_of(k0), trees_of(v0), filler);
        assert(trees_of(k0).len() == n_keys && trees_of(v0).len() == n_values);
        proof {
            if n_keys == n_values {
                assert(target =~= zipped(trees_of(k0), trees_of(v0), Tree::Unit));
            }
        }
        // Pairs are taken from the back, so `rev` holds them last first.
        let mut rev: Vec<(Save<E::SaveError>, Save<E::SaveError>)> = Vec::new();
        let mut i: usize = n;
        while i > 0
            invariant
                i <= n,
                n == (if n_keys >= n_values { n_keys } else { n_values }),
                trees_of(k0) == self.keys(),
                trees_of(v0) == self.values(),
                config == self.config(),
                expected_len == self.expected_len(),
                n_keys == k0.len(),
                n_values == v0.len(),
                target == zipped(trees_of(k0), trees_of(v0), filler),
                jag == protocol_error(jagged_message(n_keys as nat, n_values as nat)),
                filler == (match handled::<E>(Err(jag)) {
                    Ok(t) => t,
                    Err(_) => Tree::Unit,
                }),
                keys@ == k0.take(if i < n_keys { i as int } else { n_keys as int }),
                values@ == v0.take(if i < n_values { i as int } else { n_values as int }),
                rev@.len() == n - i,
                n_keys != n_values && i < n ==> handled::<E>(Err(jag)) == Ok::<Tree, ErrorModel>(filler),
                forall|j: int|
                    0 <= j < rev@.len() ==> (tree_of(#[trigger] rev@[j].0), tree_of(rev@[j].1))
                        == target[n - 1 - j],
            decreases i,
        {
            i -= 1;
            let k = if i < n_keys {
                keys.pop().unwrap()
            } else {
                match E::handle(Err(Error::protocol(jagged_text(n_keys, n_values)))) {
                    Ok(x) => x,
                    Err(e) => return Err(e),
                }
            };
            let v = if i < n_values {
                values.pop().unwrap()
            } else {
                match E::handle(Err(Error::protocol(jagged_text(n_keys, n_values)))) {
                    Ok(x) => x,
                    Err(e) => return Err(e),
                }
            };
            assert((tree_of(k), tree_of(v)) == target[i as int]);
            rev.push((k, v));
        }
        let mut map: Vec<(Save<E::SaveError>, Save<E::SaveError>)> = Vec::new();
        while rev.len() > 0
            invariant
                map@.len() + rev@.len() == n,
                n == target.len(),
                config == self.config(),
                expected_len == self.expected_len(),
                paired::<E>(self.keys(), self.values()) == Ok::<Seq<(Tree, Tree)>, ErrorModel>(target),
                forall|j: int|
                    0 <= j < rev@.len() ==> (tree_of(#[trigger] rev@[j].0), tree_of(rev@[j].1))
                        == target[n - 1 - j],
                pairs_of(map@) == target.take(map@.len() as int),
            decreases rev@.len(),
        {
            let p = rev.pop().unwrap();
            proof {
                assert(target.take(map@.len() + 1 as int) =~= target.take(map@.len() as int).push(
                    (tree_of(p.0), tree_of(p.1)),
                ));
            }
            map.push(p);
        }
        assert(target.take(map@.len() as int) =~= target);
        assert(pairs_of(map@) == target);
        if config.protocol_errors {
            if let Some(expected) = expected_len {
                let actual = map.len();
                if expected != actual {
                    let k = match E::handle(Err(Error::protocol(length_text("map", expected, actual)))) {
                        Ok(x) => x,
                        Err(e) => return Err(e),
                    };
                    let v = match E::handle(Err(Error::protocol(length_text("map", expected, actual)))) {
                        Ok(x) => x,
                        Err(e) => return Err(e),
                    };
                    map.push((k, v));
                }
            }
        }
        assert(Save::<E::SaveError>::Mapping(map)@ == Tree::Mapping(pairs_of(map@)));
        Ok(Save::Mapping(map))
    }
}

/// The names of struct fields.
pub open spec fn names_of(fields: Seq<(Seq<char>, Option<Tree>)>) -> Seq<Seq<char>> {
    fields.map_values(|f: (Seq<char>, Option<Tree>)| f.0)
}

/// Each name that occurs earlier in the list, once for each repetition, in
/// the order of the repetitions.
pub open spec fn duplicates(names: Seq<Seq<char>>) -> Seq<Seq<char>>
    decreases names.len(),
{
    if names.len() == 0 {
        Seq::empty()
    } else if names.drop_last().contains(names.last()) {
        duplicates(names.drop_last()).push(names.last())
    } else {
        duplicates(names.drop_last())
    }
}

/// The name of the fields that hold the errors of the checks.
pub open spec fn error_field_name() -> Seq<char> {
    "!error"@
}

/// The fields of a struct after the checks, which are independent: an error
/// field where names repeat, then an error field where the number of fields
/// the value gave differs from the declared one.
pub open spec fn struct_checked<D: ErrorDiscipline>(
    config: Config,
    kind: Seq<char>,
    expected: nat,
    fields: Seq<(Seq<char>, Option<Tree>)>,
) -> Result<Seq<(Seq<char>, Option<Tree>)>, ErrorModel> {
    if !config.protocol_errors {
        Ok(fields)
    } else {
        let dups = duplicates(names_of(fields));
        let first = if dups.len() == 0 {
            Ok(fields)
        } else {
            match handled::<D>(Err(protocol_error(duplicates_message(kind, dups)))) {
                Ok(t) => Ok(fields.push((error_field_name(), Some(t)))),
                Err(m) => Err(m),
            }
        };
        match first {
            Err(m) => Err(m),
            Ok(fs) => if expected != fields.len() {
                match handled::<D>(Err(protocol_error(length_message(kind, expected, fields.len())))) {
                    Ok(t) => Ok(fs.push((error_field_name(), Some(t)))),
                    Err(m) => Err(m),
                }
            } else {
                Ok(fs)
            },
        }
    }
}

fn duplicate_names<T>(fields: &Vec<(&'static str, T)>) -> (dups: Vec<&'static str>)
    ensures
        dups@.map_values(|n: &'static str| n@) == duplicates(
            fields@.map_values(|f: (&'static str, T)| f.0@),
        ),
{
    let ghost all = fields@.map_values(|f: (&'static str, T)| f.0@);
    let mut names: Vec<String> = Vec::new();
    let mut dups: Vec<&'static str> = Vec::new();
    let mut i: usize = 0;
    while i < fields.len()
        invariant
            i <= fields@.len(),
            all == fields@.map_values(|f: (&'static str, T)| f.0@),
            names@.len() == i,
            forall|k: int| 0 <= k < i ==> #[trigger] names@[k]@ == all[k],
            dups@.map_values(|n: &'static str| n@) == duplicates(all.take(i as int)),
        decreases fields@.len() - i,
    {
        let name = String::from_str(fields[i].0);
        let mut seen = false;
        let mut j: usize = 0;
        while j < i
            invariant
                j <= i,
                i < fields@.len(),
                names@.len() == i,
                all == fields@.map_values(|f: (&'static str, T)| f.0@),
                forall|k: int| 0 <= k < i ==> #[trigger] names@[k]@ == all[k],
                name@ == all[i as int],
                seen == exists|k: int| 0 <= k < j && all[k] == all[i as int],
            decreases i - j,
        {
            if names[j] == name {
                seen = true;
            }
            j += 1;
        }
        proof {
            let next = all.take(i + 1 as int);
            assert(next.drop_last() =~= all.take(i as int));
            assert(next.last() == all[i as int]);
            if seen {
                let k = choose|k: int| 0 <= k < i && all[k] == all[i as int];
                assert(next.drop_last()[k] == next.last());
            } else {
                assert forall|k: int| 0 <= k < next.drop_last().len() implies next.drop_last()[k] != next.last() by {
                    assert(all[k] != all[i as int]);
                }
            }
        }
        if seen {
            let ghost before = dups@;
            dups.push(fields[i].0);
            assert(dups@.map_values(|n: &'static str| n@) =~= before.map_values(|n: &'static str| n@).push(all[i as int]));
        }
        names.push(name);
        i += 1;
    }
    assert(all.take(i as int) =~= all);
    dups
}

fn check<E: ErrorDiscipline>(
    what: &str,
    config: &Config,
    expected_len: usize,
    fields: &mut Vec<(&'static str, Option<Save<E::SaveError>>)>,
) -> (r: Result<(), Error>)
    ensures
        match struct_checked::<E>(*config, what@, expected_len as nat, fields_of(old(fields)@)) {
            Ok(fs) => r is Ok && fields_of(final(fields)@) == fs,
            Err(m) => status(r) == Err::<(), ErrorModel>(m) && final(fields)@ == old(fields)@,
        },
{
    if config.protocol_errors {
        let actual = fields.len();
        let dups = duplicate_names(fields);
        assert(fields@.map_values(|f: (&'static str, Option<Save<E::SaveError>>)| f.0@) =~= names_of(fields_of(fields@)));
        if dups.len() > 0 {
            let e = Error::protocol(duplicates_text(what, &dups));
            match E::handle(Err(e)) {
                Ok(n) => {
                    proof { reveal_strlit("!error"); }
                    fields.push(("!error", Some(n)));
                },
                Err(e) => return Err(e),
            }
        }
        if expected_len != actual {
            let e = Error::protocol(length_text(what, expected_len, actual));
            match E::handle(Err(e)) {
                Ok(n) => fields.push(("!error", Some(n))),
                Err(e) => return Err(e),
            }
        }
    }
    Ok(())
}

/// Builds a [`Save::Struct`].
pub struct SerializeStruct<E: ErrorDiscipline> {
    config: Config,
    expected_len: usize,
    name: &'static str,
    fields: Vec<(&'static str, Option<Save<E::SaveError>>)>,
}

impl<E: ErrorDiscipline> SerializeStruct<E> {
    pub closed spec fn config(&self) -> Config {
        self.config
    }

    pub closed spec fn expected_len(&self) -> usize {
        self.expected_len
    }

    pub closed spec fn name(&self) -> Seq<char> {
        self.name@
    }

    pub closed spec fn fields(&self) -> Seq<(Seq<char>, Option<Tree>)> {
        fields_of(self.fields@)
    }

    /// A serializer for the next field's value.
    pub fn serializer(&self) -> (r: Serializer<E>)
        ensures
            r@ == self.config(),
    {
        serializer(self.config)
    }

    /// Appends a field with what serializing its value gave.
    pub fn serialize_field(&mut self, key: &'static str, value: Result<Save<E::SaveError>, Error>) -> (r: Result<(), Error>)
        ensures
            final(self).config() == old(self).config(),
            final(self).expected_len() == old(self).expected_len(),
            final(self).name() == old(self).name(),
            match handled::<E>(outcome(value)) {
                Ok(t) => r is Ok && final(self).fields() == old(self).fields().push((key@, Some(t))),
                Err(m) => status(r) == Err::<(), ErrorModel>(m) && final(self).fields() == old(self).fields(),
            },
    {
        match E::handle(value) {
            Ok(n) => {
                self.fields.push((key, Some(n)));
                Ok(())
            },
            Err(e) => Err(e),
        }
    }

    /// Appends a field that the value skipped.
    pub fn skip_field(&mut self, key: &'static str)
        ensures
            final(self).config() == old(self).config(),
            final(self).expected_len() == old(self).expected_len(),
            final(self).name() == old(self).name(),
            final(self).fields() == old(self).fields().push((key@, None)),
    {
        self.fields.push((key, None));
    }

    /// The struct, checked for repeated names and against the declared
    /// length.
    pub fn end(self) -> (r: Result<Save<E::SaveError>, Error>)
        ensures
            outcome(r) == match struct_checked::<E>(self.config(), "struct"@, self.expected_len() as nat, self.fields()) {
                Ok(fs) => Ok((Tree::Struct { name: self.name(), fields: fs })),
                Err(m) => Err(m),
            },
    {
        let mut fields = self.fields;
        if let Err(e) = check::<E>("struct", &self.config, self.expected_len, &mut fields) {
            return Err(e);
        }
        Ok(Save::Struct { name: self.name, fields })
    }
}

/// Builds a [`Save::StructVariant`].
pub struct SerializeStructVariant<E: ErrorDiscipline> {
    config: Config,
    expected_len: usize,
    variant: Variant,
    fields: Vec<(&'static str, Option<Save<E::SaveError>>)>,
}

impl<E: ErrorDiscipline> SerializeStructVariant<E> {
    pub closed spec fn config(&self) -> Config {
        self.config
    }

    pub closed spec fn expected_len(&self) -> usize {
        self.expected_len
    }

    pub closed spec fn variant(&self) -> VariantModel {
        self.variant@
    }

    pub closed spec fn fields(&self) -> Seq<(Seq<char>, Option<Tree>)> {
        fields_of(self.fields@)
    }

    /// A serializer for the next field's value.
    pub fn serializer(&self) -> (r: Serializer<E>)
        ensures
            r@ == self.config(),
    {
        serializer(self.config)
    }

    /// Appends a field with what serializing its value gave.
    pub fn serialize_field(&mut self, key: &'static str, value: Result<Save<E::SaveError>, Error>) -> (r: Result<(), Error>)
        ensures
            final(self).config() == old(self).config(),
            final(self).expected_len() == old(self).expected_len(),
            final(self).variant() == old(self).variant(),
            match handled::<E>(outcome(value)) {
                Ok(t) => r is Ok && final(self).fields() == old(self).fields().push((key@, Some(t))),
                Err(m) => status(r) == Err::<(), ErrorModel>(m) && final(self).fields() == old(self).fields(),
            },
    {
        match E::handle(value) {
            Ok(n) => {
                self.fields.push((key, Some(n)));
                Ok(())
            },
            Err(e) => Err(e),
        }
    }

    /// Appends a field that the value skipped.
    pub fn skip_field(&mut self, key: &'static str)
        ensures
            final(self).config() == old(self).config(),
            final(self).expected_len() == old(self).expected_len(),
            final(self).variant() == old(self).variant(),
            final(self).fields() == old(self).fields().push((key@, None)),
    {
        self.fields.push((key, None));
    }

    /// The struct variant, checked for repeated names and against the declared
    /// length.
    pub fn end(self) -> (r: Result<Save<E::SaveError>, Error>)
        ensures
            outcome(r) == match struct_checked::<E>(self.config(), "struct"@, self.expected_len() as nat, self.fields()) {
                Ok(fs) => Ok((Tree::StructVariant { variant: self.variant(), fields: fs })),
                Err(m) => Err(m),
            },
    {
        let mut fields = self.fields;
        if let Err(e) = check::<E>("struct", &self.config, self.expected_len, &mut fields) {
            return Err(e);
        }
        Ok(Save::StructVariant { variant: self.variant, fields })
    }
}

} // verus!
