use crate::save::{
    field_of, fields_of, pairs_of, tree_of, trees_of, Error, ErrorModel, ErrorPayload, Save, Tree,
};
use crate::ser::{
    duplicates, handled, length_checked, map_checked, names_of, outcome, status,
    struct_checked, zipped, Config, ErrorDiscipline, SerializeMap, SerializeSeq, SerializeStruct,
    SerializeStructVariant, SerializeTuple, SerializeTupleStruct, SerializeTupleVariant,
    Serializer,
};
use vstd::prelude::*;

verus! {

broadcast use vstd::std_specs::vec::axiom_vec_index_decreases,
    vstd::std_specs::vec::axiom_vec_decreases_to_view,
    vstd::seq::axiom_seq_index_decreases,
    vstd::seq::axiom_seq_subrange_decreases,
    crate::save::group_model_push;

/// Whether serializing the tree again reproduces it: it holds no error, and
/// where names are checked, no struct repeats a field name.
pub open spec fn reproducible(t: Tree, checked: bool) -> bool
    decreases t,
{
    match t {
        Tree::Option(o) => match o {
            Some(b) => reproducible(*b, checked),
            None => true,
        },
        Tree::NewTypeStruct { name, value } => reproducible(*value, checked),
        Tree::NewTypeVariant { variant, value } => reproducible(*value, checked),
        Tree::Sequence(v) => all_reproducible(v, checked),
        Tree::Tuple(v) => all_reproducible(v, checked),
        Tree::TupleStruct { name, values } => all_reproducible(values, checked),
        Tree::TupleVariant { variant, values } => all_reproducible(values, checked),
        Tree::Mapping(v) => pairs_reproducible(v, checked),
        Tree::Struct { name, fields } => fields_reproducible(fields, checked),
        Tree::StructVariant { variant, fields } => fields_reproducible(fields, checked),
        Tree::Error(_) => false,
        _ => true,
    }
}

/// Whether every tree of the sequence is [`reproducible`].
pub open spec fn all_reproducible(v: Seq<Tree>, checked: bool) -> bool
    decreases v,
{
    forall|i: int| 0 <= i < v.len() ==> reproducible(#[trigger] v[i], checked)
}

/// Whether every key and value is [`reproducible`].
pub open spec fn pairs_reproducible(v: Seq<(Tree, Tree)>, checked: bool) -> bool
    decreases v,
{
    forall|i: int|
        0 <= i < v.len() ==> reproducible(#[trigger] v[i].0, checked) && reproducible(v[i].1, checked)
}

/// Whether every present field is [`reproducible`], and, where names are
/// checked, no name repeats.
pub open spec fn fields_reproducible(v: Seq<(Seq<char>, Option<Tree>)>, checked: bool) -> bool
    decreases v,
{
    &&& checked ==> names_of(v).no_duplicates()
    &&& forall|i: int|
        0 <= i < v.len() ==> match #[trigger] v[i].1 {
            Some(x) => reproducible(x, checked),
            None => true,
        }
}

proof fn lemma_unique_names(names: Seq<Seq<char>>)
    requires
        names.no_duplicates(),
    ensures
        duplicates(names).len() == 0,
    decreases names.len(),
{
    if names.len() > 0 {
        let init = names.drop_last();
        assert(init.no_duplicates());
        lemma_unique_names(init);
        if init.contains(names.last()) {
            let k = choose|k: int| 0 <= k < init.len() && init[k] == names.last();
            assert(names[k] == names[names.len() - 1]);
        }
    }
}

/// `xs` put before the items of a successful result.
pub open spec fn prepend<A>(xs: Seq<A>, r: Result<Seq<A>, ErrorModel>) -> Result<Seq<A>, ErrorModel> {
    match r {
        Ok(ys) => Ok(xs + ys),
        Err(m) => Err(m),
    }
}

/// What serializing the tree again through a serializer with discipline `D`
/// and configuration `c` gives: each aggregate is started with its own
/// length, its items are given in order (the first failure that the
/// discipline returns ends it), and it is then checked as the builders do.
/// An `Error` node fails with its message, as an error of the value's own.
pub open spec fn replayed<D: ErrorDiscipline>(t: Tree, c: Config) -> Result<Tree, ErrorModel>
    decreases t,
{
    match t {
        Tree::Option(o) => match o {
            Some(b) => match handled::<D>(replayed::<D>(*b, c)) {
                Ok(x) => Ok(Tree::Option(Some(Box::new(x)))),
                Err(m) => Err(m),
            },
            None => Ok(Tree::Option(None)),
        },
        Tree::NewTypeStruct { name, value } => match handled::<D>(replayed::<D>(*value, c)) {
            Ok(x) => Ok(Tree::NewTypeStruct { name, value: Box::new(x) }),
            Err(m) => Err(m),
        },
        Tree::NewTypeVariant { variant, value } => match handled::<D>(replayed::<D>(*value, c)) {
            Ok(x) => Ok(Tree::NewTypeVariant { variant, value: Box::new(x) }),
            Err(m) => Err(m),
        },
        Tree::Sequence(v) => match replayed_all::<D>(v, c) {
            Ok(xs) => match length_checked::<D>(c, "sequence"@, v.len(), xs) {
                Ok(ys) => Ok(Tree::Sequence(ys)),
                Err(m) => Err(m),
            },
            Err(m) => Err(m),
        },
        Tree::Tuple(v) => match replayed_all::<D>(v, c) {
            Ok(xs) => match length_checked::<D>(c, "tuple"@, v.len(), xs) {
                Ok(ys) => Ok(Tree::Tuple(ys)),
                Err(m) => Err(m),
            },
            Err(m) => Err(m),
        },
        Tree::TupleStruct { name, values } => match replayed_all::<D>(values, c) {
            Ok(xs) => match length_checked::<D>(c, "tuple struct"@, values.len(), xs) {
                Ok(ys) => Ok(Tree::TupleStruct { name, values: ys }),
                Err(m) => Err(m),
            },
            Err(m) => Err(m),
        },
        Tree::TupleVariant { variant, values } => match replayed_all::<D>(values, c) {
            Ok(xs) => match length_checked::<D>(c, "tuple variant"@, values.len(), xs) {
                Ok(ys) => Ok(Tree::TupleVariant { variant, values: ys }),
                Err(m) => Err(m),
            },
            Err(m) => Err(m),
        },
        Tree::Mapping(v) => match replayed_entries::<D>(v, c) {
            Ok(kv) => match map_checked::<D>(c, Some(v.len()), kv.0, kv.1) {
                Ok(ps) => Ok(Tree::Mapping(ps)),
                Err(m) => Err(m),
            },
            Err(m) => Err(m),
        },
        Tree::Struct { name, fields } => match replayed_fields::<D>(fields, c) {
            Ok(fs) => match struct_checked::<D>(c, "struct"@, fields.len(), fs) {
                Ok(gs) => Ok(Tree::Struct { name, fields: gs }),
                Err(m) => Err(m),
            },
            Err(m) => Err(m),
        },
        Tree::StructVariant { variant, fields } => match replayed_fields::<D>(fields, c) {
            Ok(fs) => match struct_checked::<D>(c, "struct"@, fields.len(), fs) {
                Ok(gs) => Ok(Tree::StructVariant { variant, fields: gs }),
                Err(m) => Err(m),
            },
            Err(m) => Err(m),
        },
        Tree::Error(m) => Err(ErrorModel { message: m.message, protocol: false }),
        _ => Ok(t),
    }
}

/// The items of an aggregate serialized again in order, each handled by the
/// discipline; the first failure it returns ends the aggregate.
pub open spec fn replayed_all<D: ErrorDiscipline>(v: Seq<Tree>, c: Config) -> Result<Seq<Tree>, ErrorModel>
    decreases v,
{
    if v.len() == 0 {
        Ok(Seq::empty())
    } else {
        match handled::<D>(replayed::<D>(v[0], c)) {
            Ok(x) => prepend(seq![x], replayed_all::<D>(v.drop_first(), c)),
            Err(m) => Err(m),
        }
    }
}

/// The keys and the values of a map serialized again, key then value for
/// each entry in order.
pub open spec fn replayed_entries<D: ErrorDiscipline>(v: Seq<(Tree, Tree)>, c: Config) -> Result<(Seq<Tree>, Seq<Tree>), ErrorModel>
    decreases v,
{
    if v.len() == 0 {
        Ok((Seq::empty(), Seq::empty()))
    } else {
        match handled::<D>(replayed::<D>(v[0].0, c)) {
            Ok(k) => match handled::<D>(replayed::<D>(v[0].1, c)) {
                Ok(x) => match replayed_entries::<D>(v.drop_first(), c) {
                    Ok(kv) => Ok((seq![k] + kv.0, seq![x] + kv.1)),
                    Err(m) => Err(m),
                },
                Err(m) => Err(m),
            },
            Err(m) => Err(m),
        }
    }
}

/// The fields of a struct serialized again in order: a skipped field is
/// skipped again.
pub open spec fn replayed_fields<D: ErrorDiscipline>(v: Seq<(Seq<char>, Option<Tree>)>, c: Config) -> Result<Seq<(Seq<char>, Option<Tree>)>, ErrorModel>
    decreases v,
{
    if v.len() == 0 {
        Ok(Seq::empty())
    } else {
        match v[0].1 {
            Some(x) => match handled::<D>(replayed::<D>(x, c)) {
                Ok(y) => prepend(seq![(v[0].0, Some(y))], replayed_fields::<D>(v.drop_first(), c)),
                Err(m) => Err(m),
            },
            None => prepend(seq![(v[0].0, None::<Tree>)], replayed_fields::<D>(v.drop_first(), c)),
        }
    }
}

proof fn lemma_prepend_push<A>(xs: Seq<A>, x: A, r: Result<Seq<A>, ErrorModel>)
    ensures
        prepend(xs, prepend(seq![x], r)) == prepend(xs.push(x), r),
{
    if let Ok(ys) = r {
        assert(xs + (seq![x] + ys) =~= xs.push(x) + ys);
    }
}

proof fn lemma_prepend_empty<A>(r: Result<Seq<A>, ErrorModel>)
    ensures
        prepend(Seq::<A>::empty(), r) == r,
{
    if let Ok(ys) = r {
        assert(Seq::<A>::empty() + ys =~= ys);
    }
}

/// `ks` and `vs` put before the keys and the values of a successful result.
pub open spec fn prepend_entries(ks: Seq<Tree>, vs: Seq<Tree>, r: Result<(Seq<Tree>, Seq<Tree>), ErrorModel>) -> Result<(Seq<Tree>, Seq<Tree>), ErrorModel> {
    match r {
        Ok(kv) => Ok((ks + kv.0, vs + kv.1)),
        Err(m) => Err(m),
    }
}

fn replay_seq_elements<P: ErrorPayload, E: ErrorDiscipline>(
    items: &Vec<Save<P>>,
    builder: &mut SerializeSeq<E>,
) -> (r: Result<(), Error>)
    requires
        old(builder).elements() == Seq::<Tree>::empty(),
    ensures
        final(builder).config() == old(builder).config(),
        final(builder).expected_len() == old(builder).expected_len(),
        match replayed_all::<E>(trees_of(items@), old(builder).config()) {
            Ok(xs) => r is Ok && final(builder).elements() == xs,
            Err(m) => status(r) == Err::<(), ErrorModel>(m),
        },
    decreases items, 0nat,
{
    let ghost c = builder.config();
    let ghost all = trees_of(items@);
    proof {
        assert(all.subrange(0, all.len() as int) =~= all);
        lemma_prepend_empty(replayed_all::<E>(all, c));
    }
    let mut i: usize = 0;
    while i < items.len()
        invariant
            i <= items@.len(),
            all == trees_of(items@),
            all.len() == items@.len(),
            builder.config() == c,
            c == old(builder).config(),
            builder.expected_len() == old(builder).expected_len(),
            replayed_all::<E>(all, c) == prepend(
                builder.elements(),
                replayed_all::<E>(all.subrange(i as int, all.len() as int), c),
            ),
        decreases items@.len() - i,
    {
        let child = replay(&items[i], builder.serializer());
        let ghost rest = all.subrange(i as int, all.len() as int);
        let ghost next = all.subrange(i + 1 as int, all.len() as int);
        let ghost before = builder.elements();
        proof {
            assert(rest[0] == all[i as int]);
            assert(rest.drop_first() =~= next);
        }
        match builder.serialize_element(child) {
            Ok(()) => {
                proof {
                    let x = handled::<E>(outcome(child))->Ok_0;
                    lemma_prepend_push(before, x, replayed_all::<E>(next, c));
                }
            },
            Err(e) => return Err(e),
        }
        i += 1;
    }
    proof {
        assert(all.subrange(i as int, all.len() as int) =~= Seq::<Tree>::empty());
        assert(builder.elements() + Seq::<Tree>::empty() =~= builder.elements());
    }
    Ok(())
}

fn replay_tuple_elements<P: ErrorPayload, E: ErrorDiscipline>(
    items: &Vec<Save<P>>,
    builder: &mut SerializeTuple<E>,
) -> (r: Result<(), Error>)
    requires
        old(builder).elements() == Seq::<Tree>::empty(),
    ensures
        final(builder).config() == old(builder).config(),
        final(builder).expected_len() == old(builder).expected_len(),
        match replayed_all::<E>(trees_of(items@), old(builder).config()) {
            Ok(xs) => r is Ok && final(builder).elements() == xs,
            Err(m) => status(r) == Err::<(), ErrorModel>(m),
        },
    decreases items, 0nat,
{
    let ghost c = builder.config();
    let ghost all = trees_of(items@);
    proof {
        assert(all.subrange(0, all.len() as int) =~= all);
        lemma_prepend_empty(replayed_all::<E>(all, c));
    }
    let mut i: usize = 0;
    while i < items.len()
        invariant
            i <= items@.len(),
            all == trees_of(items@),
            all.len() == items@.len(),
            builder.config() == c,
            c == old(builder).config(),
            builder.expected_len() == old(builder).expected_len(),
            replayed_all::<E>(all, c) == prepend(
                builder.elements(),
                replayed_all::<E>(all.subrange(i as int, all.len() as int), c),
            ),
        decreases items@.len() - i,
    {
        let child = replay(&items[i], builder.serializer());
        let ghost rest = all.subrange(i as int, all.len() as int);
        let ghost next = all.subrange(i + 1 as int, all.len() as int);
        let ghost before = builder.elements();
        proof {
            assert(rest[0] == all[i as int]);
            assert(rest.drop_first() =~= next);
        }
        match builder.serialize_element(child) {
            Ok(()) => {
                proof {
                    let x = handled::<E>(outcome(child))->Ok_0;
                    lemma_prepend_push(before, x, replayed_all::<E>(next, c));
                }
            },
            Err(e) => return Err(e),
        }
        i += 1;
    }
    proof {
        assert(all.subrange(i as int, all.len() as int) =~= Seq::<Tree>::empty());
        assert(builder.elements() + Seq::<Tree>::empty() =~= builder.elements());
    }
    Ok(())
}

fn replay_tuple_struct_fields<P: ErrorPayload, E: ErrorDiscipline>(
    items: &Vec<Save<P>>,
    builder: &mut SerializeTupleStruct<E>,
) -> (r: Result<(), Error>)
    requires
        old(builder).elements() == Seq::<Tree>::empty(),
    ensures
        final(builder).config() == old(builder).config(),
        final(builder).expected_len() == old(builder).expected_len(),
        final(builder).name() == old(builder).name(),
        match replayed_all::<E>(trees_of(items@), old(builder).config()) {
            Ok(xs) => r is Ok && final(builder).elements() == xs,
            Err(m) => status(r) == Err::<(), ErrorModel>(m),
        },
    decreases items, 0nat,
{
    let ghost c = builder.config();
    let ghost all = trees_of(items@);
    proof {
        assert(all.subrange(0, all.len() as int) =~= all);
        lemma_prepend_empty(replayed_all::<E>(all, c));
    }
    let mut i: usize = 0;
    while i < items.len()
        invariant
            i <= items@.len(),
            all == trees_of(items@),
            all.len() == items@.len(),
            builder.config() == c,
            c == old(builder).config(),
            builder.expected_len() == old(builder).expected_len(),
            builder.name() == old(builder).name(),
            replayed_all::<E>(all, c) == prepend(
                builder.elements(),
                replayed_all::<E>(all.subrange(i as int, all.len() as int), c),
            ),
        decreases items@.len() - i,
    {
        let child = replay(&items[i], builder.serializer());
        let ghost rest = all.subrange(i as int, all.len() as int);
        let ghost next = all.subrange(i + 1 as int, all.len() as int);
        let ghost before = builder.elements();
        proof {
            assert(rest[0] == all[i as int]);
            assert(rest.drop_first() =~= next);
        }
        match builder.serialize_field(child) {
            Ok(()) => {
                proof {
                    let x = handled::<E>(outcome(child))->Ok_0;
                    lemma_prepend_push(before, x, replayed_all::<E>(next, c));
                }
            },
            Err(e) => return Err(e),
        }
        i += 1;
    }
    proof {
        assert(all.subrange(i as int, all.len() as int) =~= Seq::<Tree>::empty());
        assert(builder.elements() + Seq::<Tree>::empty() =~= builder.elements());
    }
    Ok(())
}

fn replay_tuple_variant_fields<P: ErrorPayload, E: ErrorDiscipline>(
    items: &Vec<Save<P>>,
    builder: &mut SerializeTupleVariant<E>,
) -> (r: Result<(), Error>)
    requires
        old(builder).elements() == Seq::<Tree>::empty(),
    ensures
        final(builder).config() == old(builder).config(),
        final(builder).expected_len() == old(builder).expected_len(),
        final(builder).variant() == old(builder).variant(),
        match replayed_all::<E>(trees_of(items@), old(builder).config()) {
            Ok(xs) => r is Ok && final(builder).elements() == xs,
            Err(m) => status(r) == Err::<(), ErrorModel>(m),
        },
    decreases items, 0nat,
{
    let ghost c = builder.config();
    let ghost all = trees_of(items@);
    proof {
        assert(all.subrange(0, all.len() as int) =~= all);
        lemma_prepend_empty(replayed_all::<E>(all, c));
    }
    let mut i: usize = 0;
    while i < items.len()
        invariant
            i <= items@.len(),
            all == trees_of(items@),
            all.len() == items@.len(),
            builder.config() == c,
            c == old(builder).config(),
            builder.expected_len() == old(builder).expected_len(),
            builder.variant() == old(builder).variant(),
            replayed_all::<E>(all, c) == prepend(
                builder.elements(),
                replayed_all::<E>(all.subrange(i as int, all.len() as int), c),
            ),
        decreases items@.len() - i,
    {
        let child = replay(&items[i], builder.serializer());
        let ghost rest = all.subrange(i as int, all.len() as int);
        let ghost next = all.subrange(i + 1 as int, all.len() as int);
        let ghost before = builder.elements();
        proof {
            assert(rest[0] == all[i as int]);
            assert(rest.drop_first() =~= next);
        }
        match builder.serialize_field(child) {
            Ok(()) => {
                proof {
                    let x = handled::<E>(outcome(child))->Ok_0;
                    lemma_prepend_push(before, x, replayed_all::<E>(next, c));
                }
            },
            Err(e) => return Err(e),
        }
        i += 1;
    }
    proof {
        assert(all.subrange(i as int, all.len() as int) =~= Seq::<Tree>::empty());
        assert(builder.elements() + Seq::<Tree>::empty() =~= builder.elements());
    }
    Ok(())
}

fn replay_struct_fields<P: ErrorPayload, E: ErrorDiscipline>(
    fields: &Vec<(&'static str, Option<Save<P>>)>,
    builder: &mut SerializeStruct<E>,
) -> (r: Result<(), Error>)
    requires
        old(builder).fields() == Seq::<(Seq<char>, Option<Tree>)>::empty(),
    ensures
        final(builder).config() == old(builder).config(),
        final(builder).expected_len() == old(builder).expected_len(),
        final(builder).name() == old(builder).name(),
        match replayed_fields::<E>(fields_of(fields@), old(builder).config()) {
            Ok(fs) => r is Ok && final(builder).fields() == fs,
            Err(m) => status(r) == Err::<(), ErrorModel>(m),
        },
    decreases fields, 0nat,
{
    let ghost c = builder.config();
    let ghost all = fields_of(fields@);
    proof {
        assert(all.subrange(0, all.len() as int) =~= all);
        lemma_prepend_empty(replayed_fields::<E>(all, c));
    }
    let mut i: usize = 0;
    while i < fields.len()
        invariant
            i <= fields@.len(),
            all == fields_of(fields@),
            all.len() == fields@.len(),
            builder.config() == c,
            c == old(builder).config(),
            builder.expected_len() == old(builder).expected_len(),
            builder.name() == old(builder).name(),
            replayed_fields::<E>(all, c) == prepend(
                builder.fields(),
                replayed_fields::<E>(all.subrange(i as int, all.len() as int), c),
            ),
        decreases fields@.len() - i,
    {
        let key = fields[i].0;
        let ghost rest = all.subrange(i as int, all.len() as int);
        let ghost next = all.subrange(i + 1 as int, all.len() as int);
        let ghost before = builder.fields();
        proof {
            assert(rest[0] == all[i as int]);
            assert(all[i as int] == field_of(fields@[i as int]));
            assert(rest.drop_first() =~= next);
        }
        match &fields[i].1 {
            Some(value) => {
                let child = replay(value, builder.serializer());
                match builder.serialize_field(key, child) {
                    Ok(()) => {
                        proof {
                            let y = handled::<E>(outcome(child))->Ok_0;
                            lemma_prepend_push(before, (key@, Some(y)), replayed_fields::<E>(next, c));
                        }
                    },
                    Err(e) => return Err(e),
                }
            },
            None => {
                builder.skip_field(key);
                proof {
                    lemma_prepend_push(before, (key@, None::<Tree>), replayed_fields::<E>(next, c));
                }
            },
        }
        i += 1;
    }
    proof {
        assert(all.subrange(i as int, all.len() as int) =~= Seq::<(Seq<char>, Option<Tree>)>::empty());
        assert(builder.fields() + Seq::<(Seq<char>, Option<Tree>)>::empty() =~= builder.fields());
    }
    Ok(())
}

fn replay_struct_variant_fields<P: ErrorPayload, E: ErrorDiscipline>(
    fields: &Vec<(&'static str, Option<Save<P>>)>,
    builder: &mut SerializeStructVariant<E>,
) -> (r: Result<(), Error>)
    requires
        old(builder).fields() == Seq::<(Seq<char>, Option<Tree>)>::empty(),
    ensures
        final(builder).config() == old(builder).config(),
        final(builder).expected_len() == old(builder).expected_len(),
        final(builder).variant() == old(builder).variant(),
        match replayed_fields::<E>(fields_of(fields@), old(builder).config()) {
            Ok(fs) => r is Ok && final(builder).fields() == fs,
            Err(m) => status(r) == Err::<(), ErrorModel>(m),
        },
    decreases fields, 0nat,
{
    let ghost c = builder.config();
    let ghost all = fields_of(fields@);
    proof {
        assert(all.subrange(0, all.len() as int) =~= all);
        lemma_prepend_empty(replayed_fields::<E>(all, c));
    }
    let mut i: usize = 0;
    while i < fields.len()
        invariant
            i <= fields@.len(),
            all == fields_of(fields@),
            all.len() == fields@.len(),
            builder.config() == c,
            c == old(builder).config(),
            builder.expected_len() == old(builder).expected_len(),
            builder.variant() == old(builder).variant(),
            replayed_fields::<E>(all, c) == prepend(
                builder.fields(),
                replayed_fields::<E>(all.subrange(i as int, all.len() as int), c),
            ),
        decreases fields@.len() - i,
    {
        let key = fields[i].0;
        let ghost rest = all.subrange(i as int, all.len() as int);
        let ghost next = all.subrange(i + 1 as int, all.len() as int);
        let ghost before = builder.fields();
        proof {
            assert(rest[0] == all[i as int]);
            assert(all[i as int] == field_of(fields@[i as int]));
            assert(rest.drop_first() =~= next);
        }
        match &fields[i].1 {
            Some(value) => {
                let child = replay(value, builder.serializer());
                match builder.serialize_field(key, child) {
                    Ok(()) => {
                        proof {
                            let y = handled::<E>(outcome(child))->Ok_0;
                            lemma_prepend_push(before, (key@, Some(y)), replayed_fields::<E>(next, c));
                        }
                    },
                    Err(e) => return Err(e),
                }
            },
            None => {
                builder.skip_field(key);
                proof {
                    lemma_prepend_push(before, (key@, None::<Tree>), replayed_fields::<E>(next, c));
                }
            },
        }
        i += 1;
    }
    proof {
        assert(all.subrange(i as int, all.len() as int) =~= Seq::<(Seq<char>, Option<Tree>)>::empty());
        assert(builder.fields() + Seq::<(Seq<char>, Option<Tree>)>::empty() =~= builder.fields());
    }
    Ok(())
}

fn replay_entries<P: ErrorPayload, E: ErrorDiscipline>(
    items: &Vec<(Save<P>, Save<P>)>,
    builder: &mut SerializeMap<E>,
) -> (r: Result<(), Error>)
    requires
        old(builder).keys() == Seq::<Tree>::empty(),
        old(builder).values() == Seq::<Tree>::empty(),
    ensures
        final(builder).config() == old(builder).config(),
        final(builder).expected_len() == old(builder).expected_len(),
        match replayed_entries::<E>(pairs_of(items@), old(builder).config()) {
            Ok(kv) => r is Ok && final(builder).keys() == kv.0 && final(builder).values() == kv.1,
            Err(m) => status(r) == Err::<(), ErrorModel>(m),
        },
    decreases items, 0nat,
{
    let ghost c = builder.config();
    let ghost all = pairs_of(items@);
    proof {
        assert(all.subrange(0, all.len() as int) =~= all);
        if let Ok(kv) = replayed_entries::<E>(all, c) {
            assert(Seq::<Tree>::empty() + kv.0 =~= kv.0);
            assert(Seq::<Tree>::empty() + kv.1 =~= kv.1);
        }
    }
    let mut i: usize = 0;
    while i < items.len()
        invariant
            i <= items@.len(),
            all == pairs_of(items@),
            all.len() == items@.len(),
            builder.config() == c,
            c == old(builder).config(),
            builder.expected_len() == old(builder).expected_len(),
            replayed_entries::<E>(all, c) == prepend_entries(
                builder.keys(),
                builder.values(),
                replayed_entries::<E>(all.subrange(i as int, all.len() as int), c),
            ),
        decreases items@.len() - i,
    {
        let ghost rest = all.subrange(i as int, all.len() as int);
        let ghost next = all.subrange(i + 1 as int, all.len() as int);
        let ghost ks = builder.keys();
        let ghost vs = builder.values();
        proof {
            assert(rest[0] == all[i as int]);
            assert(all[i as int] == (tree_of(items@[i as int].0), tree_of(items@[i as int].1)));
            assert(rest.drop_first() =~= next);
        }
        let key = replay(&items[i].0, builder.serializer());
        if let Err(e) = builder.serialize_key(key) {
            return Err(e);
        }
        let value = replay(&items[i].1, builder.serializer());
        if let Err(e) = builder.serialize_value(value) {
            return Err(e);
        }
        proof {
            let k = handled::<E>(outcome(key))->Ok_0;
            let x = handled::<E>(outcome(value))->Ok_0;
            if let Ok(kv) = replayed_entries::<E>(next, c) {
                assert(ks + (seq![k] + kv.0) =~= ks.push(k) + kv.0);
                assert(vs + (seq![x] + kv.1) =~= vs.push(x) + kv.1);
            }
        }
        i += 1;
    }
    proof {
        assert(all.subrange(i as int, all.len() as int) =~= Seq::<(Tree, Tree)>::empty());
        assert(builder.keys() + Seq::<Tree>::empty() =~= builder.keys());
        assert(builder.values() + Seq::<Tree>::empty() =~= builder.values());
    }
    Ok(())
}

/// Serializing a [`reproducible`] tree again gives it back unchanged, under
/// either discipline.
pub proof fn lemma_round_trip<D: ErrorDiscipline>(t: Tree, c: Config)
    requires
        reproducible(t, c.protocol_errors),
    ensures
        replayed::<D>(t, c) == Ok::<Tree, ErrorModel>(t),
    decreases t, 1nat,
{
    match t {
        Tree::Option(o) => {
            if let Some(b) = o {
                lemma_round_trip::<D>(*b, c);
            }
        },
        Tree::NewTypeStruct { name, value } => lemma_round_trip::<D>(*value, c),
        Tree::NewTypeVariant { variant, value } => lemma_round_trip::<D>(*value, c),
        Tree::Sequence(v) => lemma_round_trip_all::<D>(v, c),
        Tree::Tuple(v) => lemma_round_trip_all::<D>(v, c),
        Tree::TupleStruct { name, values } => lemma_round_trip_all::<D>(values, c),
        Tree::TupleVariant { variant, values } => lemma_round_trip_all::<D>(values, c),
        Tree::Mapping(v) => {
            lemma_round_trip_entries::<D>(v, c);
            let ks = v.map_values(|p: (Tree, Tree)| p.0);
            let vs = v.map_values(|p: (Tree, Tree)| p.1);
            assert(zipped(ks, vs, Tree::Unit) =~= v);
        },
        Tree::Struct { name, fields } => {
            assert(fields_reproducible(fields, c.protocol_errors));
            lemma_round_trip_fields::<D>(fields, c);
            if c.protocol_errors {
                lemma_unique_names(names_of(fields));
            }
        },
        Tree::StructVariant { variant, fields } => {
            assert(fields_reproducible(fields, c.protocol_errors));
            lemma_round_trip_fields::<D>(fields, c);
            if c.protocol_errors {
                lemma_unique_names(names_of(fields));
            }
        },
        _ => {},
    }
}

proof fn lemma_round_trip_all<D: ErrorDiscipline>(v: Seq<Tree>, c: Config)
    requires
        all_reproducible(v, c.protocol_errors),
    ensures
        replayed_all::<D>(v, c) == Ok::<Seq<Tree>, ErrorModel>(v),
    decreases v, 0nat,
{
    if v.len() > 0 {
        let rest = v.drop_first();
        lemma_round_trip::<D>(v[0], c);
        assert forall|i: int| 0 <= i < rest.len() implies reproducible(#[trigger] rest[i], c.protocol_errors) by {
            assert(rest[i] == v[i + 1]);
        }
        lemma_round_trip_all::<D>(rest, c);
        assert(seq![v[0]] + rest =~= v);
    } else {
        assert(v =~= Seq::<Tree>::empty());
    }
}

proof fn lemma_round_trip_entries<D: ErrorDiscipline>(v: Seq<(Tree, Tree)>, c: Config)
    requires
        pairs_reproducible(v, c.protocol_errors),
    ensures
        replayed_entries::<D>(v, c) == Ok::<(Seq<Tree>, Seq<Tree>), ErrorModel>(
            (v.map_values(|p: (Tree, Tree)| p.0), v.map_values(|p: (Tree, Tree)| p.1)),
        ),
    decreases v, 0nat,
{
    if v.len() > 0 {
        let rest = v.drop_first();
        assert(reproducible(v[0].0, c.protocol_errors) && reproducible(v[0].1, c.protocol_errors));
        lemma_round_trip::<D>(v[0].0, c);
        lemma_round_trip::<D>(v[0].1, c);
        assert forall|i: int| 0 <= i < rest.len() implies reproducible(#[trigger] rest[i].0, c.protocol_errors)
            && reproducible(rest[i].1, c.protocol_errors) by {
            assert(rest[i] == v[i + 1]);
        }
        lemma_round_trip_entries::<D>(rest, c);
        assert(seq![v[0].0] + rest.map_values(|p: (Tree, Tree)| p.0) =~= v.map_values(|p: (Tree, Tree)| p.0));
        assert(seq![v[0].1] + rest.map_values(|p: (Tree, Tree)| p.1) =~= v.map_values(|p: (Tree, Tree)| p.1));
    } else {
        assert(v.map_values(|p: (Tree, Tree)| p.0) =~= Seq::<Tree>::empty());
        assert(v.map_values(|p: (Tree, Tree)| p.1) =~= Seq::<Tree>::empty());
    }
}

proof fn lemma_round_trip_fields<D: ErrorDiscipline>(v: Seq<(Seq<char>, Option<Tree>)>, c: Config)
    requires
        forall|i: int|
            0 <= i < v.len() ==> match #[trigger] v[i].1 {
                Some(x) => reproducible(x, c.protocol_errors),
                None => true,
            },
    ensures
        replayed_fields::<D>(v, c) == Ok::<Seq<(Seq<char>, Option<Tree>)>, ErrorModel>(v),
    decreases v, 0nat,
{
    if v.len() > 0 {
        let rest = v.drop_first();
        assert(match v[0].1 {
            Some(x) => reproducible(x, c.protocol_errors),
            None => true,
        });
        if let Some(x) = v[0].1 {
            lemma_round_trip::<D>(x, c);
        }
        assert forall|i: int| 0 <= i < rest.len() implies match #[trigger] rest[i].1 {
            Some(x) => reproducible(x, c.protocol_errors),
            None => true,
        } by {
            assert(rest[i] == v[i + 1]);
        }
        lemma_round_trip_fields::<D>(rest, c);
        assert(seq![v[0]] + rest =~= v);
    } else {
        assert(v =~= Seq::<(Seq<char>, Option<Tree>)>::empty());
    }
}

/// Serializes the tree again through `serializer`, making the calls that
/// produced it; see [`replayed`]. A [`reproducible`] tree comes back
/// unchanged.
pub fn replay<P: ErrorPayload, E: ErrorDiscipline>(save: &Save<P>, serializer: Serializer<E>) -> (r: Result<Save<E::SaveError>, Error>)
    ensures
        outcome(r) == replayed::<E>(save@, serializer@),
        reproducible(save@, serializer@.protocol_errors) ==> outcome(r) == Ok::<Tree, ErrorModel>(save@),
    decreases save, 1nat,
{
    proof {
        if reproducible(save@, serializer@.protocol_errors) {
            lemma_round_trip::<E>(save@, serializer@);
        }
    }
    match save {
        Save::Bool(v) => Ok(serializer.serialize_bool(*v)),
        Save::I8(v) => Ok(serializer.serialize_i8(*v)),
        Save::I16(v) => Ok(serializer.serialize_i16(*v)),
        Save::I32(v) => Ok(serializer.serialize_i32(*v)),
        Save::I64(v) => Ok(serializer.serialize_i64(*v)),
        Save::I128(v) => Ok(serializer.serialize_i128(*v)),
        Save::U8(v) => Ok(serializer.serialize_u8(*v)),
        Save::U16(v) => Ok(serializer.serialize_u16(*v)),
        Save::U32(v) => Ok(serializer.serialize_u32(*v)),
        Save::U64(v) => Ok(serializer.serialize_u64(*v)),
        Save::U128(v) => Ok(serializer.serialize_u128(*v)),
        Save::F32(v) => Ok(serializer.serialize_f32(*v)),
        Save::F64(v) => Ok(serializer.serialize_f64(*v)),
        Save::Char(v) => Ok(serializer.serialize_char(*v)),
        Save::String(v) => Ok(serializer.serialize_str(v.as_str())),
        Save::ByteArray(v) => Ok(serializer.serialize_bytes(v.as_slice())),
        Save::Option(None) => Ok(serializer.serialize_none()),
        Save::Option(Some(value)) => {
            let child = replay(&**value, serializer.for_child());
            serializer.serialize_some(child)
        },
        Save::Unit => Ok(serializer.serialize_unit()),
        Save::UnitStruct(name) => Ok(serializer.serialize_unit_struct(name)),
        Save::UnitVariant(v) => Ok(serializer.serialize_unit_variant(v.name, v.variant_index, v.variant)),
        Save::NewTypeStruct { name, value } => {
            let child = replay(&**value, serializer.for_child());
            serializer.serialize_newtype_struct(name, child)
        },
        Save::NewTypeVariant { variant, value } => {
            let child = replay(&**value, serializer.for_child());
            serializer.serialize_newtype_variant(variant.name, variant.variant_index, variant.variant, child)
        },
        Save::Sequence(items) => {
            let mut b = serializer.serialize_seq(Some(items.len()));
            if let Err(e) = replay_seq_elements(items, &mut b) {
                return Err(e);
            }
            b.end()
        },
        Save::Mapping(items) => {
            let mut b = serializer.serialize_map(Some(items.len()));
            if let Err(e) = replay_entries(items, &mut b) {
                return Err(e);
            }
            b.end()
        },
        Save::Tuple(items) => {
            let mut b = serializer.serialize_tuple(items.len());
            if let Err(e) = replay_tuple_elements(items, &mut b) {
                return Err(e);
            }
            b.end()
        },
        Save::TupleStruct { name, values } => {
            let mut b = serializer.serialize_tuple_struct(name, values.len());
            if let Err(e) = replay_tuple_struct_fields(values, &mut b) {
                return Err(e);
            }
            b.end()
        },
        Save::TupleVariant { variant, values } => {
            let mut b = serializer.serialize_tuple_variant(
                variant.name,
                variant.variant_index,
                variant.variant,
                values.len(),
            );
            if let Err(e) = replay_tuple_variant_fields(values, &mut b) {
                return Err(e);
            }
            b.end()
        },
        Save::Struct { name, fields } => {
            let mut b = serializer.serialize_struct(name, fields.len());
            if let Err(e) = replay_struct_fields(fields, &mut b) {
                return Err(e);
            }
            b.end()
        },
        Save::StructVariant { variant, fields } => {
            let mut b = serializer.serialize_struct_variant(
                variant.name,
                variant.variant_index,
                variant.variant,
                fields.len(),
            );
            if let Err(e) = replay_struct_variant_fields(fields, &mut b) {
                return Err(e);
            }
            b.end()
        },
        Save::Error(e) => Err(e.to_custom()),
    }
}

} // verus!
