use vstd::prelude::*;

use crate::fields::{
    build_impl_text, builder_definitions_text, builder_impl_text, init_none_text, init_none_texts,
    is_builder_methods, marker_text, marker_texts, marker_trait_and_structs_text, methods_with,
    option_field_text, option_field_texts, setter_at, setters_from, typestate, unwraps_fields,
};
use crate::model::{
    lemma_occurs_in_longer, lemma_occurs_in_self, lemma_occurs_in_trans,
    lemma_terminated_holds_each, occurs_in, terminated, FieldDef,
};
use crate::util::{builder_ident, field_struct_ident, unraw};

verus! {

/// No two fields share a name, `r#` aside (as the compiler requires of a struct).
pub open spec fn distinct_names(fields: Seq<FieldDef>) -> bool {
    forall|i: int, j: int|
        0 <= i < fields.len() && 0 <= j < fields.len() && i != j ==> unraw(
            #[trigger] fields[i].name@,
        ) != unraw(#[trigger] fields[j].name@)
}

/// The names of the fields, in declaration order.
pub open spec fn field_names(fields: Seq<FieldDef>) -> Seq<Seq<char>> {
    Seq::new(fields.len(), |i: int| fields[i].name@)
}

/// The state a generated builder in state `state` moves to when its method
/// `method` is called: the setter impls are keyed by state, and each holds one
/// method, named after its field.  `None` when no impl for `state` has that method.
pub open spec fn setter_step(
    builder: Seq<char>,
    fields: Seq<FieldDef>,
    state: Seq<char>,
    method: Seq<char>,
) -> Option<Seq<char>> {
    if exists|j: int|
        0 <= j < fields.len() && #[trigger] typestate(builder, fields, j) == state
            && fields[j].name@ == method {
        let j = choose|j: int|
            0 <= j < fields.len() && #[trigger] typestate(builder, fields, j) == state
                && fields[j].name@ == method;
        Some(typestate(builder, fields, j + 1))
    } else {
        None
    }
}

/// The state reached by calling the setters `calls` in turn from `state`;
/// `None` when one of the calls does not exist in the state it is made in.
pub open spec fn run_setters(
    builder: Seq<char>,
    fields: Seq<FieldDef>,
    state: Seq<char>,
    calls: Seq<Seq<char>>,
) -> Option<Seq<char>>
    decreases calls.len(),
{
    if calls.len() == 0 {
        Some(state)
    } else {
        match setter_step(builder, fields, state, calls[0]) {
            Some(next) => run_setters(builder, fields, next, calls.drop_first()),
            None => None,
        }
    }
}

/// Marker types of fields with different names are different types.
pub proof fn lemma_marker_types_distinct(builder: Seq<char>, a: Seq<char>, b: Seq<char>)
    requires
        unraw(a) != unraw(b),
    ensures
        field_struct_ident(builder, a) != field_struct_ident(builder, b),
{
    let ma = field_struct_ident(builder, a);
    let mb = field_struct_ident(builder, b);
    if ma == mb {
        assert(ma.len() == unraw(a).len() + "Of"@.len() + unraw(builder).len());
        assert(mb.len() == unraw(b).len() + "Of"@.len() + unraw(builder).len());
        assert(unraw(a).len() == unraw(b).len());
        assert(ma.take(unraw(a).len() as int) =~= unraw(a));
        assert(mb.take(unraw(b).len() as int) =~= unraw(b));
    }
}

/// No marker type is called `FinalBuilder`: the builder can only reach its final
/// state through the setter of the last field.
pub proof fn lemma_marker_type_is_not_final(builder: Seq<char>, field: Seq<char>)
    ensures
        field_struct_ident(builder, field) != "FinalBuilder"@,
{
    reveal_strlit("FinalBuilder");
    reveal_strlit("Of");
    let m = field_struct_ident(builder, field);
    let k = unraw(field).len() as int;
    assert(m[k] == 'O');
    assert(m.len() == k + 2 + unraw(builder).len());
    if m == "FinalBuilder"@ {
        assert(k < 12);
        assert("FinalBuilder"@[k] == 'O');
    }
}

/// From the state of field `k`, a sequence of calls reaches `FinalBuilder`
/// exactly when it is the names of fields `k..` in order.
pub proof fn lemma_run_from(builder: Seq<char>, fields: Seq<FieldDef>, k: int, calls: Seq<Seq<char>>)
    requires
        distinct_names(fields),
        0 <= k <= fields.len(),
    ensures
        run_setters(builder, fields, typestate(builder, fields, k), calls) == Some("FinalBuilder"@)
            <==> calls == field_names(fields).skip(k),
    decreases calls.len(),
{
    let state = typestate(builder, fields, k);
    let rest = field_names(fields).skip(k);
    if k == fields.len() {
        assert(rest =~= Seq::<Seq<char>>::empty());
        if calls.len() > 0 {
            assert forall|j: int| 0 <= j < fields.len() implies #[trigger] typestate(builder, fields, j) != state by {
                lemma_marker_type_is_not_final(builder, fields[j].name@);
            }
            assert(setter_step(builder, fields, state, calls[0]) is None);
        } else {
            assert(calls =~= rest);
        }
    } else {
        assert(state == field_struct_ident(builder, fields[k].name@));
        lemma_marker_type_is_not_final(builder, fields[k].name@);
        assert(rest[0] == fields[k].name@);
        assert forall|j: int| 0 <= j < fields.len() && j != k implies #[trigger] typestate(builder, fields, j) != state by {
            lemma_marker_types_distinct(builder, fields[j].name@, fields[k].name@);
        }
        if calls.len() > 0 {
            if calls[0] == fields[k].name@ {
                assert(typestate(builder, fields, k) == state);
                assert(setter_step(builder, fields, state, calls[0]) == Some(typestate(builder, fields, k + 1)));
                lemma_run_from(builder, fields, k + 1, calls.drop_first());
                assert(rest.drop_first() =~= field_names(fields).skip(k + 1));
                if calls.drop_first() == field_names(fields).skip(k + 1) {
                    assert forall|i: int| 0 <= i < calls.len() implies calls[i] == rest[i] by {
                        if i > 0 {
                            assert(calls[i] == calls.drop_first()[i - 1]);
                            assert(rest[i] == rest.drop_first()[i - 1]);
                        }
                    }
                    assert(calls =~= rest);
                }
            } else {
                assert(setter_step(builder, fields, state, calls[0]) is None);
                assert(calls[0] != rest[0]);
            }
        } else {
            assert(rest.len() > 0);
        }
    }
}

/// The generated builder enforces the declaration order: starting from the
/// state that `builder()` returns, a sequence of setter calls leads to the
/// final state (`FinalBuilder`, every field set) if and only if it calls every
/// field's setter exactly once, in the order the fields are declared.
pub proof fn lemma_setters_in_declaration_order(builder: Seq<char>, fields: Seq<FieldDef>, calls: Seq<Seq<char>>)
    requires
        distinct_names(fields),
    ensures
        run_setters(builder, fields, typestate(builder, fields, 0), calls) == Some("FinalBuilder"@)
            <==> calls == field_names(fields),
{
    lemma_run_from(builder, fields, 0, calls);
    assert(field_names(fields).skip(0) =~= field_names(fields));
}


// ---------------------------------------------------------------------------
// The values a generated builder holds
// ---------------------------------------------------------------------------

/// The slots of a generated builder, one optional value per field, as
/// `builder()` makes them: every field `None` (`name:None`).
pub open spec fn initial_slots<V>(n: nat) -> Seq<Option<V>> {
    Seq::new(n, |i: int| None::<V>)
}

/// What the setter of field `i` does to the slots: `self.f_i=Some(input)`, then
/// a builder whose every field is carried over (`f_j: self.f_j`).
pub open spec fn set_field<V>(slots: Seq<Option<V>>, i: int, v: V) -> Seq<Option<V>> {
    slots.update(i, Some(v))
}

/// The slots after calling the setters of fields `0..values.len()` in order,
/// with `values`.
pub open spec fn set_in_order<V>(slots: Seq<Option<V>>, values: Seq<V>) -> Seq<Option<V>>
    decreases values.len(),
{
    if values.len() == 0 {
        slots
    } else {
        set_field(set_in_order(slots, values.drop_last()), values.len() - 1, values.last())
    }
}

/// `k` is the first unset field.
pub open spec fn first_unset<V>(slots: Seq<Option<V>>, k: int) -> bool {
    &&& 0 <= k < slots.len()
    &&& slots[k] is None
    &&& forall|j: int| 0 <= j < k ==> (#[trigger] slots[j]) is Some
}

/// What `build` does with the slots: it unwraps the fields in declaration order
/// with `expect(concat!("field not set: ", "f"))`, so the first unset field
/// panics with that message (`Err`), and with every field set it returns the
/// values (`Ok`).
pub open spec fn build_outcome<V>(fields: Seq<FieldDef>, slots: Seq<Option<V>>) -> Result<
    Seq<V>,
    Seq<char>,
> {
    if exists|k: int| 0 <= k < slots.len() && (#[trigger] slots[k]) is None {
        let k = choose|k: int| first_unset(slots, k);
        Err("field not set: "@ + fields[k].name@)
    } else {
        Ok(Seq::new(slots.len(), |i: int| slots[i]->Some_0))
    }
}

/// A setter changes only its own field: slot `i` holds the input, and every
/// other slot keeps the value it had.
pub proof fn lemma_setter_keeps_other_fields<V>(slots: Seq<Option<V>>, i: int, v: V)
    requires
        0 <= i < slots.len(),
    ensures
        set_field(slots, i, v).len() == slots.len(),
        set_field(slots, i, v)[i] == Some(v),
        forall|j: int| 0 <= j < slots.len() && j != i ==> #[trigger] set_field(slots, i, v)[j] == slots[j],
{
}

/// After setting the first `values.len()` fields in order from `builder()`'s
/// slots, those slots hold the values and the rest are still unset.
pub proof fn lemma_set_in_order<V>(n: nat, values: Seq<V>)
    requires
        values.len() <= n,
    ensures
        set_in_order(initial_slots::<V>(n), values).len() == n,
        forall|i: int| 0 <= i < values.len() ==> #[trigger] set_in_order(initial_slots::<V>(n), values)[i] == Some(values[i]),
        forall|i: int| values.len() <= i < n ==> #[trigger] set_in_order(initial_slots::<V>(n), values)[i] is None,
    decreases values.len(),
{
    if values.len() > 0 {
        lemma_set_in_order(n, values.drop_last());
    }
}

/// `build` after every setter was called once, in declaration order, returns
/// exactly the values given to the setters.
pub proof fn lemma_build_returns_set_values<V>(fields: Seq<FieldDef>, values: Seq<V>)
    requires
        values.len() == fields.len(),
    ensures
        build_outcome(fields, set_in_order(initial_slots::<V>(fields.len()), values)) == Ok::<Seq<V>, Seq<char>>(values),
{
    let slots = set_in_order(initial_slots::<V>(fields.len()), values);
    lemma_set_in_order(fields.len(), values);
    assert(!exists|k: int| 0 <= k < slots.len() && (#[trigger] slots[k]) is None);
    assert(Seq::new(slots.len(), |i: int| slots[i]->Some_0) =~= values);
}

/// `build` with a field unset panics with the message naming the first unset
/// field in declaration order.
pub proof fn lemma_build_names_first_unset<V>(fields: Seq<FieldDef>, slots: Seq<Option<V>>, k: int)
    requires
        slots.len() == fields.len(),
        first_unset(slots, k),
    ensures
        build_outcome(fields, slots) == Err::<Seq<V>, Seq<char>>("field not set: "@ + fields[k].name@),
{
    assert(slots[k] is None);
    let k2 = choose|k2: int| first_unset(slots, k2);
    assert(first_unset(slots, k2));
    if k2 < k {
        assert(slots[k2] is Some);
    } else if k < k2 {
        assert(slots[k] is Some);
    }
}


// ---------------------------------------------------------------------------
// What the generated source declares
// ---------------------------------------------------------------------------

/// The marker type of field `i` of the struct `name`.
pub open spec fn marker_of(name: Seq<char>, fields: Seq<FieldDef>, i: int) -> Seq<char> {
    field_struct_ident(builder_ident(name), fields[i].name@)
}

/// The opening of the setter of field `i`, up to the store of its input:
/// `impl B<M_i>{ pub fn f_i(mut self, input: T_i)->B<M_next>{ self.f_i=Some(input); `,
/// where `M_next` is the marker of field `i + 1`, or `FinalBuilder` after the
/// last field.
pub open spec fn setter_opening(name: Seq<char>, fields: Seq<FieldDef>, i: int) -> Seq<char> {
    let b = builder_ident(name);
    let next = if i + 1 < fields.len() {
        marker_of(name, fields, i + 1)
    } else {
        "FinalBuilder"@
    };
    "impl "@ + b + "<"@ + marker_of(name, fields, i) + ">{ pub fn "@ + fields[i].name@
        + "(mut self, input: "@ + fields[i].ty.tokens@ + ")->"@ + b + "<"@ + next + ">{ self."@
        + fields[i].name@ + "=Some(input); "@
}

/// The opening of `build`, which every state of the builder has.
pub open spec fn build_opening(name: Seq<char>) -> Seq<char> {
    "impl<T:MarkerTraitForBuilder> "@ + builder_ident(name) + "<T>{ pub fn build(self)->"@ + name
        + "{ "@ + name + "{ "@
}

/// The opening of `Name::builder()`: it returns the builder in the state of the
/// first field (`FinalBuilder` for a struct without fields).
pub open spec fn entry_opening(name: Seq<char>, fields: Seq<FieldDef>) -> Seq<char> {
    let b = builder_ident(name);
    let start = if fields.len() > 0 {
        marker_of(name, fields, 0)
    } else {
        "FinalBuilder"@
    };
    "impl "@ + name + "{ pub fn builder()->"@ + b + "<"@ + start + ">{ "@ + b
        + "{ marker:Default::default(), "@
}

/// The opening of the builder struct, generic over its state.
pub open spec fn builder_struct_opening(name: Seq<char>) -> Seq<char> {
    "pub struct "@ + builder_ident(name)
        + "<T:MarkerTraitForBuilder>{ marker: std::marker::PhantomData<T>, "@
}

/// The declaration of a state's marker type and its impl of the marker trait.
pub open spec fn marker_declaration(marker: Seq<char>) -> Seq<char> {
    "pub struct "@ + marker + "{} impl MarkerTraitForBuilder for "@ + marker + "{} "@
}

/// The setters hold, for every field, one that is called in that field's state,
/// is named after the field, takes a value of the field's type, stores it in
/// the field's slot, and moves the builder to the state of the next field (to
/// `FinalBuilder` after the last one); `build` follows them, for every state.
pub proof fn lemma_methods_hold_every_setter(name: Seq<char>, fields: Seq<FieldDef>, text: Seq<char>)
    requires
        is_builder_methods(name, fields, text),
    ensures
        forall|i: int| 0 <= i < fields.len() ==> occurs_in(#[trigger] setter_opening(name, fields, i), text),
        occurs_in(build_opening(name), text),
{
    let b = builder_ident(name);
    let ss = choose|ss: Seq<Seq<char>>| unwraps_fields(fields, ss) && text == #[trigger] methods_with(name, fields, ss);
    let setters = setters_from(b, fields, 0);
    let build = build_impl_text(name, b, ss);
    assert(text == setters + build);
    assert forall|i: int| 0 <= i < fields.len() implies occurs_in(#[trigger] setter_opening(name, fields, i), text) by {
        let opening = setter_opening(name, fields, i);
        let full = setter_at(b, fields, i);
        assert(typestate(b, fields, i) == marker_of(name, fields, i));
        assert(full == opening + (b + "{ marker:Default::default(), "@ + terminated(crate::fields::carry_over_texts(fields), ","@) + "} } }"@));
        lemma_occurs_in_self(opening);
        lemma_occurs_in_longer(opening, opening, b + "{ marker:Default::default(), "@ + terminated(crate::fields::carry_over_texts(fields), ","@) + "} } }"@);
        lemma_setters_hold(b, fields, 0, i);
        lemma_occurs_in_trans(opening, full, setters);
        lemma_occurs_in_longer(opening, setters, build);
    }
    let bo = build_opening(name);
    let rest = terminated(ss, ","@) + "} } }"@;
    assert(build == bo + rest);
    lemma_occurs_in_self(bo);
    lemma_occurs_in_longer(bo, bo, rest);
    lemma_occurs_in_longer(bo, build, setters);
}

/// The setters of fields `lo..` hold the setter of each of those fields.
proof fn lemma_setters_hold(b: Seq<char>, fields: Seq<FieldDef>, lo: int, i: int)
    requires
        0 <= lo <= i < fields.len(),
    ensures
        occurs_in(setter_at(b, fields, i), setters_from(b, fields, lo)),
    decreases i - lo,
{
    let here = setter_at(b, fields, lo);
    let later = setters_from(b, fields, lo + 1);
    assert(setters_from(b, fields, lo) == later + here);
    if i == lo {
        lemma_occurs_in_self(here);
        lemma_occurs_in_longer(here, here, later);
    } else {
        lemma_setters_hold(b, fields, lo + 1, i);
        lemma_occurs_in_longer(setter_at(b, fields, i), later, here);
    }
}

/// `Name::builder()` returns the builder in the state of the first field (the
/// start of the type-state sequence), with every field's slot `None`.
pub proof fn lemma_builder_starts_unset(name: Seq<char>, fields: Seq<FieldDef>)
    ensures
        entry_opening(name, fields).is_prefix_of(builder_impl_text(name, fields)),
        forall|i: int| 0 <= i < fields.len() ==> occurs_in(#[trigger] fields[i].name@ + ":None"@ + ","@, builder_impl_text(name, fields)),
{
    let b = builder_ident(name);
    let opening = entry_opening(name, fields);
    let inits = terminated(init_none_texts(fields), ","@);
    let text = builder_impl_text(name, fields);
    assert(typestate(b, fields, 0) == (if fields.len() > 0 { marker_of(name, fields, 0) } else { "FinalBuilder"@ }));
    assert(text == opening + (inits + "} } }"@));
    assert(opening.is_prefix_of(text)) by {
        assert(text.subrange(0, opening.len() as int) =~= opening);
    }
    assert forall|i: int| 0 <= i < fields.len() implies occurs_in(#[trigger] fields[i].name@ + ":None"@ + ","@, text) by {
        lemma_terminated_holds_each(init_none_texts(fields), ","@, i);
        assert(init_none_texts(fields)[i] == init_none_text(fields[i]));
        lemma_occurs_in_longer(fields[i].name@ + ":None"@ + ","@, inits, "} } }"@);
        lemma_occurs_in_longer(fields[i].name@ + ":None"@ + ","@, inits + "} } }"@, opening);
    }
}

/// The builder struct is generic over its state, and its slot for every field
/// holds an `Option` of that field's type, whatever the type.
pub proof fn lemma_builder_slots_wrap_field_types(name: Seq<char>, fields: Seq<FieldDef>)
    ensures
        builder_struct_opening(name).is_prefix_of(builder_definitions_text(name, fields)),
        forall|i: int| 0 <= i < fields.len() ==> occurs_in(#[trigger] fields[i].name@ + ": Option<"@ + fields[i].ty.tokens@ + ">"@ + ","@, builder_definitions_text(name, fields)),
{
    let opening = builder_struct_opening(name);
    let slots = terminated(option_field_texts(fields), ","@);
    let text = builder_definitions_text(name, fields);
    assert(text == opening + (slots + "}"@));
    assert(opening.is_prefix_of(text)) by {
        assert(text.subrange(0, opening.len() as int) =~= opening);
    }
    assert forall|i: int| 0 <= i < fields.len() implies occurs_in(#[trigger] fields[i].name@ + ": Option<"@ + fields[i].ty.tokens@ + ">"@ + ","@, text) by {
        let slot = fields[i].name@ + ": Option<"@ + fields[i].ty.tokens@ + ">"@ + ","@;
        lemma_terminated_holds_each(option_field_texts(fields), ","@, i);
        assert(option_field_texts(fields)[i] == option_field_text(fields[i]));
        lemma_occurs_in_longer(slot, slots, "}"@);
        lemma_occurs_in_longer(slot, slots + "}"@, opening);
    }
}

/// Every state of the builder is a type that implements the marker trait: the
/// marker type of each field and `FinalBuilder` are declared together with
/// their impl, after the trait itself.
pub proof fn lemma_every_state_is_a_marker(name: Seq<char>, fields: Seq<FieldDef>)
    ensures
        "pub trait MarkerTraitForBuilder{} "@.is_prefix_of(marker_trait_and_structs_text(name, fields)),
        forall|i: int| 0 <= i < fields.len() ==> occurs_in(marker_declaration(#[trigger] marker_of(name, fields, i)), marker_trait_and_structs_text(name, fields)),
        marker_declaration("FinalBuilder"@).is_suffix_of(marker_trait_and_structs_text(name, fields)),
{
    reveal_strlit("");
    let b = builder_ident(name);
    let head = "pub trait MarkerTraitForBuilder{} "@;
    let decls = terminated(marker_texts(b, fields), ""@);
    let last = "pub struct FinalBuilder{} impl MarkerTraitForBuilder for FinalBuilder{} "@;
    let text = marker_trait_and_structs_text(name, fields);
    assert(text == head + (decls + last));
    assert(head.is_prefix_of(text)) by {
        assert(text.subrange(0, head.len() as int) =~= head);
    }
    assert(marker_declaration("FinalBuilder"@) == last) by {
        reveal_strlit("pub struct ");
        reveal_strlit("FinalBuilder");
        reveal_strlit("{} impl MarkerTraitForBuilder for ");
        reveal_strlit("{} ");
        reveal_strlit("pub struct FinalBuilder{} impl MarkerTraitForBuilder for FinalBuilder{} ");
    }
    assert(last.is_suffix_of(text)) by {
        assert(text.subrange(text.len() - last.len(), text.len() as int) =~= last);
    }
    assert forall|i: int| 0 <= i < fields.len() implies occurs_in(marker_declaration(#[trigger] marker_of(name, fields, i)), text) by {
        let decl = marker_declaration(marker_of(name, fields, i));
        lemma_terminated_holds_each(marker_texts(b, fields), ""@, i);
        assert(marker_texts(b, fields)[i] == marker_text(b, fields[i]));
        assert(marker_text(b, fields[i]) + ""@ == decl);
        lemma_occurs_in_longer(decl, decls, last);
        lemma_occurs_in_longer(decl, decls + last, head);
    }
}

} // verus!
