use vstd::prelude::*;

verus! {

/// A field's type, as the generator reads it.
pub struct TypeDef {
    /// The source text of the type's tokens.
    pub tokens: String,
    /// For a path type (`String`, `std::vec::Vec<u8>`), the identifier of its
    /// first path segment; `None` for any other kind of type.
    pub path_head: Option<String>,
}

/// An attribute (`#[...]`), as the generator reads it.
pub struct AttrDef {
    /// The attribute's path when it is a single plain identifier
    /// (no leading `::`, one segment, no generic arguments); `None` otherwise.
    pub path_ident: Option<String>,
}

/// A named field of the input struct.
pub struct FieldDef {
    /// The field's identifier, as written (a raw identifier keeps its `r#`).
    pub name: String,
    pub ty: TypeDef,
    pub attrs: Vec<AttrDef>,
}

/// A struct with named fields, the input of the builder derive.
pub struct StructDef {
    pub name: String,
    pub attrs: Vec<AttrDef>,
    pub fields: Vec<FieldDef>,
}

/// The texts of a sequence of strings.
pub open spec fn texts(v: Seq<String>) -> Seq<Seq<char>> {
    v.map_values(|s: String| s@)
}

/// Each item followed by `term`, all concatenated: the shape of `#(#items,)*`.
pub open spec fn terminated(items: Seq<Seq<char>>, term: Seq<char>) -> Seq<char>
    decreases items.len(),
{
    if items.len() == 0 {
        Seq::empty()
    } else {
        terminated(items.drop_last(), term) + items.last() + term
    }
}

/// `piece` occurs in `text` as a run of consecutive characters.
pub open spec fn occurs_in(piece: Seq<char>, text: Seq<char>) -> bool {
    exists|k: int|
        0 <= k && k + piece.len() <= text.len() && #[trigger] text.subrange(k, k + piece.len())
            == piece
}

/// A text occurs in itself.
pub proof fn lemma_occurs_in_self(piece: Seq<char>)
    ensures
        occurs_in(piece, piece),
{
    assert(piece.subrange(0int, 0int + piece.len()) =~= piece);
}

/// What occurs in a text occurs in any text that has it at its start or at its end.
pub proof fn lemma_occurs_in_longer(piece: Seq<char>, a: Seq<char>, b: Seq<char>)
    requires
        occurs_in(piece, a),
    ensures
        occurs_in(piece, a + b),
        occurs_in(piece, b + a),
{
    let k = choose|k: int|
        0 <= k && k + piece.len() <= a.len() && #[trigger] a.subrange(k, k + piece.len()) == piece;
    assert((a + b).subrange(k, k + piece.len()) =~= piece);
    assert((b + a).subrange(b.len() + k, b.len() + k + piece.len()) =~= piece);
}

/// Occurring in is transitive.
pub proof fn lemma_occurs_in_trans(p: Seq<char>, q: Seq<char>, r: Seq<char>)
    requires
        occurs_in(p, q),
        occurs_in(q, r),
    ensures
        occurs_in(p, r),
{
    let k1 = choose|k: int|
        0 <= k && k + p.len() <= q.len() && #[trigger] q.subrange(k, k + p.len()) == p;
    let k2 = choose|k: int|
        0 <= k && k + q.len() <= r.len() && #[trigger] r.subrange(k, k + q.len()) == q;
    assert forall|j: int| 0 <= j < p.len() implies #[trigger] r.subrange(
        k2 + k1,
        k2 + k1 + p.len(),
    )[j] == p[j] by {
        assert(p[j] == q.subrange(k1, k1 + p.len())[j]);
        assert(q[k1 + j] == r.subrange(k2, k2 + q.len())[k1 + j]);
    }
    assert(r.subrange(k2 + k1, k2 + k1 + p.len()) =~= p);
}

/// Each item of `terminated(items, term)`, with the `term` after it, occurs in it.
pub proof fn lemma_terminated_holds_each(items: Seq<Seq<char>>, term: Seq<char>, i: int)
    requires
        0 <= i < items.len(),
    ensures
        occurs_in(items[i] + term, terminated(items, term)),
    decreases items.len(),
{
    let init = terminated(items.drop_last(), term);
    assert(terminated(items, term) =~= init + (items.last() + term));
    if i == items.len() - 1 {
        lemma_occurs_in_self(items[i] + term);
        lemma_occurs_in_longer(items[i] + term, items[i] + term, init);
    } else {
        lemma_terminated_holds_each(items.drop_last(), term, i);
        assert(items.drop_last()[i] == items[i]);
        lemma_occurs_in_longer(items[i] + term, init, items.last() + term);
    }
}

/// Whether `attr` is the single identifier `name`.
pub open spec fn attr_is_ident(attr: AttrDef, name: Seq<char>) -> bool {
    match attr.path_ident {
        Some(id) => id@ == name,
        None => false,
    }
}

/// Concatenates the items, each followed by `term`.
pub fn join_terminated(items: &Vec<String>, term: &str) -> (res: String)
    ensures
        res@ == terminated(texts(items@), term@),
{
    let mut res = String::new();
    let mut i: usize = 0;
    while i < items.len()
        invariant
            i <= items.len(),
            res@ == terminated(texts(items@).take(i as int), term@),
        decreases items.len() - i,
    {
        proof {
            assert(texts(items@).take(i + 1).drop_last() =~= texts(items@).take(i as int));
        }
        res.append(items[i].as_str());
        res.append(term);
        i += 1;
    }
    proof {
        assert(texts(items@).take(items.len() as int) =~= texts(items@));
    }
    res
}

} // verus!
