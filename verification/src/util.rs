use vstd::prelude::*;

verus! {

/// The text of an identifier fragment as `format_ident!` splices it: a raw
/// identifier (`r#name`) loses its `r#` prefix.
pub open spec fn unraw(ident: Seq<char>) -> Seq<char> {
    if ident.len() >= 2 && ident[0] == 'r' && ident[1] == '#' {
        ident.skip(2)
    } else {
        ident
    }
}

/// Name of the builder type generated for a struct.
pub open spec fn builder_ident(name: Seq<char>) -> Seq<char> {
    unraw(name) + "Builder"@
}

/// Name of the marker type that stands for "the next setter to call is `field`".
pub open spec fn field_struct_ident(builder: Seq<char>, field: Seq<char>) -> Seq<char> {
    unraw(field) + "Of"@ + unraw(builder)
}

/// Strips the `r#` prefix of a raw identifier, as identifier formatting does.
pub fn unraw_fragment(ident: &str) -> (res: String)
    ensures
        res@ == unraw(ident@),
{
    let len = ident.unicode_len();
    if len >= 2 && ident.get_char(0) == 'r' && ident.get_char(1) == '#' {
        let rest = ident.substring_char(2, len);
        assert(rest@ =~= ident@.skip(2));
        String::from_str(rest)
    } else {
        String::from_str(ident)
    }
}

/// `{name}Builder`: the identifier of the builder generated for struct `name`.
/// This is source text: once lexed, the identifier carries the call-site span,
/// not the span of `name`.
pub fn create_builder_ident(name: &str) -> (res: String)
    ensures
        res@ == builder_ident(name@),
{
    let mut res = unraw_fragment(name);
    res.append("Builder");
    res
}

/// `{field}Of{builder}`: the identifier of the marker type for `field`.
pub fn create_field_struct_name(builder: &str, field: &str) -> (res: String)
    ensures
        res@ == field_struct_ident(builder@, field@),
{
    let mut res = unraw_fragment(field);
    res.append("Of");
    let b = unraw_fragment(builder);
    res.append(b.as_str());
    res
}

} // verus!
