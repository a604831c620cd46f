//! The attribute merger: the core of the transformation. For each named
//! field, in declaration order, it resolves the field's default expression
//! by name and splices a `default_value_t = <expression>` argument into
//! the field's configuration attribute — appended after the existing
//! arguments when the attribute is present, or inside a brand-new
//! attribute list when it is not. One unresolved or unnamed field aborts
//! the whole pass.

use vstd::prelude::*;
use vstd::string::StringExecFns;

use crate::errors::{TransformError, TransformErrorV};
use crate::model::{AttrList, AttrListV, Field, FieldList, FieldListV, FieldV, TypeDef, TypeDefV};
use crate::spec_marker;
use crate::table::{spec_lookup, DefaultTable, TableEntryV};

verus! {

/// The argument fragment that encodes a default value: the directive
/// `default_value_t = ` followed by the opaque expression.
pub open spec fn spec_default_arg(expr: Seq<char>) -> Seq<char> {
    "default_value_t = "@ + expr
}

/// The index of the first attribute list named by the configuration
/// marker, if any.
pub open spec fn spec_find_args_attr(attrs: Seq<AttrListV>) -> Option<int>
    decreases attrs.len(),
{
    if attrs.len() == 0 {
        None
    } else if attrs[0].name == spec_marker() {
        Some(0)
    } else {
        match spec_find_args_attr(attrs.drop_first()) {
            Some(i) => Some(i + 1),
            None => None,
        }
    }
}

/// The scan finds exactly the first marker-named attribute list: a `Some`
/// result points at a marker-named list preceded by none, and a `None`
/// result means no list is marker-named.
pub proof fn lemma_find_characterization(attrs: Seq<AttrListV>)
    ensures
        match spec_find_args_attr(attrs) {
            Some(i) => 0 <= i < attrs.len() && attrs[i].name == spec_marker() && forall|j: int|
                0 <= j < i ==> attrs[j].name != spec_marker(),
            None => forall|j: int| 0 <= j < attrs.len() ==> attrs[j].name != spec_marker(),
        },
    decreases attrs.len(),
{
    if attrs.len() > 0 {
        let rest = attrs.drop_first();
        lemma_find_characterization(rest);
        if attrs[0].name != spec_marker() {
            match spec_find_args_attr(rest) {
                Some(i) => {
                    assert(attrs[i + 1] == rest[i]);
                    assert forall|j: int| 0 <= j < i + 1 implies attrs[j].name
                        != spec_marker() by {
                        if j > 0 {
                            assert(attrs[j] == rest[j - 1]);
                        }
                    }
                },
                None => {
                    assert forall|j: int| 0 <= j < attrs.len() implies attrs[j].name
                        != spec_marker() by {
                        if j > 0 {
                            assert(attrs[j] == rest[j - 1]);
                        }
                    }
                },
            }
        }
    }
}

/// If entry `i` is marker-named and no earlier entry is, the scan
/// returns `i`.
pub proof fn lemma_find_first(attrs: Seq<AttrListV>, i: int)
    requires
        0 <= i < attrs.len(),
        attrs[i].name == spec_marker(),
        forall|j: int| 0 <= j < i ==> attrs[j].name != spec_marker(),
    ensures
        spec_find_args_attr(attrs) == Some(i),
    decreases i,
{
    if i > 0 {
        let rest = attrs.drop_first();
        assert(rest[i - 1] == attrs[i]);
        assert forall|j: int| 0 <= j < i - 1 implies rest[j].name != spec_marker() by {
            assert(rest[j] == attrs[j + 1]);
        }
        lemma_find_first(rest, i - 1);
    }
}

/// If no entry is marker-named, the scan misses.
pub proof fn lemma_find_none(attrs: Seq<AttrListV>)
    requires
        forall|j: int| 0 <= j < attrs.len() ==> attrs[j].name != spec_marker(),
    ensures
        spec_find_args_attr(attrs) is None,
    decreases attrs.len(),
{
    if attrs.len() > 0 {
        let rest = attrs.drop_first();
        assert forall|j: int| 0 <= j < rest.len() implies rest[j].name != spec_marker() by {
            assert(rest[j] == attrs[j + 1]);
        }
        lemma_find_none(rest);
    }
}

/// The merged attribute sequence for one field: with a marker-named list
/// present, that list gains the default argument after its existing
/// arguments, all other lists unchanged; with none present, a fresh
/// marker-named list holding exactly the default argument is appended.
pub open spec fn spec_merge_attrs(attrs: Seq<AttrListV>, expr: Seq<char>) -> Seq<AttrListV> {
    match spec_find_args_attr(attrs) {
        Some(i) => attrs.update(
            i,
            AttrListV { name: attrs[i].name, args: attrs[i].args.push(spec_default_arg(expr)) },
        ),
        None => attrs.push(AttrListV { name: spec_marker(), args: seq![spec_default_arg(expr)] }),
    }
}

/// The merged form of one field: its name and type unchanged, its
/// attributes merged with the expression the table resolves for its name;
/// an unnamed field is malformed and an unresolved name is reported with
/// that name.
pub open spec fn spec_merge_field(table: Seq<TableEntryV>, f: FieldV) -> Result<
    FieldV,
    TransformErrorV,
> {
    match f.name {
        None => Err(TransformErrorV::MalformedDefinition),
        Some(n) => match spec_lookup(table, n) {
            None => Err(TransformErrorV::NoDefaultAvailable(n)),
            Some(expr) => Ok(
                FieldV { name: f.name, ty: f.ty, attrs: spec_merge_attrs(f.attrs, expr) },
            ),
        },
    }
}

/// The merged form of a field sequence, in declaration order, failing
/// fast: the error of the first field that fails, with no output.
pub open spec fn spec_merge_fields(table: Seq<TableEntryV>, fs: Seq<FieldV>) -> Result<
    Seq<FieldV>,
    TransformErrorV,
>
    decreases fs.len(),
{
    if fs.len() == 0 {
        Ok(Seq::empty())
    } else {
        match spec_merge_field(table, fs[0]) {
            Err(e) => Err(e),
            Ok(g) => match spec_merge_fields(table, fs.drop_first()) {
                Err(e) => Err(e),
                Ok(rest) => Ok(seq![g] + rest),
            },
        }
    }
}

/// The merged form of a whole field block: only named fields are
/// supported; a positional or absent field block is malformed.
pub open spec fn spec_transform_fields(table: Seq<TableEntryV>, fl: FieldListV) -> Result<
    FieldListV,
    TransformErrorV,
> {
    match fl {
        FieldListV::Named(fs) => match spec_merge_fields(table, fs) {
            Ok(gs) => Ok(FieldListV::Named(gs)),
            Err(e) => Err(e),
        },
        FieldListV::Unnamed(fs) => Err(TransformErrorV::MalformedDefinition),
        FieldListV::Unit => Err(TransformErrorV::MalformedDefinition),
    }
}

/// The index of the first attribute list whose name is the configuration
/// marker, or `None` when the field has no such list.
pub fn find_args_attr(attrs: &Vec<AttrList>) -> (r: Option<usize>)
    ensures
        match r {
            Some(i) => i < attrs.len() && spec_find_args_attr(attrs.deep_view()) == Some(i as int),
            None => spec_find_args_attr(attrs.deep_view()) is None,
        },
{
    let marker = String::from_str("arg");
    let n = attrs.len();
    let mut i: usize = 0;
    while i < n
        invariant
            marker@ == spec_marker(),
            n == attrs.len(),
            i <= n,
            forall|j: int| 0 <= j < i ==> attrs.deep_view()[j].name != spec_marker(),
        decreases n - i,
    {
        if attrs[i].name.eq(&marker) {
            proof {
                lemma_find_first(attrs.deep_view(), i as int);
            }
            return Some(i);
        }
        i += 1;
    }
    proof {
        lemma_find_none(attrs.deep_view());
    }
    None
}

/// The exec form of [`spec_default_arg`]: the directive text followed by
/// the expression fragment.
pub fn make_default_arg(expr: &String) -> (r: String)
    ensures
        r@ == spec_default_arg(expr@),
{
    String::from_str("default_value_t = ").concat(expr.as_str())
}

/// Splices the default argument for `expr` into `attrs`, as
/// [`spec_merge_attrs`] states.
pub fn merge_attrs(attrs: Vec<AttrList>, expr: &String) -> (r: Vec<AttrList>)
    ensures
        r.deep_view() == spec_merge_attrs(attrs.deep_view(), expr@),
{
    let ghost av = attrs.deep_view();
    let mut attrs = attrs;
    let new_arg = make_default_arg(expr);
    let ghost nav = new_arg@;
    match find_args_attr(&attrs) {
        Some(i) => {
            let mut al = attrs.remove(i);
            let ghost alv = al@;
            proof {
                assert(alv == av[i as int]);
            }
            al.args.push(new_arg);
            proof {
                assert(al@.args =~= alv.args.push(nav));
            }
            attrs.insert(i, al);
            proof {
                assert(attrs.deep_view() =~~= av.update(
                    i as int,
                    AttrListV { name: alv.name, args: alv.args.push(nav) },
                ));
            }
            attrs
        },
        None => {
            let mut args: Vec<String> = Vec::new();
            args.push(new_arg);
            proof {
                assert(args.deep_view() =~= seq![nav]);
            }
            attrs.push(AttrList { name: String::from_str("arg"), args });
            proof {
                assert(attrs.deep_view() =~~= av.push(
                    AttrListV { name: spec_marker(), args: seq![nav] },
                ));
            }
            attrs
        },
    }
}

/// Merges the default argument into one field, as [`spec_merge_field`]
/// states: the field keeps its name and type, and only its attribute
/// sequence changes.
pub fn merge_field(table: &DefaultTable, f: Field) -> (r: Result<Field, TransformError>)
    ensures
        match r {
            Ok(g) => spec_merge_field(table@, f@) == Ok::<FieldV, TransformErrorV>(g@),
            Err(e) => spec_merge_field(table@, f@) == Err::<FieldV, TransformErrorV>(e@),
        },
{
    let Field { name, ty, attrs } = f;
    match name {
        None => Err(TransformError::MalformedDefinition),
        Some(n) => match table.resolve(&n) {
            Err(e) => Err(e),
            Ok(expr) => {
                let new_attrs = merge_attrs(attrs, &expr);
                let g = Field { name: Some(n), ty, attrs: new_attrs };
                proof {
                    assert(spec_merge_field(table@, f@) =~~= Ok(g@));
                }
                Ok(g)
            },
        },
    }
}

/// Merges a default argument into every field of the block, in
/// declaration order and failing fast, as [`spec_transform_fields`]
/// states.
pub fn define_default_vals(default_expr_map: &DefaultTable, fields: FieldList) -> (r: Result<
    FieldList,
    TransformError,
>)
    ensures
        match r {
            Ok(fl) => spec_transform_fields(default_expr_map@, fields@) == Ok::<
                FieldListV,
                TransformErrorV,
            >(fl@),
            Err(e) => spec_transform_fields(default_expr_map@, fields@) == Err::<
                FieldListV,
                TransformErrorV,
            >(e@),
        },
{
    let ghost tv = default_expr_map@;
    match fields {
        FieldList::Named(fs) => {
            let ghost fsv = fs.deep_view();
            let mut rest = fs;
            let mut out: Vec<Field> = Vec::new();
            proof {
                assert(Seq::<FieldV>::empty() + fsv =~= fsv);
            }
            while rest.len() > 0
                invariant
                    tv == default_expr_map@,
                    fields@ == FieldListV::Named(fsv),
                    spec_merge_fields(tv, fsv) == (match spec_merge_fields(
                        tv,
                        rest.deep_view(),
                    ) {
                        Ok(r2) => Ok::<Seq<FieldV>, TransformErrorV>(out.deep_view() + r2),
                        Err(e) => Err(e),
                    }),
                decreases rest.len(),
            {
                let ghost restv = rest.deep_view();
                let ghost outv = out.deep_view();
                let f = rest.remove(0);
                let ghost fv = f@;
                proof {
                    assert(fv == restv[0]);
                    assert(rest.deep_view() =~= restv.drop_first());
                }
                match merge_field(default_expr_map, f) {
                    Err(e) => {
                        proof {
                            assert(spec_merge_field(tv, restv[0]) == Err::<
                                FieldV,
                                TransformErrorV,
                            >(e@));
                            assert(spec_merge_fields(tv, restv) == Err::<
                                Seq<FieldV>,
                                TransformErrorV,
                            >(e@));
                        }
                        return Err(e);
                    },
                    Ok(g) => {
                        let ghost gv = g@;
                        out.push(g);
                        proof {
                            assert(spec_merge_field(tv, restv[0]) == Ok::<
                                FieldV,
                                TransformErrorV,
                            >(gv));
                            assert(out.deep_view() =~= outv.push(gv));
                            match spec_merge_fields(tv, restv.drop_first()) {
                                Ok(r2) => {
                                    assert(spec_merge_fields(tv, restv) == Ok::<
                                        Seq<FieldV>,
                                        TransformErrorV,
                                    >(seq![gv] + r2));
                                    assert(outv + (seq![gv] + r2) =~= outv.push(gv) + r2);
                                },
                                Err(e2) => {
                                    assert(spec_merge_fields(tv, restv) == Err::<
                                        Seq<FieldV>,
                                        TransformErrorV,
                                    >(e2));
                                },
                            }
                        }
                    },
                }
            }
            proof {
                assert(rest.deep_view() =~= Seq::<FieldV>::empty());
                assert(spec_merge_fields(tv, rest.deep_view()) == Ok::<
                    Seq<FieldV>,
                    TransformErrorV,
                >(Seq::empty()));
                assert(out.deep_view() + Seq::<FieldV>::empty() =~= out.deep_view());
            }
            Ok(FieldList::Named(out))
        },
        FieldList::Unnamed(_) => Err(TransformError::MalformedDefinition),
        FieldList::Unit => Err(TransformError::MalformedDefinition),
    }
}

/// The transformed form of a whole definition: visibility, name,
/// generics and terminator unchanged, the field block merged.
pub open spec fn spec_transform(table: Seq<TableEntryV>, d: TypeDefV) -> Result<
    TypeDefV,
    TransformErrorV,
> {
    match spec_transform_fields(table, d.fields) {
        Ok(fl) => Ok(
            TypeDefV {
                attrs: d.attrs,
                vis: d.vis,
                name: d.name,
                generics: d.generics,
                fields: fl,
                semi: d.semi,
            },
        ),
        Err(e) => Err(e),
    }
}

/// Transforms a whole definition, as [`spec_transform`] states: only the
/// field block changes, and the error of the field pass is passed on
/// unchanged.
pub fn transform(table: &DefaultTable, def: TypeDef) -> (r: Result<TypeDef, TransformError>)
    ensures
        match r {
            Ok(d) => spec_transform(table@, def@) == Ok::<TypeDefV, TransformErrorV>(d@),
            Err(e) => spec_transform(table@, def@) == Err::<TypeDefV, TransformErrorV>(e@),
        },
{
    let ghost dv = def@;
    let TypeDef { attrs, vis, name, generics, fields, semi } = def;
    match define_default_vals(table, fields) {
        Err(e) => Err(e),
        Ok(fl) => {
            let out = TypeDef { attrs, vis, name, generics, fields: fl, semi };
            proof {
                assert(spec_transform(table@, dv) =~~= Ok(out@));
            }
            Ok(out)
        },
    }
}

} // verus!
