//! The general laws of the transformation, stated over the same spec
//! functions that the executable functions' contracts use.

use vstd::prelude::*;

use crate::errors::TransformErrorV;
use crate::merge::{
    spec_default_arg, spec_find_args_attr, spec_merge_field, spec_merge_fields,
    spec_transform_fields,
};
use crate::model::{FieldListV, FieldV};
use crate::spec_marker;
use crate::table::{spec_lookup, TableEntryV};

verus! {

/// Totality: when every field of a named block carries a name with an
/// entry in the table, the pass succeeds, and the output block has
/// exactly as many fields as the input block.
pub proof fn lemma_totality(table: Seq<TableEntryV>, fs: Seq<FieldV>)
    requires
        forall|j: int|
            0 <= j < fs.len() ==> (#[trigger] fs[j].name) is Some && spec_lookup(
                table,
                fs[j].name->0,
            ) is Some,
    ensures
        spec_transform_fields(table, FieldListV::Named(fs)) matches Ok(
            FieldListV::Named(gs),
        ) && gs.len() == fs.len(),
{
    lemma_merge_fields_total(table, fs);
}

/// Each field of `fs` resolves, so the field pass succeeds and keeps the
/// field count.
proof fn lemma_merge_fields_total(table: Seq<TableEntryV>, fs: Seq<FieldV>)
    requires
        forall|j: int|
            0 <= j < fs.len() ==> (#[trigger] fs[j].name) is Some && spec_lookup(
                table,
                fs[j].name->0,
            ) is Some,
    ensures
        spec_merge_fields(table, fs) matches Ok(gs) && gs.len() == fs.len(),
    decreases fs.len(),
{
    if fs.len() > 0 {
        let rest = fs.drop_first();
        assert(fs[0].name is Some && spec_lookup(table, fs[0].name->0) is Some);
        assert forall|j: int|
            0 <= j < rest.len() implies (#[trigger] rest[j].name) is Some && spec_lookup(
            table,
            rest[j].name->0,
        ) is Some by {
            assert(rest[j] == fs[j + 1]);
        }
        lemma_merge_fields_total(table, rest);
    }
}

/// Argument preservation: when the field's configuration attribute is
/// present with `n` existing arguments, the merged field keeps every
/// attribute in place, and that attribute now has `n + 1` arguments: the
/// first `n` identical in content and order to the input, and the last
/// the default directive for the resolved expression.
pub proof fn lemma_argument_preservation(table: Seq<TableEntryV>, f: FieldV, i: int)
    requires
        f.name is Some,
        spec_lookup(table, f.name->0) is Some,
        spec_find_args_attr(f.attrs) == Some(i),
        f.attrs[i].args.len() >= 1,
    ensures
        spec_merge_field(table, f) matches Ok(g) && {
            let n = f.attrs[i].args.len() as int;
            &&& g.name == f.name
            &&& g.ty == f.ty
            &&& g.attrs.len() == f.attrs.len()
            &&& g.attrs[i].name == f.attrs[i].name
            &&& g.attrs[i].args.len() == n + 1
            &&& forall|k: int| 0 <= k < n ==> g.attrs[i].args[k] == f.attrs[i].args[k]
            &&& g.attrs[i].args[n] == spec_default_arg(spec_lookup(table, f.name->0)->0)
            &&& forall|j: int| 0 <= j < f.attrs.len() && j != i ==> g.attrs[j] == f.attrs[j]
        },
{
    crate::merge::lemma_find_characterization(f.attrs);
}

/// Fresh-list creation: when the field has no configuration attribute,
/// the merged field has exactly one more attribute list than the input:
/// the input lists unchanged and in place, then a marker-named list whose
/// only argument is the default directive for the resolved expression.
pub proof fn lemma_fresh_list(table: Seq<TableEntryV>, f: FieldV)
    requires
        f.name is Some,
        spec_lookup(table, f.name->0) is Some,
        spec_find_args_attr(f.attrs) is None,
    ensures
        spec_merge_field(table, f) matches Ok(g) && {
            &&& g.name == f.name
            &&& g.ty == f.ty
            &&& g.attrs.len() == f.attrs.len() + 1
            &&& forall|j: int| 0 <= j < f.attrs.len() ==> g.attrs[j] == f.attrs[j]
            &&& g.attrs.last().name == spec_marker()
            &&& g.attrs.last().args.len() == 1
            &&& g.attrs.last().args[0] == spec_default_arg(spec_lookup(table, f.name->0)->0)
        },
{
}

/// Failure on an unknown field: when every field before `i` resolves but
/// field `i`'s name is absent from the table, the pass fails with
/// `NoDefaultAvailable` carrying that name, and produces no output.
pub proof fn lemma_failure_unknown_field(table: Seq<TableEntryV>, fs: Seq<FieldV>, i: int)
    requires
        0 <= i < fs.len(),
        forall|j: int| 0 <= j <= i ==> (#[trigger] fs[j].name) is Some,
        forall|j: int| 0 <= j < i ==> spec_lookup(table, #[trigger] fs[j].name->0) is Some,
        spec_lookup(table, fs[i].name->0) is None,
    ensures
        spec_transform_fields(table, FieldListV::Named(fs)) == Err::<
            FieldListV,
            TransformErrorV,
        >(TransformErrorV::NoDefaultAvailable(fs[i].name->0)),
{
    lemma_merge_fields_unknown(table, fs, i);
}

/// The field pass fails on the first field whose name the table misses.
proof fn lemma_merge_fields_unknown(table: Seq<TableEntryV>, fs: Seq<FieldV>, i: int)
    requires
        0 <= i < fs.len(),
        forall|j: int| 0 <= j <= i ==> (#[trigger] fs[j].name) is Some,
        forall|j: int| 0 <= j < i ==> spec_lookup(table, #[trigger] fs[j].name->0) is Some,
        spec_lookup(table, fs[i].name->0) is None,
    ensures
        spec_merge_fields(table, fs) == Err::<Seq<FieldV>, TransformErrorV>(
            TransformErrorV::NoDefaultAvailable(fs[i].name->0),
        ),
    decreases i,
{
    if i > 0 {
        let rest = fs.drop_first();
        assert forall|j: int| 0 <= j <= i - 1 implies (#[trigger] rest[j].name) is Some by {
            assert(rest[j] == fs[j + 1]);
        }
        assert forall|j: int|
            0 <= j < i - 1 implies spec_lookup(table, #[trigger] rest[j].name->0) is Some by {
            assert(rest[j] == fs[j + 1]);
        }
        assert(rest[i - 1] == fs[i]);
        lemma_merge_fields_unknown(table, rest, i - 1);
    }
}

/// Failure on a positional or absent field block: a definition whose
/// fields are not named is malformed, whatever the table holds.
pub proof fn lemma_failure_positional(table: Seq<TableEntryV>, fs: Seq<FieldV>)
    ensures
        spec_transform_fields(table, FieldListV::Unnamed(fs)) == Err::<
            FieldListV,
            TransformErrorV,
        >(TransformErrorV::MalformedDefinition),
        spec_transform_fields(table, FieldListV::Unit) == Err::<FieldListV, TransformErrorV>(
            TransformErrorV::MalformedDefinition,
        ),
{
}

/// Failure on an unnamed field inside a named block: when every field
/// before `i` resolves but field `i` carries no name, the pass reports a
/// malformed definition.
pub proof fn lemma_failure_unnamed_field(table: Seq<TableEntryV>, fs: Seq<FieldV>, i: int)
    requires
        0 <= i < fs.len(),
        fs[i].name is None,
        forall|j: int|
            0 <= j < i ==> (#[trigger] fs[j].name) is Some && spec_lookup(
                table,
                fs[j].name->0,
            ) is Some,
    ensures
        spec_transform_fields(table, FieldListV::Named(fs)) == Err::<
            FieldListV,
            TransformErrorV,
        >(TransformErrorV::MalformedDefinition),
{
    lemma_merge_fields_unnamed(table, fs, i);
}

/// The field pass reports a malformed definition on the first unnamed
/// field.
proof fn lemma_merge_fields_unnamed(table: Seq<TableEntryV>, fs: Seq<FieldV>, i: int)
    requires
        0 <= i < fs.len(),
        fs[i].name is None,
        forall|j: int|
            0 <= j < i ==> (#[trigger] fs[j].name) is Some && spec_lookup(
                table,
                fs[j].name->0,
            ) is Some,
    ensures
        spec_merge_fields(table, fs) == Err::<Seq<FieldV>, TransformErrorV>(
            TransformErrorV::MalformedDefinition,
        ),
    decreases i,
{
    if i > 0 {
        let rest = fs.drop_first();
        assert forall|j: int|
            0 <= j < i - 1 implies (#[trigger] rest[j].name) is Some && spec_lookup(
            table,
            rest[j].name->0,
        ) is Some by {
            assert(rest[j] == fs[j + 1]);
        }
        assert(rest[i - 1] == fs[i]);
        lemma_merge_fields_unnamed(table, rest, i - 1);
    }
}

/// Order preservation: whenever the field pass succeeds, the output
/// block has the fields of the input block in the same order, and each
/// field's name and type are identical to the input's.
pub proof fn lemma_order_preservation(table: Seq<TableEntryV>, fs: Seq<FieldV>)
    requires
        spec_merge_fields(table, fs) is Ok,
    ensures
        spec_merge_fields(table, fs) matches Ok(gs) && gs.len() == fs.len() && forall|k: int|
            0 <= k < fs.len() ==> (#[trigger] gs[k]).name == fs[k].name && gs[k].ty == fs[k].ty,
    decreases fs.len(),
{
    if fs.len() > 0 {
        let rest = fs.drop_first();
        lemma_order_preservation(table, rest);
        let g0 = spec_merge_field(table, fs[0])->Ok_0;
        let grest = spec_merge_fields(table, rest)->Ok_0;
        let gs = spec_merge_fields(table, fs)->Ok_0;
        assert(gs =~= seq![g0] + grest);
        assert forall|k: int|
            0 <= k < fs.len() implies (#[trigger] gs[k]).name == fs[k].name && gs[k].ty
            == fs[k].ty by {
            if k > 0 {
                assert(gs[k] == grest[k - 1]);
                assert(rest[k - 1] == fs[k]);
            }
        }
    }
}

} // verus!
