//! The emitter: serializes a structural model back to source text. The
//! layout is fixed — attributes come first, each followed by one space;
//! arguments and fields are comma-joined — and every opaque fragment is
//! reproduced byte for byte.

use vstd::prelude::*;
use vstd::string::StringExecFns;

use crate::model::{AttrList, AttrListV, Field, FieldList, FieldListV, FieldV, TypeDef, TypeDefV};

verus! {

/// The comma-joined form of a sequence of raw fragments:
/// `a, b, c` — empty when there are none.
pub open spec fn spec_join_args(args: Seq<Seq<char>>) -> Seq<char>
    decreases args.len(),
{
    if args.len() == 0 {
        Seq::empty()
    } else if args.len() == 1 {
        args[0]
    } else {
        spec_join_args(args.drop_last()) + ", "@ + args.last()
    }
}

/// The serialized form of one attribute: `#[name]` without arguments,
/// `#[name(a, b)]` with them.
pub open spec fn spec_attr(a: AttrListV) -> Seq<char> {
    if a.args.len() == 0 {
        "#["@ + a.name + "]"@
    } else {
        "#["@ + a.name + "("@ + spec_join_args(a.args) + ")]"@
    }
}

/// The serialized form of an attribute sequence: each attribute followed
/// by one space.
pub open spec fn spec_attrs(attrs: Seq<AttrListV>) -> Seq<char>
    decreases attrs.len(),
{
    if attrs.len() == 0 {
        Seq::empty()
    } else {
        spec_attrs(attrs.drop_last()) + spec_attr(attrs.last()) + " "@
    }
}

/// The serialized form of one field: its attributes, then `name: type`
/// for a named field or the bare type for a positional one.
pub open spec fn spec_field(f: FieldV) -> Seq<char> {
    match f.name {
        Some(n) => spec_attrs(f.attrs) + n + ": "@ + f.ty,
        None => spec_attrs(f.attrs) + f.ty,
    }
}

/// The comma-joined form of a field sequence.
pub open spec fn spec_join_fields(fs: Seq<FieldV>) -> Seq<char>
    decreases fs.len(),
{
    if fs.len() == 0 {
        Seq::empty()
    } else if fs.len() == 1 {
        spec_field(fs[0])
    } else {
        spec_join_fields(fs.drop_last()) + ", "@ + spec_field(fs.last())
    }
}

/// The serialized form of a field block: named fields in braces,
/// positional fields in parentheses, nothing for a unit shape.
pub open spec fn spec_body(fl: FieldListV) -> Seq<char> {
    match fl {
        FieldListV::Named(fs) => if fs.len() == 0 {
            " {}"@
        } else {
            " { "@ + spec_join_fields(fs) + " }"@
        },
        FieldListV::Unnamed(fs) => "("@ + spec_join_fields(fs) + ")"@,
        FieldListV::Unit => Seq::empty(),
    }
}

/// The serialized form of a whole definition: struct attributes, the
/// visibility fragment (followed by a space when present), the `struct`
/// keyword, name, generics, field block, and the trailing terminator when
/// the definition carries one.
pub open spec fn spec_emit(d: TypeDefV) -> Seq<char> {
    spec_attrs(d.attrs) + (if d.vis.len() == 0 {
        Seq::<char>::empty()
    } else {
        d.vis + " "@
    }) + "struct "@ + d.name + d.generics + spec_body(d.fields) + (if d.semi {
        ";"@
    } else {
        Seq::<char>::empty()
    })
}

/// Appends the comma-joined arguments to `out`.
fn push_args(out: &mut String, args: &Vec<String>)
    ensures
        final(out)@ == old(out)@ + spec_join_args(args.deep_view()),
{
    let ghost av = args.deep_view();
    let ghost base = out@;
    let n = args.len();
    let mut i: usize = 0;
    while i < n
        invariant
            av == args.deep_view(),
            base == old(out)@,
            n == args.len(),
            i <= n,
            out@ == base + spec_join_args(av.take(i as int)),
        decreases n - i,
    {
        if i > 0 {
            out.append(", ");
        }
        out.append(args[i].as_str());
        proof {
            let t = av.take(i + 1 as int);
            assert(t.drop_last() =~= av.take(i as int));
            assert(t.last() == av[i as int]);
            if i == 0 {
                assert(spec_join_args(t) == av[0]);
                assert(base + Seq::<char>::empty() =~= base);
                assert(out@ =~= base + spec_join_args(t));
            } else {
                assert(out@ =~= base + spec_join_args(t));
            }
        }
        i += 1;
    }
    proof {
        assert(av.take(n as int) =~= av);
    }
}

/// Appends the serialized form of one attribute to `out`.
fn push_attr(out: &mut String, a: &AttrList)
    ensures
        final(out)@ == old(out)@ + spec_attr(a@),
{
    out.append("#[");
    out.append(a.name.as_str());
    if a.args.len() > 0 {
        out.append("(");
        push_args(out, &a.args);
        out.append(")]");
        proof {
            assert(a@.args.len() > 0);
            assert(old(out)@ + spec_attr(a@) =~= old(out)@ + "#["@ + a.name@ + "("@
                + spec_join_args(a@.args) + ")]"@);
            assert(out@ =~= old(out)@ + spec_attr(a@));
        }
    } else {
        out.append("]");
        proof {
            assert(a@.args.len() == 0);
            assert(out@ =~= old(out)@ + spec_attr(a@));
        }
    }
}

/// Appends the serialized attribute sequence to `out`.
fn push_attrs(out: &mut String, attrs: &Vec<AttrList>)
    ensures
        final(out)@ == old(out)@ + spec_attrs(attrs.deep_view()),
{
    let ghost av = attrs.deep_view();
    let ghost base = out@;
    let n = attrs.len();
    let mut i: usize = 0;
    while i < n
        invariant
            av == attrs.deep_view(),
            base == old(out)@,
            n == attrs.len(),
            i <= n,
            out@ == base + spec_attrs(av.take(i as int)),
        decreases n - i,
    {
        push_attr(out, &attrs[i]);
        out.append(" ");
        proof {
            let t = av.take(i + 1 as int);
            assert(t.drop_last() =~= av.take(i as int));
            assert(t.last() == av[i as int]);
            assert(out@ =~= base + spec_attrs(t));
        }
        i += 1;
    }
    proof {
        assert(av.take(n as int) =~= av);
    }
}

/// Appends the serialized form of one field to `out`.
fn push_field(out: &mut String, f: &Field)
    ensures
        final(out)@ == old(out)@ + spec_field(f@),
{
    push_attrs(out, &f.attrs);
    match &f.name {
        Some(n) => {
            out.append(n.as_str());
            out.append(": ");
            out.append(f.ty.as_str());
            proof {
                assert(out@ =~= old(out)@ + spec_field(f@));
            }
        },
        None => {
            out.append(f.ty.as_str());
            proof {
                assert(out@ =~= old(out)@ + spec_field(f@));
            }
        },
    }
}

/// Appends the comma-joined field sequence to `out`.
fn push_fields(out: &mut String, fs: &Vec<Field>)
    ensures
        final(out)@ == old(out)@ + spec_join_fields(fs.deep_view()),
{
    let ghost fv = fs.deep_view();
    let ghost base = out@;
    let n = fs.len();
    let mut i: usize = 0;
    while i < n
        invariant
            fv == fs.deep_view(),
            base == old(out)@,
            n == fs.len(),
            i <= n,
            out@ == base + spec_join_fields(fv.take(i as int)),
        decreases n - i,
    {
        if i > 0 {
            out.append(", ");
        }
        push_field(out, &fs[i]);
        proof {
            let t = fv.take(i + 1 as int);
            assert(t.drop_last() =~= fv.take(i as int));
            assert(t.last() == fv[i as int]);
            if i == 0 {
                assert(spec_join_fields(t) == spec_field(fv[0]));
                assert(out@ =~= base + spec_join_fields(t));
            } else {
                assert(out@ =~= base + spec_join_fields(t));
            }
        }
        i += 1;
    }
    proof {
        assert(fv.take(n as int) =~= fv);
    }
}

/// Serializes a whole definition, as [`spec_emit`] states: every name,
/// type and argument fragment appears byte for byte.
pub fn emit(d: &TypeDef) -> (r: String)
    ensures
        r@ == spec_emit(d@),
{
    let mut out = String::new();
    push_attrs(&mut out, &d.attrs);
    if !d.vis.as_str().is_empty() {
        out.append(d.vis.as_str());
        out.append(" ");
    }
    out.append("struct ");
    out.append(d.name.as_str());
    out.append(d.generics.as_str());
    let ghost mid = out@;
    match &d.fields {
        FieldList::Named(fs) => {
            if fs.len() == 0 {
                out.append(" {}");
            } else {
                out.append(" { ");
                push_fields(&mut out, fs);
                out.append(" }");
            }
            proof {
                assert(out@ =~= mid + spec_body(d.fields@));
            }
        },
        FieldList::Unnamed(fs) => {
            out.append("(");
            push_fields(&mut out, fs);
            out.append(")");
            proof {
                assert(out@ =~= mid + spec_body(d.fields@));
            }
        },
        FieldList::Unit => {
            proof {
                assert(mid + spec_body(d.fields@) =~= mid);
            }
        },
    }
    if d.semi {
        out.append(";");
    }
    proof {
        assert(out@ =~= spec_emit(d@));
    }
    out
}

} // verus!
