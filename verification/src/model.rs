//! The structural model of a record-type definition.
//!
//! A `TypeDef` carries everything the transformer reads or rewrites:
//! visibility, name, generic parameters, the field list and the trailing
//! terminator marker. Field types, default expressions, visibility and
//! generics are opaque source fragments: the transformer preserves them
//! verbatim and never interprets them.

use vstd::prelude::*;

verus! {

/// One attribute attached to a struct or to a field: an identifier naming
/// the attribute and an ordered sequence of raw argument fragments
/// (comma-separated when serialized). A list with no arguments serializes
/// without parentheses.
#[derive(Debug, PartialEq, Eq)]
pub struct AttrList {
    pub name: String,
    pub args: Vec<String>,
}

/// The mathematical value of an [`AttrList`].
#[verifier::ext_equal]
pub ghost struct AttrListV {
    pub name: Seq<char>,
    pub args: Seq<Seq<char>>,
}

impl View for AttrList {
    type V = AttrListV;

    open spec fn view(&self) -> AttrListV {
        AttrListV { name: self.name@, args: self.args.deep_view() }
    }
}

impl DeepView for AttrList {
    type V = AttrListV;

    open spec fn deep_view(&self) -> AttrListV {
        self@
    }
}

/// One field of a record type: an optional name (a well-formed named field
/// always has one), an opaque type fragment, and its attributes in order.
#[derive(Debug, PartialEq, Eq)]
pub struct Field {
    pub name: Option<String>,
    pub ty: String,
    pub attrs: Vec<AttrList>,
}

/// The mathematical value of a [`Field`].
#[verifier::ext_equal]
pub ghost struct FieldV {
    pub name: Option<Seq<char>>,
    pub ty: Seq<char>,
    pub attrs: Seq<AttrListV>,
}

impl View for Field {
    type V = FieldV;

    open spec fn view(&self) -> FieldV {
        FieldV { name: self.name.deep_view(), ty: self.ty@, attrs: self.attrs.deep_view() }
    }
}

impl DeepView for Field {
    type V = FieldV;

    open spec fn deep_view(&self) -> FieldV {
        self@
    }
}

/// The shape of a record type's field block: named fields in braces,
/// positional fields in parentheses, or no field block at all.
#[derive(Debug, PartialEq, Eq)]
pub enum FieldList {
    Named(Vec<Field>),
    Unnamed(Vec<Field>),
    Unit,
}

/// The mathematical value of a [`FieldList`].
#[verifier::ext_equal]
pub ghost enum FieldListV {
    Named(Seq<FieldV>),
    Unnamed(Seq<FieldV>),
    Unit,
}

impl View for FieldList {
    type V = FieldListV;

    open spec fn view(&self) -> FieldListV {
        match self {
            FieldList::Named(fs) => FieldListV::Named(fs.deep_view()),
            FieldList::Unnamed(fs) => FieldListV::Unnamed(fs.deep_view()),
            FieldList::Unit => FieldListV::Unit,
        }
    }
}

impl DeepView for FieldList {
    type V = FieldListV;

    open spec fn deep_view(&self) -> FieldListV {
        self@
    }
}

/// A whole record-type definition. `attrs` are the attributes above the
/// struct itself, preserved verbatim; `vis` and `generics` are opaque
/// fragments (possibly empty); `semi` records whether the definition ends
/// in a trailing terminator.
#[derive(Debug, PartialEq, Eq)]
pub struct TypeDef {
    pub attrs: Vec<AttrList>,
    pub vis: String,
    pub name: String,
    pub generics: String,
    pub fields: FieldList,
    pub semi: bool,
}

/// The mathematical value of a [`TypeDef`].
#[verifier::ext_equal]
pub ghost struct TypeDefV {
    pub attrs: Seq<AttrListV>,
    pub vis: Seq<char>,
    pub name: Seq<char>,
    pub generics: Seq<char>,
    pub fields: FieldListV,
    pub semi: bool,
}

impl View for TypeDef {
    type V = TypeDefV;

    open spec fn view(&self) -> TypeDefV {
        TypeDefV {
            attrs: self.attrs.deep_view(),
            vis: self.vis@,
            name: self.name@,
            generics: self.generics@,
            fields: self.fields@,
            semi: self.semi,
        }
    }
}

impl DeepView for TypeDef {
    type V = TypeDefV;

    open spec fn deep_view(&self) -> TypeDefV {
        self@
    }
}

} // verus!
