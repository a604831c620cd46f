//! The default resolver: a table from field name to an opaque
//! default-value expression fragment, and the lookup over it.

use vstd::prelude::*;

use crate::errors::TransformError;

verus! {

/// One entry of a [`DefaultTable`]: a field name and the expression
/// fragment that is its default value.
#[derive(Debug, PartialEq, Eq)]
pub struct TableEntry {
    pub name: String,
    pub expr: String,
}

/// The mathematical value of a [`TableEntry`].
#[verifier::ext_equal]
pub ghost struct TableEntryV {
    pub name: Seq<char>,
    pub expr: Seq<char>,
}

impl View for TableEntry {
    type V = TableEntryV;

    open spec fn view(&self) -> TableEntryV {
        TableEntryV { name: self.name@, expr: self.expr@ }
    }
}

impl DeepView for TableEntry {
    type V = TableEntryV;

    open spec fn deep_view(&self) -> TableEntryV {
        self@
    }
}

/// An immutable mapping from field name to default-value expression,
/// built once per transformation and read by name equality. The first
/// entry with a matching name wins.
pub struct DefaultTable {
    pub entries: Vec<TableEntry>,
}

impl View for DefaultTable {
    type V = Seq<TableEntryV>;

    open spec fn view(&self) -> Seq<TableEntryV> {
        self.entries.deep_view()
    }
}

/// The expression that `entries` associates with `key`: the expression of
/// the first entry whose name equals `key`, or `None` when no entry
/// matches.
pub open spec fn spec_lookup(entries: Seq<TableEntryV>, key: Seq<char>) -> Option<Seq<char>>
    decreases entries.len(),
{
    if entries.len() == 0 {
        None
    } else if entries[0].name == key {
        Some(entries[0].expr)
    } else {
        spec_lookup(entries.drop_first(), key)
    }
}

/// A lookup misses exactly when no entry's name equals the key.
pub proof fn lemma_lookup_none(entries: Seq<TableEntryV>, key: Seq<char>)
    ensures
        spec_lookup(entries, key) is None <==> (forall|j: int|
            0 <= j < entries.len() ==> entries[j].name != key),
    decreases entries.len(),
{
    if entries.len() > 0 {
        let rest = entries.drop_first();
        lemma_lookup_none(rest, key);
        if spec_lookup(entries, key) is None {
            assert forall|j: int| 0 <= j < entries.len() implies entries[j].name != key by {
                if j > 0 {
                    assert(rest[j - 1] == entries[j]);
                }
            }
        }
        if forall|j: int| 0 <= j < entries.len() ==> entries[j].name != key {
            assert forall|j: int| 0 <= j < rest.len() implies rest[j].name != key by {
                assert(rest[j] == entries[j + 1]);
            }
        }
    }
}

impl DefaultTable {
    /// A table with no entries: every lookup misses.
    pub fn new() -> (r: DefaultTable)
        ensures
            r@ == Seq::<TableEntryV>::empty(),
    {
        DefaultTable { entries: Vec::new() }
    }

    /// Appends one `name -> expr` entry; earlier entries shadow it.
    pub fn insert(&mut self, name: String, expr: String)
        ensures
            final(self)@ == old(self)@.push(TableEntryV { name: name@, expr: expr@ }),
    {
        let ghost before = self@;
        let ghost nv = name@;
        let ghost ev = expr@;
        self.entries.push(TableEntry { name, expr });
        assert(self@ =~= before.push(TableEntryV { name: nv, expr: ev }));
    }

    /// Resolves the default expression for `name`, or reports
    /// `NoDefaultAvailable` carrying that name when the table has no
    /// entry for it.
    pub fn resolve(&self, name: &String) -> (r: Result<String, TransformError>)
        ensures
            match r {
                Ok(e) => spec_lookup(self@, name@) == Some(e@),
                Err(e) => spec_lookup(self@, name@) is None && e@
                    == crate::errors::TransformErrorV::NoDefaultAvailable(name@),
            },
    {
        let n = self.entries.len();
        let mut i: usize = 0;
        while i < n
            invariant
                n == self.entries.len(),
                i <= n,
                forall|j: int| 0 <= j < i ==> self@[j].name != name@,
            decreases n - i,
        {
            if self.entries[i].name.eq(name) {
                proof {
                    lemma_lookup_first_match(self@, name@, i as int);
                }
                return Ok(self.entries[i].expr.clone());
            }
            i += 1;
        }
        proof {
            lemma_lookup_none(self@, name@);
        }
        Err(TransformError::NoDefaultAvailable(name.clone()))
    }
}

/// If entry `i` is the first whose name equals `key`, the lookup returns
/// its expression.
pub proof fn lemma_lookup_first_match(entries: Seq<TableEntryV>, key: Seq<char>, i: int)
    requires
        0 <= i < entries.len(),
        entries[i].name == key,
        forall|j: int| 0 <= j < i ==> entries[j].name != key,
    ensures
        spec_lookup(entries, key) == Some(entries[i].expr),
    decreases i,
{
    if i > 0 {
        lemma_lookup_first_match(entries.drop_first(), key, i - 1);
        assert(forall|j: int|
            0 <= j < entries.drop_first().len() ==> entries.drop_first()[j] == entries[j + 1]);
    }
}

} // verus!
