//! The immutable records a parse produces: sorts and lines, with their
//! mathematical models.

use vstd::prelude::*;

use crate::tags::Btor2SortTag;
use crate::tags::Btor2Tag;

verus! {

/// Model of a sort's content: a fixed width, or index/element sort ids.
#[verifier::ext_equal]
pub enum SortContentModel {
    Array { index: int, element: int },
    Bitvec { width: int },
}

/// Model of one declared sort.
#[verifier::ext_equal]
pub struct SortModel {
    pub id: int,
    pub tag: Btor2SortTag,
    pub name: Option<Seq<u8>>,
    pub content: SortContentModel,
}

/// Model of one parsed line.
#[verifier::ext_equal]
pub struct LineModel {
    pub id: int,
    pub lineno: int,
    pub name: Seq<u8>,
    pub tag: Btor2Tag,
    pub sort: Option<SortModel>,
    pub init: int,
    pub next: int,
    pub constant: Option<Seq<u8>>,
    pub symbol: Option<Seq<u8>>,
    pub args: Seq<int>,
}

/// The model of an optional byte payload.
pub open spec fn opt_bytes_model(o: Option<Vec<u8>>) -> Option<Seq<u8>> {
    match o {
        Some(v) => Some(v@),
        None => None,
    }
}

/// The model of an argument vector: its ids as mathematical integers.
pub open spec fn ids_model(v: Seq<i64>) -> Seq<int> {
    v.map_values(|a: i64| a as int)
}

/// The content of a sort: a bit-vector width, or the ids of an array's
/// index and element sorts.
#[derive(Clone, Copy, Debug, PartialEq, Eq, Structural)]
pub enum Btor2SortContent {
    Array { index: i64, element: i64 },
    Bitvec { width: u32 },
}

/// One declared sort: its id, kind, optional name and content.
#[derive(Debug)]
pub struct Btor2Sort {
    pub(crate) id: i64,
    pub(crate) tag: Btor2SortTag,
    pub(crate) name: Option<Vec<u8>>,
    pub(crate) content: Btor2SortContent,
}

impl View for Btor2Sort {
    type V = SortModel;

    closed spec fn view(&self) -> SortModel {
        SortModel {
            id: self.id as int,
            tag: self.tag,
            name: match self.name {
                Some(n) => Some(n@),
                None => None,
            },
            content: match self.content {
                Btor2SortContent::Array { index, element } => SortContentModel::Array {
                    index: index as int,
                    element: element as int,
                },
                Btor2SortContent::Bitvec { width } => SortContentModel::Bitvec {
                    width: width as int,
                },
            },
        }
    }
}

impl Btor2Sort {
    /// The id of the `sort` line that declared this sort.
    pub fn id(&self) -> (r: i64)
        ensures
            r as int == self@.id,
    {
        self.id
    }

    /// Whether the sort is a bit-vector or an array.
    pub fn tag(&self) -> (r: Btor2SortTag)
        ensures
            r == self@.tag,
    {
        self.tag
    }

    /// The optional name the declaration carried.
    pub fn name(&self) -> (r: Option<&Vec<u8>>)
        ensures
            match r {
                Some(n) => self@.name == Some(n@),
                None => self@.name is None,
            },
    {
        match &self.name {
            Some(n) => Some(n),
            None => None,
        }
    }

    /// The sort's content: a width, or index/element sort ids.
    pub fn content(&self) -> (r: Btor2SortContent)
        ensures
            match r {
                Btor2SortContent::Array { index, element } => self@.content
                    == (SortContentModel::Array { index: index as int, element: element as int }),
                Btor2SortContent::Bitvec { width } => self@.content == (SortContentModel::Bitvec {
                    width: width as int,
                }),
            },
    {
        self.content
    }

    /// Builds a sort record with the given parts.
    pub fn assemble(
        id: i64,
        tag: Btor2SortTag,
        name: Option<Vec<u8>>,
        content: Btor2SortContent,
    ) -> (r: Btor2Sort)
        ensures
            r@ == (SortModel {
                id: id as int,
                tag,
                name: opt_bytes_model(name),
                content: match content {
                    Btor2SortContent::Array { index, element } => SortContentModel::Array {
                        index: index as int,
                        element: element as int,
                    },
                    Btor2SortContent::Bitvec { width } => SortContentModel::Bitvec {
                        width: width as int,
                    },
                },
            }),
    {
        Btor2Sort { id, tag, name, content }
    }

    /// An identical copy of this sort.
    pub fn duplicate(&self) -> (r: Btor2Sort)
        ensures
            r@ == self@,
    {
        Btor2Sort {
            id: self.id,
            tag: self.tag,
            name: match &self.name {
                Some(n) => Some(clone_bytes(n)),
                None => None,
            },
            content: self.content,
        }
    }
}

/// An identical copy of a byte vector.
pub fn clone_bytes(v: &Vec<u8>) -> (r: Vec<u8>)
    ensures
        r@ == v@,
{
    let mut out: Vec<u8> = Vec::new();
    let n = v.len();
    let mut i: usize = 0;
    while i < n
        invariant
            i <= n,
            n == v@.len(),
            out@ =~= v@.take(i as int),
        decreases n - i,
    {
        out.push(v[i]);
        proof {
            assert(out@ =~= v@.take(i + 1));
        }
        i += 1;
    }
    proof {
        assert(v@.take(n as int) =~= v@);
    }
    out
}

/// An identical copy of a vector of ids.
pub fn clone_ids(v: &Vec<i64>) -> (r: Vec<i64>)
    ensures
        r@ == v@,
{
    let mut out: Vec<i64> = Vec::new();
    let n = v.len();
    let mut i: usize = 0;
    while i < n
        invariant
            i <= n,
            n == v@.len(),
            out@ =~= v@.take(i as int),
        decreases n - i,
    {
        out.push(v[i]);
        proof {
            assert(out@ =~= v@.take(i + 1));
        }
        i += 1;
    }
    proof {
        assert(v@.take(n as int) =~= v@);
    }
    out
}

/// One parsed statement: id, source line number, tag, resolved sort and
/// arguments, and the optional payloads.
#[derive(Debug)]
pub struct Btor2Line {
    pub(crate) id: i64,
    pub(crate) lineno: u64,
    pub(crate) name: Vec<u8>,
    pub(crate) tag: Btor2Tag,
    pub(crate) sort: Option<Btor2Sort>,
    pub(crate) init: i64,
    pub(crate) next: i64,
    pub(crate) constant: Option<Vec<u8>>,
    pub(crate) symbol: Option<Vec<u8>>,
    pub(crate) args: Vec<i64>,
}

impl View for Btor2Line {
    type V = LineModel;

    closed spec fn view(&self) -> LineModel {
        LineModel {
            id: self.id as int,
            lineno: self.lineno as int,
            name: self.name@,
            tag: self.tag,
            sort: match self.sort {
                Some(s) => Some(s@),
                None => None,
            },
            init: self.init as int,
            next: self.next as int,
            constant: match self.constant {
                Some(c) => Some(c@),
                None => None,
            },
            symbol: match self.symbol {
                Some(s) => Some(s@),
                None => None,
            },
            args: self.args@.map_values(|a: i64| a as int),
        }
    }
}

impl Btor2Line {
    /// The line's declared id.
    pub fn id(&self) -> (r: i64)
        ensures
            r as int == self@.id,
    {
        self.id
    }

    /// The 1-based source line number the statement stood on.
    pub fn lineno(&self) -> (r: u64)
        ensures
            r as int == self@.lineno,
    {
        self.lineno
    }

    /// The mnemonic that named the line's tag.
    pub fn name(&self) -> (r: &Vec<u8>)
        ensures
            r@ == self@.name,
    {
        &self.name
    }

    /// The line's tag.
    pub fn tag(&self) -> (r: Btor2Tag)
        ensures
            r == self@.tag,
    {
        self.tag
    }

    /// The resolved sort of the line, absent for tags that carry none.
    pub fn sort(&self) -> (r: Option<&Btor2Sort>)
        ensures
            match r {
                Some(s) => self@.sort == Some(s@),
                None => self@.sort is None,
            },
    {
        match &self.sort {
            Some(s) => Some(s),
            None => None,
        }
    }

    /// The initial-value id attached to a state line, 0 while unset.
    pub fn init(&self) -> (r: i64)
        ensures
            r as int == self@.init,
    {
        self.init
    }

    /// The next-state id attached to a state line, 0 while unset.
    pub fn next(&self) -> (r: i64)
        ensures
            r as int == self@.next,
    {
        self.next
    }

    /// The literal payload of a constant line.
    pub fn constant(&self) -> (r: Option<&Vec<u8>>)
        ensures
            match r {
                Some(c) => self@.constant == Some(c@),
                None => self@.constant is None,
            },
    {
        match &self.constant {
            Some(c) => Some(c),
            None => None,
        }
    }

    /// The user-facing symbol the line carried.
    pub fn symbol(&self) -> (r: Option<&Vec<u8>>)
        ensures
            match r {
                Some(s) => self@.symbol == Some(s@),
                None => self@.symbol is None,
            },
    {
        match &self.symbol {
            Some(s) => Some(s),
            None => None,
        }
    }

    /// The line's arguments: resolved ids first, then any immediates.
    pub fn args(&self) -> (r: &Vec<i64>)
        ensures
            r@.map_values(|a: i64| a as int) == self@.args,
    {
        &self.args
    }

    /// Builds a line record with the given parts.
    pub fn assemble(
        id: i64,
        lineno: u64,
        name: Vec<u8>,
        tag: Btor2Tag,
        sort: Option<Btor2Sort>,
        constant: Option<Vec<u8>>,
        symbol: Option<Vec<u8>>,
        args: Vec<i64>,
    ) -> (r: Btor2Line)
        ensures
            r@ == (LineModel {
                id: id as int,
                lineno: lineno as int,
                name: name@,
                tag,
                sort: match sort {
                    Some(s) => Some(s@),
                    None => None,
                },
                init: 0,
                next: 0,
                constant: opt_bytes_model(constant),
                symbol: opt_bytes_model(symbol),
                args: ids_model(args@),
            }),
    {
        Btor2Line { id, lineno, name, tag, sort, init: 0, next: 0, constant, symbol, args }
    }

    /// Attaches the initial-value id of an `init` statement to this line.
    pub fn set_init(&mut self, v: i64)
        ensures
            final(self)@ == (LineModel { init: v as int, ..old(self)@ }),
    {
        self.init = v;
    }

    /// Attaches the next-state id of a `next` statement to this line.
    pub fn set_next(&mut self, v: i64)
        ensures
            final(self)@ == (LineModel { next: v as int, ..old(self)@ }),
    {
        self.next = v;
    }

    /// An identical copy of this line.
    pub fn duplicate(&self) -> (r: Btor2Line)
        ensures
            r@ == self@,
    {
        Btor2Line {
            id: self.id,
            lineno: self.lineno,
            name: clone_bytes(&self.name),
            tag: self.tag,
            sort: match &self.sort {
                Some(s) => Some(s.duplicate()),
                None => None,
            },
            init: self.init,
            next: self.next,
            constant: match &self.constant {
                Some(c) => Some(clone_bytes(c)),
                None => None,
            },
            symbol: match &self.symbol {
                Some(s) => Some(clone_bytes(s)),
                None => None,
            },
            args: clone_ids(&self.args),
        }
    }
}

} // verus!
