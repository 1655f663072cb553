//! Source locations: lexer coordinates, semantic spans, and the cache of
//! canonical file paths that one render pass keeps.

use vstd::prelude::*;

verus! {

/// A lexer coordinate: the raw file name, a 1-based line and a 0-based column.
pub struct Loc {
    pub file: String,
    pub line: usize,
    pub col: usize,
}

/// A semantic location: canonical file path and 0-based start and end.
#[derive(Debug)]
pub struct Span {
    pub file_name: String,
    pub line_start: usize,
    pub column_start: usize,
    pub line_end: usize,
    pub column_end: usize,
}

/// Two spans are equal when every field is.
pub open spec fn same_span(a: Span, b: Span) -> bool {
    &&& a.file_name@ == b.file_name@
    &&& a.line_start == b.line_start
    &&& a.column_start == b.column_start
    &&& a.line_end == b.line_end
    &&& a.column_end == b.column_end
}

impl PartialEq for Span {
    fn eq(&self, o: &Span) -> (r: bool) {
        self.file_name == o.file_name && self.line_start == o.line_start && self.column_start
            == o.column_start && self.line_end == o.line_end && self.column_end == o.column_end
    }
}

impl vstd::std_specs::cmp::PartialEqSpecImpl for Span {
    open spec fn obeys_eq_spec() -> bool {
        true
    }

    open spec fn eq_spec(&self, o: &Span) -> bool {
        same_span(*self, *o)
    }
}

impl Clone for Span {
    fn clone(&self) -> (r: Span)
        ensures
            r == *self,
    {
        Span {
            file_name: self.file_name.clone(),
            line_start: self.line_start,
            column_start: self.column_start,
            line_end: self.line_end,
            column_end: self.column_end,
        }
    }
}

/// The canonical path of a file named `raw`: what the file system gave, or
/// the raw name itself where it could give none.
pub fn canonical_or_raw(raw: &String, found: Option<String>) -> (r: String)
    ensures
        r@ == match found {
            Some(p) => p@,
            None => raw@,
        },
{
    match found {
        Some(p) => p,
        None => raw.clone(),
    }
}

/// Canonical paths by raw file name, filled as names are first met.
pub struct PathCache {
    names: Vec<String>,
    paths: Vec<String>,
    model: Ghost<Map<Seq<char>, Seq<char>>>,
}

/// What a lookup of `raw` does to a cache `m` whose canonicalizer would answer
/// `fresh`: the path handed back and the cache after it.
pub open spec fn cache_step(m: Map<Seq<char>, Seq<char>>, raw: Seq<char>, fresh: Seq<char>) -> (
    Seq<char>,
    Map<Seq<char>, Seq<char>>,
) {
    if m.contains_key(raw) {
        (m[raw], m)
    } else {
        (fresh, m.insert(raw, fresh))
    }
}

/// A name looked up twice in one pass: the second lookup hands back the path
/// that the first did and leaves the cache as the first left it, whatever the
/// canonicalizer would have answered the second time.
pub proof fn lemma_cache_idempotent(
    m: Map<Seq<char>, Seq<char>>,
    raw: Seq<char>,
    first: Seq<char>,
    second: Seq<char>,
)
    ensures
        ({
            let (r1, m1) = cache_step(m, raw, first);
            let (r2, m2) = cache_step(m1, raw, second);
            r2 == r1 && m2 == m1 && m1.contains_key(raw)
        }),
{
}

impl View for PathCache {
    type V = Map<Seq<char>, Seq<char>>;

    closed spec fn view(&self) -> Map<Seq<char>, Seq<char>> {
        self.model@
    }
}

impl PathCache {
    /// The names and paths kept agree with the map that the cache stands for.
    pub closed spec fn wf(&self) -> bool {
        &&& self.names@.len() == self.paths@.len()
        &&& forall|i: int|
            0 <= i < self.names@.len() ==> #[trigger] self.model@.contains_key(self.names@[i]@)
                && self.model@[self.names@[i]@] == self.paths@[i]@
        &&& forall|k: Seq<char>|
            #[trigger] self.model@.contains_key(k) ==> exists|i: int|
                0 <= i < self.names@.len() && self.names@[i]@ == k
    }

    /// An empty cache.
    pub fn new() -> (r: PathCache)
        ensures
            r.wf(),
            r@ == Map::<Seq<char>, Seq<char>>::empty(),
    {
        PathCache { names: Vec::new(), paths: Vec::new(), model: Ghost(Map::empty()) }
    }

    /// The cached path of `raw`, if it has one.
    pub fn cached(&self, raw: &String) -> (r: Option<String>)
        requires
            self.wf(),
        ensures
            match r {
                Some(p) => self@.contains_key(raw@) && self@[raw@] == p@,
                None => !self@.contains_key(raw@),
            },
    {
        let n = self.names.len();
        let mut i: usize = 0;
        while i < n
            invariant
                self.wf(),
                n == self.names@.len(),
                i <= n,
                forall|j: int| 0 <= j < i ==> self.names@[j]@ != raw@,
            decreases n - i,
        {
            if self.names[i] == *raw {
                return Some(self.paths[i].clone());
            }
            i = i + 1;
        }
        None
    }

    /// The canonical path of `raw`: the cached one, or else what `canon` gives,
    /// which is then kept for the rest of the pass.
    pub fn canonical<F: Fn(&String) -> String>(&mut self, raw: &String, canon: F) -> (r: String)
        requires
            old(self).wf(),
            canon.requires((raw,)),
        ensures
            final(self).wf(),
            old(self)@.contains_key(raw@) ==> r@ == old(self)@[raw@] && final(self)@
                == old(self)@,
            exists|fresh: String|
                #[trigger] cache_step(old(self)@, raw@, fresh@) == (r@, final(self)@) && (!old(
                    self,
                )@.contains_key(raw@) ==> canon.ensures((raw,), fresh)),
    {
        match self.cached(raw) {
            Some(p) => {
                assert(cache_step(self@, raw@, p@) == (p@, self@));
                p
            },
            None => {
                let p = canon(raw);
                let ghost old_names = self.names@;
                let ghost old_paths = self.paths@;
                let ghost old_model = self.model@;
                self.names.push(raw.clone());
                self.paths.push(p.clone());
                self.model = Ghost(self.model@.insert(raw@, p@));
                proof {
                    let n = old_names.len() as int;
                    assert(self.names@[n]@ == raw@);
                    assert forall|i: int| 0 <= i < self.names@.len() implies #[trigger]
                        self.model@.contains_key(self.names@[i]@) && self.model@[self.names@[i]@]
                        == self.paths@[i]@ by {
                        if i < n {
                            assert(self.names@[i] == old_names[i]);
                            assert(self.paths@[i] == old_paths[i]);
                            assert(old_model.contains_key(old_names[i]@));
                        }
                    }
                    assert forall|k: Seq<char>| #[trigger] self.model@.contains_key(k) implies exists|i: int|
                        0 <= i < self.names@.len() && self.names@[i]@ == k by {
                        if k == raw@ {
                        } else {
                            assert(old_model.contains_key(k));
                            let i = choose|i: int| 0 <= i < old_names.len() && old_names[i]@ == k;
                            assert(self.names@[i] == old_names[i]);
                        }
                    }
                }
                assert(cache_step(old(self)@, raw@, p@) == (p@, self@));
                p
            },
        }
    }
}

} // verus!
