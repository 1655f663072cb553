//! The two highlighters: the semantic one, which enriches identifiers with
//! what the analysis backend answered, and the overlay one, which stamps
//! caller-registered classes and ids onto exact byte ranges.

use vstd::prelude::*;
use vstd::string::StrSliceExecFns;
use vstd::string::StringExecFns;
use crate::enrich::{
    class_id_classes, class_id_text, compose_title, compose_title_text, get_link, keep_nonempty,
    link_target, nonempty, search_link, search_link_text, Lookups,
};
use crate::markup::{
    bare_parts, class_name, decimal, push_decimal, span_markup, view_of, write_span, Class,
    SpanParts,
};
use crate::span::{cache_step, same_span, Loc, PathCache, Span};

verus! {

/// The link of an identifier: its definition's location (none when it is its
/// own definition), or, when the backend found no definition, the search for
/// its symbol id.
pub open spec fn ident_link(span: Span, f: Lookups, root: Seq<char>) -> Option<Seq<char>> {
    match f.def {
        Some(_) => link_target(span, f.def, root),
        None => match f.id {
            Some(i) => Some(search_link(i as nat)),
            None => None,
        },
    }
}

/// The attributes of an identifier at `span`.
pub open spec fn ident_parts(span: Span, f: Lookups, root: Seq<char>) -> SpanParts {
    SpanParts {
        title: compose_title(view_of(f.ty), view_of(f.docs)),
        extra_class: match f.id {
            Some(i) => Some(class_id_text(i as nat)),
            None => None,
        },
        id: None,
        link: ident_link(span, f, root),
        doc_link: view_of(f.doc_url),
        src_link: view_of(f.src_url),
        extra: None,
    }
}

/// The positional attribute of a glob operator: its 1-based line and column.
pub open spec fn location_attr(span: Span) -> Seq<char> {
    "location='"@ + decimal((span.line_start + 1) as nat) + seq![':'] + decimal(
        (span.column_start + 1) as nat,
    ) + seq!['\'']
}

/// The attributes of a glob operator at `span`: its type as tooltip, the glob
/// style and its position; no link.
pub open spec fn glob_parts(span: Span, f: Lookups) -> SpanParts {
    SpanParts {
        title: nonempty(view_of(f.ty)),
        extra_class: Some(" glob"@),
        id: None,
        link: None,
        doc_link: None,
        src_link: None,
        extra: Some(location_attr(span)),
    }
}

/// The glob operator: an operator whose text is `*`.
pub open spec fn is_glob(klass: Class, text: Seq<char>) -> bool {
    klass == Class::Op && text == seq!['*']
}

/// Whether the semantic highlighter reads the backend's answers for a token:
/// only for identifiers and the glob operator.
pub fn wants_lookups(klass: Class, text: &String) -> (r: bool)
    ensures
        r == (klass == Class::Ident || is_glob(klass, text@)),
{
    if klass == Class::Ident {
        true
    } else if klass == Class::Op && text.as_str().unicode_len() == 1 && text.as_str().get_char(0)
        == '*' {
        assert(text@ =~= seq!['*']);
        true
    } else {
        false
    }
}

/// What the semantic highlighter writes for one token.
pub open spec fn token_markup(
    text: Seq<char>,
    klass: Class,
    site: Option<Span>,
    f: Lookups,
    root: Seq<char>,
) -> Seq<char> {
    if klass == Class::Plain {
        text
    } else if klass == Class::Ident && site is Some {
        span_markup(Class::Ident, text, ident_parts(site->0, f, root))
    } else if is_glob(klass, text) && site is Some {
        span_markup(Class::Op, text, glob_parts(site->0, f))
    } else {
        span_markup(klass, text, bare_parts())
    }
}

/// A token of any class but plain text, identifier and located glob operator
/// is written in a bare element of its own class, with no enrichment.
pub proof fn lemma_unenriched_classes(
    text: Seq<char>,
    klass: Class,
    site: Option<Span>,
    f: Lookups,
    root: Seq<char>,
)
    requires
        klass != Class::Plain,
        klass != Class::Ident,
        !(is_glob(klass, text) && site is Some),
    ensures
        token_markup(text, klass, site, f, root) == span_markup(klass, text, bare_parts()),
        span_markup(klass, text, bare_parts()) == "<span class='"@ + class_name(klass) + "'"@
            + ">"@ + text + "</span>"@,
{
    assert(span_markup(klass, text, bare_parts()) =~= "<span class='"@ + class_name(klass) + "'"@
        + ">"@ + text + "</span>"@);
}

/// An identifier that is its own definition gets no link.
pub proof fn lemma_self_definition_has_no_link(
    text: Seq<char>,
    span: Span,
    def: Span,
    f: Lookups,
    root: Seq<char>,
)
    requires
        f.def == Some(def),
        same_span(def, span),
    ensures
        token_markup(text, Class::Ident, Some(span), f, root) == span_markup(
            Class::Ident,
            text,
            ident_parts(span, f, root),
        ),
        ident_parts(span, f, root).link is None,
{
}

/// An identifier with a symbol id and no definition links to the search for
/// that id.
pub proof fn lemma_id_fallback_link(text: Seq<char>, span: Span, f: Lookups, root: Seq<char>)
    requires
        f.def is None,
        f.id is Some,
    ensures
        token_markup(text, Class::Ident, Some(span), f, root) == span_markup(
            Class::Ident,
            text,
            ident_parts(span, f, root),
        ),
        ident_parts(span, f, root).link == Some(search_link(f.id->0 as nat)),
{
}

/// The opening tag of a nested region of class `klass`.
pub open spec fn enter_markup(klass: Class) -> Seq<char> {
    "<span class='"@ + class_name(klass) + "'>"@
}

/// The accessor of a highlighter's output.
pub trait GetBuf {
    fn get_buf(&self) -> &[u8];
}

/// The semantic highlighter of one render pass.
pub struct Highlighter {
    buf: String,
    project_path: String,
    path_cache: PathCache,
}

impl View for Highlighter {
    type V = Seq<char>;

    /// The markup written so far.
    closed spec fn view(&self) -> Seq<char> {
        self.buf@
    }
}

fn push_location(buf: &mut String, span: &Span)
    ensures
        final(buf)@ == old(buf)@ + location_attr(*span),
{
    buf.append("location='");
    push_decimal(buf, span.line_start as u128 + 1);
    buf.append(":");
    push_decimal(buf, span.column_start as u128 + 1);
    buf.append("'");
    proof {
        reveal_strlit(":");
        reveal_strlit("'");
    }
    assert(final(buf)@ =~= old(buf)@ + location_attr(*span));
}

impl Highlighter {
    /// The project root that links are made relative to.
    pub closed spec fn root(&self) -> Seq<char> {
        self.project_path@
    }

    /// The canonical paths met so far in this pass.
    pub closed spec fn cache(&self) -> Map<Seq<char>, Seq<char>> {
        self.path_cache@
    }

    /// The path cache is well formed.
    pub closed spec fn wf(&self) -> bool {
        self.path_cache.wf()
    }

    /// A highlighter with nothing written, for a project rooted at `project_path`.
    pub fn new(project_path: String) -> (r: Highlighter)
        ensures
            r.wf(),
            r@ == Seq::<char>::empty(),
            r.root() == project_path@,
            r.cache() == Map::<Seq<char>, Seq<char>>::empty(),
    {
        Highlighter { buf: String::new(), project_path, path_cache: PathCache::new() }
    }

    /// The span between two lexer coordinates; the file name is made canonical
    /// by `canon` the first time it is met in this pass, and taken from the
    /// cache after that.
    pub fn span_from_locs<F: Fn(&String) -> String>(&mut self, lo: &Loc, hi: &Loc, canon: F) -> (r:
        Span)
        requires
            old(self).wf(),
            lo.line >= 1,
            hi.line >= 1,
            canon.requires((&lo.file,)),
        ensures
            final(self).wf(),
            final(self)@ == old(self)@,
            final(self).root() == old(self).root(),
            r.line_start == lo.line - 1,
            r.column_start == lo.col,
            r.line_end == hi.line - 1,
            r.column_end == hi.col,
            old(self).cache().contains_key(lo.file@) ==> r.file_name@ == old(self).cache()[lo.file@]
                && final(self).cache() == old(self).cache(),
            exists|fresh: String|
                #[trigger] cache_step(old(self).cache(), lo.file@, fresh@) == (
                    r.file_name@,
                    final(self).cache(),
                ) && (!old(self).cache().contains_key(lo.file@) ==> canon.ensures(
                    (&lo.file,),
                    fresh,
                )),
    {
        let file_name = self.path_cache.canonical(&lo.file, canon);
        proof {
            let fresh = choose|fresh: String|
                #[trigger] cache_step(old(self).path_cache@, lo.file@, fresh@) == (
                    file_name@,
                    self.path_cache@,
                ) && (!old(self).path_cache@.contains_key(lo.file@) ==> canon.ensures(
                    (&lo.file,),
                    fresh,
                ));
            assert(cache_step(old(self).cache(), lo.file@, fresh@) == (
                file_name@,
                self.cache(),
            ));
        }
        Span {
            file_name,
            line_start: lo.line - 1,
            column_start: lo.col,
            line_end: hi.line - 1,
            column_end: hi.col,
        }
    }

    /// The markup written so far.
    pub fn markup(&self) -> (r: &str)
        ensures
            r@ == self@,
    {
        self.buf.as_str()
    }

    /// Opens a nested region of class `klass`.
    pub fn enter_span(&mut self, klass: Class)
        requires
            old(self).wf(),
        ensures
            final(self).wf(),
            final(self).root() == old(self).root(),
            final(self).cache() == old(self).cache(),
            final(self)@ == old(self)@ + enter_markup(klass),
    {
        self.buf.append("<span class='");
        self.buf.append(klass.rustdoc_class());
        self.buf.append("'>");
        assert(self.buf@ =~= old(self).buf@ + enter_markup(klass));
    }

    /// Closes the innermost nested region.
    pub fn exit_span(&mut self)
        requires
            old(self).wf(),
        ensures
            final(self).wf(),
            final(self).root() == old(self).root(),
            final(self).cache() == old(self).cache(),
            final(self)@ == old(self)@ + "</span>"@,
    {
        self.buf.append("</span>");
    }

    /// Writes one token of class `klass`. `site` is the token's span when the
    /// lexer gave its location, and `found` what the analysis backend answered
    /// for that span.
    pub fn string(&mut self, text: String, klass: Class, site: Option<Span>, found: Lookups)
        requires
            old(self).wf(),
        ensures
            final(self).wf(),
            final(self).root() == old(self).root(),
            final(self).cache() == old(self).cache(),
            final(self)@ == old(self)@ + token_markup(text@, klass, site, found, old(self).root()),
    {
        if klass == Class::Plain {
            self.buf.append(text.as_str());
            return ;
        }
        match site {
            Some(span) => {
                if klass == Class::Ident {
                    let title = compose_title_text(found.ty, found.docs);
                    let mut link = get_link(&span, &found.def, &self.project_path);
                    let css_class = match found.id {
                        Some(id) => {
                            if found.def.is_none() {
                                link = Some(search_link_text(id));
                            }
                            Some(class_id_classes(id))
                        },
                        None => None,
                    };
                    write_span(
                        &mut self.buf,
                        Class::Ident,
                        text,
                        title,
                        css_class,
                        None,
                        link,
                        found.doc_url,
                        found.src_url,
                        None,
                    );
                    return ;
                }
                if wants_lookups(klass, &text) {
                    let title = keep_nonempty(found.ty);
                    let mut location = String::new();
                    push_location(&mut location, &span);
                    let glob = String::from_str(" glob");
                    write_span(
                        &mut self.buf,
                        Class::Op,
                        text,
                        title,
                        Some(glob),
                        None,
                        None,
                        None,
                        None,
                        Some(location),
                    );
                    return ;
                }
            },
            None => {},
        }
        write_span(&mut self.buf, klass, text, None, None, None, None, None, None, None);
    }
}

impl GetBuf for Highlighter {
    fn get_buf(&self) -> &[u8] {
        self.buf.as_str().as_bytes()
    }
}

/// A caller-registered overlay: extra class and id for the token that spans
/// exactly the bytes `start_byte..end_byte`.
pub struct SpanSpan {
    pub start_byte: u32,
    pub end_byte: u32,
    pub klass: String,
    pub id: String,
}

/// The first overlay in `spans` whose range is exactly `lo..hi`.
pub open spec fn overlay_for(spans: Seq<SpanSpan>, lo: u32, hi: u32) -> Option<SpanSpan>
    decreases spans.len(),
{
    if spans.len() == 0 {
        None
    } else if spans[0].start_byte == lo && spans[0].end_byte == hi {
        Some(spans[0])
    } else {
        overlay_for(spans.drop_first(), lo, hi)
    }
}

/// The attributes that the overlay highlighter gives a token: the overlay's
/// class and id when one matches the token's bytes exactly, else none.
pub open spec fn overlay_parts(spans: Seq<SpanSpan>, bytes: Option<(u32, u32)>) -> SpanParts {
    match bytes {
        Some((lo, hi)) => match overlay_for(spans, lo, hi) {
            Some(o) => SpanParts { extra_class: Some(o.klass@), id: Some(o.id@), ..bare_parts() },
            None => bare_parts(),
        },
        None => bare_parts(),
    }
}

/// Overlays match by exact range: the overlay found for `lo..hi` spans exactly
/// those bytes, and none is found when no registered range equals it, however
/// much the ranges overlap.
pub proof fn lemma_overlay_exact(spans: Seq<SpanSpan>, lo: u32, hi: u32)
    ensures
        overlay_for(spans, lo, hi) matches Some(o) ==> o.start_byte == lo && o.end_byte == hi,
        overlay_for(spans, lo, hi) is None <==> forall|i: int|
            0 <= i < spans.len() ==> !(#[trigger] spans[i].start_byte == lo && spans[i].end_byte
                == hi),
        overlay_for(spans, lo, hi) is None ==> overlay_parts(spans, Some((lo, hi))) == bare_parts(),
    decreases spans.len(),
{
    if spans.len() > 0 {
        lemma_overlay_exact(spans.drop_first(), lo, hi);
        let d = spans.drop_first();
        if !(spans[0].start_byte == lo && spans[0].end_byte == hi) {
            if overlay_for(d, lo, hi) is None {
                assert forall|i: int| 0 <= i < spans.len() implies !(#[trigger] spans[i].start_byte
                    == lo && spans[i].end_byte == hi) by {
                    if i > 0 {
                        assert(spans[i] == d[i - 1]);
                    }
                }
            } else {
                let j = choose|j: int| 0 <= j < d.len() && #[trigger] d[j].start_byte == lo && d[j].end_byte == hi;
                assert(spans[j + 1] == d[j]);
            }
        }
    }
}

/// Just does syntax highlighting, with overlays and no semantic enrichment.
pub struct BasicHighlighter {
    buf: String,
    spans: Vec<SpanSpan>,
}

impl View for BasicHighlighter {
    type V = Seq<char>;

    /// The markup written so far.
    closed spec fn view(&self) -> Seq<char> {
        self.buf@
    }
}

impl BasicHighlighter {
    /// The overlays registered so far, in order.
    pub closed spec fn overlays(&self) -> Seq<SpanSpan> {
        self.spans@
    }

    /// A highlighter with nothing written and no overlay.
    pub fn new() -> (r: BasicHighlighter)
        ensures
            r@ == Seq::<char>::empty(),
            r.overlays() == Seq::<SpanSpan>::empty(),
    {
        BasicHighlighter { buf: String::new(), spans: Vec::new() }
    }

    /// The markup written so far.
    pub fn markup(&self) -> (r: &str)
        ensures
            r@ == self@,
    {
        self.buf.as_str()
    }

    /// Registers the overlay `klass`, `id` for the token spanning exactly the
    /// bytes `start..end`.
    pub fn span(&mut self, start: u32, end: u32, klass: String, id: String)
        ensures
            final(self)@ == old(self)@,
            final(self).overlays() == old(self).overlays().push(
                SpanSpan { start_byte: start, end_byte: end, klass, id },
            ),
    {
        self.spans.push(SpanSpan { start_byte: start, end_byte: end, klass, id });
    }

    /// The class and id of the first overlay whose range is exactly `lo..hi`.
    fn find_overlay(&self, lo: u32, hi: u32) -> (r: Option<(String, String)>)
        ensures
            match overlay_for(self.overlays(), lo, hi) {
                Some(o) => r matches Some((k, i)) && k@ == o.klass@ && i@ == o.id@,
                None => r is None,
            },
    {
        let n = self.spans.len();
        let mut i: usize = 0;
        assert(self.spans@.skip(0) =~= self.spans@);
        while i < n
            invariant
                n == self.spans@.len(),
                i <= n,
                overlay_for(self.spans@, lo, hi) == overlay_for(self.spans@.skip(i as int), lo, hi),
            decreases n - i,
        {
            let s = &self.spans[i];
            assert(self.spans@.skip(i as int)[0] == self.spans@[i as int]);
            if s.start_byte == lo && s.end_byte == hi {
                return Some((s.klass.clone(), s.id.clone()));
            }
            assert(self.spans@.skip(i as int).drop_first() =~= self.spans@.skip(i + 1));
            i = i + 1;
        }
        None
    }

    /// Writes one token of class `klass`; `bytes` is its byte range when the
    /// lexer gave it.
    pub fn string(&mut self, text: String, klass: Class, bytes: Option<(u32, u32)>)
        ensures
            final(self).overlays() == old(self).overlays(),
            final(self)@ == old(self)@ + span_markup(
                klass,
                text@,
                overlay_parts(old(self).overlays(), bytes),
            ),
    {
        let mut extra_class = None;
        let mut id = None;
        if let Some((lo, hi)) = bytes {
            if let Some((k, i)) = self.find_overlay(lo, hi) {
                extra_class = Some(k);
                id = Some(i);
            }
        }
        write_span(&mut self.buf, klass, text, None, extra_class, id, None, None, None, None);
    }

    /// Opens a nested region of class `klass`.
    pub fn enter_span(&mut self, klass: Class)
        ensures
            final(self).overlays() == old(self).overlays(),
            final(self)@ == old(self)@ + enter_markup(klass),
    {
        self.buf.append("<span class='");
        self.buf.append(klass.rustdoc_class());
        self.buf.append("'>");
        assert(self.buf@ =~= old(self).buf@ + enter_markup(klass));
    }

    /// Closes the innermost nested region.
    pub fn exit_span(&mut self)
        ensures
            final(self).overlays() == old(self).overlays(),
            final(self)@ == old(self)@ + "</span>"@,
    {
        self.buf.append("</span>");
    }
}

impl GetBuf for BasicHighlighter {
    fn get_buf(&self) -> &[u8] {
        self.buf.as_str().as_bytes()
    }
}

} // verus!
