//! Escaping of attribute text and the writer of one token's `<span>` element.

use vstd::prelude::*;
use vstd::string::StrSliceExecFns;
use vstd::string::StringExecFns;

verus! {

/// The entity that stands for `c` inside a quoted attribute value.
pub open spec fn escape_char(c: char) -> Seq<char> {
    if c == '>' {
        seq!['&', 'g', 't', ';']
    } else if c == '<' {
        seq!['&', 'l', 't', ';']
    } else if c == '&' {
        seq!['&', 'a', 'm', 'p', ';']
    } else if c == '\'' {
        seq!['&', '#', '3', '9', ';']
    } else if c == '"' {
        seq!['&', 'q', 'u', 'o', 't', ';']
    } else if c == '\n' {
        seq!['<', 'b', 'r', '>']
    } else {
        seq![c]
    }
}

/// Each character of `s` replaced by its escape, in order.
pub open spec fn escape(s: Seq<char>) -> Seq<char>
    decreases s.len(),
{
    if s.len() == 0 {
        Seq::empty()
    } else {
        escape_char(s[0]) + escape(s.drop_first())
    }
}

/// Escaping distributes over concatenation.
pub proof fn lemma_escape_concat(a: Seq<char>, b: Seq<char>)
    ensures
        escape(a + b) == escape(a) + escape(b),
    decreases a.len(),
{
    if a.len() == 0 {
        assert(a + b =~= b);
        assert(escape(a) + escape(b) =~= escape(b));
    } else {
        assert((a + b).drop_first() =~= a.drop_first() + b);
        lemma_escape_concat(a.drop_first(), b);
        assert(escape(a + b) =~= escape(a) + escape(b));
    }
}

/// Whether `t` starts with the escape of `c`.
pub open spec fn starts_with_escape(t: Seq<char>, c: char) -> bool {
    t.len() >= escape_char(c).len() && t.take(escape_char(c).len() as int) == escape_char(c)
}

/// Reads escaped text back: each escape sequence becomes its character again.
pub open spec fn unescape(t: Seq<char>) -> Seq<char>
    decreases t.len(),
{
    if t.len() == 0 {
        Seq::empty()
    } else if starts_with_escape(t, '>') {
        seq!['>'] + unescape(t.skip(4))
    } else if starts_with_escape(t, '<') {
        seq!['<'] + unescape(t.skip(4))
    } else if starts_with_escape(t, '&') {
        seq!['&'] + unescape(t.skip(5))
    } else if starts_with_escape(t, '\'') {
        seq!['\''] + unescape(t.skip(5))
    } else if starts_with_escape(t, '"') {
        seq!['"'] + unescape(t.skip(6))
    } else if starts_with_escape(t, '\n') {
        seq!['\n'] + unescape(t.skip(4))
    } else {
        seq![t[0]] + unescape(t.skip(1))
    }
}

/// Escaping loses nothing: every character is escaped exactly once, in
/// order, so reading the escapes back gives the text again.
pub proof fn lemma_escape_round_trip(s: Seq<char>)
    ensures
        unescape(escape(s)) == s,
    decreases s.len(),
{
    if s.len() > 0 {
        let c = s[0];
        let e = escape_char(c);
        let r = escape(s.drop_first());
        let t = e + r;
        lemma_escape_round_trip(s.drop_first());
        assert(t.take(e.len() as int) =~= e);
        assert(t.skip(e.len() as int) =~= r);
        assert(t[0] == e[0]);
        if e.len() >= 4 {
            assert(t.take(4)[1] == e[1]);
        }
        if e.len() >= 5 {
            assert(t.take(5)[1] == e[1]);
            assert(t.take(5)[4] == e[4]);
        }
        if e.len() >= 6 {
            assert(t.take(6)[1] == e[1]);
        }
        if c != '>' && c != '<' && c != '&' && c != '\'' && c != '"' && c != '\n' {
            if t.len() >= 4 {
                assert(t.take(4)[0] == c);
            }
            if t.len() >= 5 {
                assert(t.take(5)[0] == c);
            }
            if t.len() >= 6 {
                assert(t.take(6)[0] == c);
            }
        }
        assert(seq![c] + s.drop_first() =~= s);
    }
}

/// The line break that stands for a newline in a title.
pub open spec fn line_break() -> Seq<char> {
    seq!['<', 'b', 'r', '>']
}

/// Text that cannot close a quoted attribute value or open a tag of its own:
/// it holds no quote of either kind, and no angle bracket but those of a line
/// break.
pub open spec fn attr_safe(t: Seq<char>) -> bool {
    forall|i: int|
        0 <= i < t.len() ==> #[trigger] t[i] != '\'' && t[i] != '"' && (t[i] == '<' ==> i + 4
            <= t.len() && t.subrange(i, i + 4) == line_break()) && (t[i] == '>' ==> i >= 3
            && t.subrange(i - 3, i + 1) == line_break())
}

proof fn lemma_attr_safe_concat(a: Seq<char>, b: Seq<char>)
    requires
        attr_safe(a),
        attr_safe(b),
    ensures
        attr_safe(a + b),
{
    let t = a + b;
    assert forall|i: int| 0 <= i < t.len() implies #[trigger] t[i] != '\'' && t[i] != '"' && (t[i]
        == '<' ==> i + 4 <= t.len() && t.subrange(i, i + 4) == line_break()) && (t[i] == '>'
        ==> i >= 3 && t.subrange(i - 3, i + 1) == line_break()) by {
        if i < a.len() {
            assert(t[i] == a[i]);
            if a[i] == '<' {
                assert(t.subrange(i, i + 4) =~= a.subrange(i, i + 4));
            }
            if a[i] == '>' {
                assert(t.subrange(i - 3, i + 1) =~= a.subrange(i - 3, i + 1));
            }
        } else {
            let j = i - a.len();
            assert(t[i] == b[j]);
            if b[j] == '<' {
                assert(t.subrange(i, i + 4) =~= b.subrange(j, j + 4));
            }
            if b[j] == '>' {
                assert(t.subrange(i - 3, i + 1) =~= b.subrange(j - 3, j + 1));
            }
        }
    }
}

proof fn lemma_escape_char_safe(c: char)
    ensures
        attr_safe(escape_char(c)),
{
    let e = escape_char(c);
    if c == '\n' {
        assert(e.subrange(0, 4) =~= line_break());
    }
}

/// An escaped title is safe inside a quoted attribute: no quote survives, and
/// the only angle brackets are those of the line breaks that newlines became.
pub proof fn lemma_escape_attr_safe(s: Seq<char>)
    ensures
        attr_safe(escape(s)),
    decreases s.len(),
{
    if s.len() == 0 {
        assert(escape(s) =~= Seq::<char>::empty());
    } else {
        lemma_escape_char_safe(s[0]);
        lemma_escape_attr_safe(s.drop_first());
        lemma_attr_safe_concat(escape_char(s[0]), escape(s.drop_first()));
    }
}

/// Relies on `String::push`: the character is appended at the end.
#[verifier::external_body]
fn push_one(buf: &mut String, c: char)
    ensures
        final(buf)@ == old(buf)@.push(c),
{
    buf.push(c)
}

/// Appends the escape of `c` to `buf`.
pub fn push_char(buf: &mut String, c: char)
    ensures
        final(buf)@ == old(buf)@ + escape_char(c),
{
    if c == '>' {
        buf.append("&gt;");
        proof { reveal_strlit("&gt;"); }
    } else if c == '<' {
        buf.append("&lt;");
        proof { reveal_strlit("&lt;"); }
    } else if c == '&' {
        buf.append("&amp;");
        proof { reveal_strlit("&amp;"); }
    } else if c == '\'' {
        buf.append("&#39;");
        proof { reveal_strlit("&#39;"); }
    } else if c == '"' {
        buf.append("&quot;");
        proof { reveal_strlit("&quot;"); }
    } else if c == '\n' {
        buf.append("<br>");
        proof { reveal_strlit("<br>"); }
    } else {
        push_one(buf, c);
    }
    assert(final(buf)@ =~= old(buf)@ + escape_char(c));
}

/// Appends the escape of every character of `s` to `buf`, in order.
pub fn push_escaped(buf: &mut String, s: &str)
    ensures
        final(buf)@ == old(buf)@ + escape(s@),
{
    let n = s.unicode_len();
    let mut i: usize = 0;
    while i < n
        invariant
            n == s@.len(),
            i <= n,
            buf@ == old(buf)@ + escape(s@.take(i as int)),
        decreases n - i,
    {
        let c = s.get_char(i);
        let ghost before = buf@;
        push_char(buf, c);
        proof {
            assert(s@.take(i + 1) =~= s@.take(i as int) + seq![c]);
            lemma_escape_concat(s@.take(i as int), seq![c]);
            assert(seq![c].drop_first() =~= Seq::<char>::empty());
            assert(escape(seq![c]) == escape_char(c) + escape(Seq::<char>::empty()));
            assert(escape(seq![c]) =~= escape_char(c));
        }
        i = i + 1;
    }
    assert(s@.take(n as int) =~= s@);
}

/// The character of the decimal digit `d`.
pub open spec fn digit(d: nat) -> char {
    ((d + 48) as u8) as char
}

/// The decimal notation of `n`, without leading zeros.
pub open spec fn decimal(n: nat) -> Seq<char>
    decreases n,
{
    if n < 10 {
        seq![digit(n)]
    } else {
        decimal(n / 10).push(digit(n % 10))
    }
}

/// Appends the decimal notation of `n` to `buf`.
pub fn push_decimal(buf: &mut String, n: u128)
    ensures
        final(buf)@ == old(buf)@ + decimal(n as nat),
    decreases n,
{
    if n >= 10 {
        push_decimal(buf, n / 10);
    }
    let d = (n % 10) as u8;
    push_one(buf, (d + 48) as char);
    assert(final(buf)@ =~= old(buf)@ + decimal(n as nat));
}

/// The syntactic class that the classifier gives a token.
#[derive(Clone, Copy, Debug, PartialEq, Eq, Structural)]
pub enum Class {
    Plain,
    Comment,
    DocComment,
    Attribute,
    KeyWord,
    RefKeyWord,
    SelfKw,
    Op,
    Macro,
    MacroNonTerminal,
    StringLit,
    Number,
    Bool,
    Ident,
    Lifetime,
    PreludeTy,
    PreludeVal,
}

/// The style class name under which a class is rendered.
pub open spec fn class_name(c: Class) -> Seq<char> {
    match c {
        Class::Plain => ""@,
        Class::Comment => "comment"@,
        Class::DocComment => "doccomment"@,
        Class::Attribute => "attribute"@,
        Class::KeyWord => "kw"@,
        Class::RefKeyWord => "kw-2"@,
        Class::SelfKw => "self"@,
        Class::Op => "op"@,
        Class::Macro => "macro"@,
        Class::MacroNonTerminal => "macro-nonterminal"@,
        Class::StringLit => "string"@,
        Class::Number => "number"@,
        Class::Bool => "bool-val"@,
        Class::Ident => "ident"@,
        Class::Lifetime => "lifetime"@,
        Class::PreludeTy => "prelude-ty"@,
        Class::PreludeVal => "prelude-val"@,
    }
}

impl Class {
    /// The style class name of this class.
    pub fn rustdoc_class(self) -> (r: &'static str)
        ensures
            r@ == class_name(self),
    {
        match self {
            Class::Plain => "",
            Class::Comment => "comment",
            Class::DocComment => "doccomment",
            Class::Attribute => "attribute",
            Class::KeyWord => "kw",
            Class::RefKeyWord => "kw-2",
            Class::SelfKw => "self",
            Class::Op => "op",
            Class::Macro => "macro",
            Class::MacroNonTerminal => "macro-nonterminal",
            Class::StringLit => "string",
            Class::Number => "number",
            Class::Bool => "bool-val",
            Class::Ident => "ident",
            Class::Lifetime => "lifetime",
            Class::PreludeTy => "prelude-ty",
            Class::PreludeVal => "prelude-val",
        }
    }
}

/// The view of an optional string.
pub open spec fn view_of(o: Option<String>) -> Option<Seq<char>> {
    match o {
        Some(s) => Some(s@),
        None => None,
    }
}

/// `s`, or nothing.
pub open spec fn or_empty(o: Option<Seq<char>>) -> Seq<char> {
    match o {
        Some(s) => s,
        None => Seq::empty(),
    }
}

/// A quoted attribute: its opening (space, name, `='`), the value, the closing quote.
pub open spec fn attr(opening: Seq<char>, v: Option<Seq<char>>) -> Seq<char> {
    match v {
        Some(s) => opening + s + "'"@,
        None => Seq::empty(),
    }
}

/// The escaped form of an optional title.
pub open spec fn escaped(title: Option<Seq<char>>) -> Option<Seq<char>> {
    match title {
        Some(t) => Some(escape(t)),
        None => None,
    }
}

/// The fields of one `<span>` element, as values.
pub struct SpanParts {
    pub title: Option<Seq<char>>,
    pub extra_class: Option<Seq<char>>,
    pub id: Option<Seq<char>>,
    pub link: Option<Seq<char>>,
    pub doc_link: Option<Seq<char>>,
    pub src_link: Option<Seq<char>>,
    pub extra: Option<Seq<char>>,
}

/// The opening tag's class attribute: the base class, the extra class, and the
/// clickable marker when the token has a link or a documentation URL.
pub open spec fn class_attr(klass: Class, p: SpanParts) -> Seq<char> {
    "<span class='"@ + class_name(klass) + or_empty(p.extra_class) + (if p.link is Some
        || p.doc_link is Some {
        " src_link"@
    } else {
        Seq::empty()
    }) + "'"@
}

/// The quoted attributes, in their fixed order: id, title, documentation URL,
/// source URL, link.
pub open spec fn quoted_attrs(p: SpanParts) -> Seq<char> {
    attr(" id='"@, p.id) + attr(" title='"@, escaped(p.title)) + attr(" doc_url='"@, p.doc_link)
        + attr(" src_url='"@, p.src_link) + attr(" link='"@, p.link)
}

/// The free-form attribute, the end of the opening tag, the text and the closing tag.
pub open spec fn span_tail(text: Seq<char>, p: SpanParts) -> Seq<char> {
    (match p.extra {
        Some(e) => " "@ + e,
        None => Seq::empty(),
    }) + ">"@ + text + "</span>"@
}

/// The element written for one token, attributes in their fixed order.
pub open spec fn span_markup(klass: Class, text: Seq<char>, p: SpanParts) -> Seq<char> {
    class_attr(klass, p) + quoted_attrs(p) + span_tail(text, p)
}

/// The element with no attribute but the class.
pub open spec fn bare_parts() -> SpanParts {
    SpanParts {
        title: None,
        extra_class: None,
        id: None,
        link: None,
        doc_link: None,
        src_link: None,
        extra: None,
    }
}

fn push_attr(buf: &mut String, opening: &str, v: &Option<String>)
    ensures
        final(buf)@ == old(buf)@ + attr(opening@, view_of(*v)),
{
    if let Some(s) = v {
        buf.append(opening);
        buf.append(s.as_str());
        buf.append("'");
    }
    assert(final(buf)@ =~= old(buf)@ + attr(opening@, view_of(*v)));
}

fn push_class_attr(
    buf: &mut String,
    klass: Class,
    extra_class: &Option<String>,
    link: &Option<String>,
    doc_link: &Option<String>,
    Ghost(p): Ghost<SpanParts>,
)
    requires
        p.extra_class == view_of(*extra_class),
        p.link == view_of(*link),
        p.doc_link == view_of(*doc_link),
    ensures
        final(buf)@ == old(buf)@ + class_attr(klass, p),
{
    buf.append("<span class='");
    buf.append(klass.rustdoc_class());
    if let Some(s) = extra_class {
        buf.append(s.as_str());
    }
    if link.is_some() || doc_link.is_some() {
        buf.append(" src_link");
    }
    buf.append("'");
    assert(final(buf)@ =~= old(buf)@ + class_attr(klass, p));
}

fn push_quoted_attrs(
    buf: &mut String,
    title: &Option<String>,
    id: &Option<String>,
    link: &Option<String>,
    doc_link: &Option<String>,
    src_link: &Option<String>,
    Ghost(p): Ghost<SpanParts>,
)
    requires
        p.title == view_of(*title),
        p.id == view_of(*id),
        p.link == view_of(*link),
        p.doc_link == view_of(*doc_link),
        p.src_link == view_of(*src_link),
    ensures
        final(buf)@ == old(buf)@ + quoted_attrs(p),
{
    push_attr(buf, " id='", id);
    let ghost mid = buf@;
    if let Some(s) = title {
        buf.append(" title='");
        push_escaped(buf, s.as_str());
        buf.append("'");
    }
    assert(buf@ =~= mid + attr(" title='"@, escaped(p.title)));
    let ghost mid2 = buf@;
    push_attr(buf, " doc_url='", doc_link);
    push_attr(buf, " src_url='", src_link);
    push_attr(buf, " link='", link);
    assert(buf@ =~= mid2 + attr(" doc_url='"@, p.doc_link) + attr(" src_url='"@, p.src_link) + attr(
        " link='"@,
        p.link,
    ));
    assert(final(buf)@ =~= old(buf)@ + quoted_attrs(p));
}

fn push_tail(buf: &mut String, text: &String, extra: &Option<String>, Ghost(p): Ghost<SpanParts>)
    requires
        p.extra == view_of(*extra),
    ensures
        final(buf)@ == old(buf)@ + span_tail(text@, p),
{
    if let Some(s) = extra {
        buf.append(" ");
        buf.append(s.as_str());
    }
    buf.append(">");
    buf.append(text.as_str());
    buf.append("</span>");
    assert(final(buf)@ =~= old(buf)@ + span_tail(text@, p));
}

/// Appends the element of one token to `buf`; only the title is escaped.
pub fn write_span(
    buf: &mut String,
    klass: Class,
    text: String,
    title: Option<String>,
    extra_class: Option<String>,
    id: Option<String>,
    link: Option<String>,
    doc_link: Option<String>,
    src_link: Option<String>,
    extra: Option<String>,
)
    ensures
        final(buf)@ == old(buf)@ + span_markup(
            klass,
            text@,
            (SpanParts {
                title: view_of(title),
                extra_class: view_of(extra_class),
                id: view_of(id),
                link: view_of(link),
                doc_link: view_of(doc_link),
                src_link: view_of(src_link),
                extra: view_of(extra),
            }),
        ),
{
    let ghost p = SpanParts {
        title: view_of(title),
        extra_class: view_of(extra_class),
        id: view_of(id),
        link: view_of(link),
        doc_link: view_of(doc_link),
        src_link: view_of(src_link),
        extra: view_of(extra),
    };
    push_class_attr(buf, klass, &extra_class, &link, &doc_link, Ghost(p));
    push_quoted_attrs(buf, &title, &id, &link, &doc_link, &src_link, Ghost(p));
    push_tail(buf, &text, &extra, Ghost(p));
    assert(final(buf)@ =~= old(buf)@ + span_markup(klass, text@, p));
}

} // verus!
