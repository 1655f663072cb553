//! What an identifier's element carries, from what the analysis backend
//! answered about its span: tooltip, link target, URLs and symbol class.

use vstd::prelude::*;
use vstd::string::StringExecFns;
use crate::markup::{decimal, push_decimal, view_of};
use crate::span::{same_span, Span};

verus! {

/// What the analysis backend answered for one span; a query that failed or
/// found nothing is `None`.
pub struct Lookups {
    pub def: Option<Span>,
    pub ty: Option<String>,
    pub docs: Option<String>,
    pub doc_url: Option<String>,
    pub src_url: Option<String>,
    pub id: Option<u64>,
}

/// The path that `Path::strip_prefix` leaves of `path` under `base`, if `base`
/// is a leading part of it.
pub uninterp spec fn relative_path(path: Seq<char>, base: Seq<char>) -> Option<Seq<char>>;

/// Relies on `std::path::Path::strip_prefix`: the rest of `path` after the
/// components of `base`, or nothing when `base` does not lead it.
#[verifier::external_body]
fn strip_prefix(path: &String, base: &String) -> (r: Option<String>)
    ensures
        view_of(r) == relative_path(path@, base@),
{
    match std::path::Path::new(path).strip_prefix(base) {
        Ok(p) => Some(p.to_string_lossy().into_owned()),
        Err(_) => None,
    }
}

/// The file name shown in a link: relative to the project root when it lies
/// under it, else as given.
pub open spec fn shown_path(file: Seq<char>, root: Seq<char>) -> Seq<char> {
    match relative_path(file, root) {
        Some(r) => r,
        None => file,
    }
}

/// `file:line_start:col_start:line_end:col_end`, numbers counted from 1.
pub open spec fn location_text(file: Seq<char>, d: Span) -> Seq<char> {
    file + seq![':'] + decimal((d.line_start + 1) as nat) + seq![':'] + decimal((d.column_start + 1) as nat) + seq![
        ':',
    ] + decimal((d.line_end + 1) as nat) + seq![':'] + decimal((d.column_end + 1) as nat)
}

/// The link target of a token at `span` whose definition is `def`: none when
/// there is no definition or the token is its own definition.
pub open spec fn link_target(span: Span, def: Option<Span>, root: Seq<char>) -> Option<Seq<char>> {
    match def {
        None => None,
        Some(d) => if same_span(d, span) {
            None
        } else {
            Some(location_text(shown_path(d.file_name@, root), d))
        },
    }
}

fn push_colon_number(buf: &mut String, n: usize)
    ensures
        final(buf)@ == old(buf)@ + seq![':'] + decimal((n + 1) as nat),
{
    buf.append(":");
    proof {
        reveal_strlit(":");
    }
    push_decimal(buf, n as u128 + 1);
}

/// The link text of a definition at `def` shown under the file name `file`.
pub fn format_link(file: &String, def: &Span) -> (r: String)
    ensures
        r@ == location_text(file@, *def),
{
    let mut r = file.clone();
    push_colon_number(&mut r, def.line_start);
    push_colon_number(&mut r, def.column_start);
    push_colon_number(&mut r, def.line_end);
    push_colon_number(&mut r, def.column_end);
    r
}

/// The link target of a token at `span` whose definition is `def`, in a
/// project rooted at `root`.
pub fn get_link(span: &Span, def: &Option<Span>, root: &String) -> (r: Option<String>)
    ensures
        view_of(r) == link_target(*span, *def, root@),
{
    match def {
        None => None,
        Some(d) => {
            if *d == *span {
                None
            } else {
                let file = match strip_prefix(&d.file_name, root) {
                    Some(rel) => rel,
                    None => d.file_name.clone(),
                };
                Some(format_link(&file, d))
            }
        },
    }
}

/// A text that is present and not empty.
pub open spec fn nonempty(o: Option<Seq<char>>) -> Option<Seq<char>> {
    match o {
        Some(s) => if s.len() > 0 {
            Some(s)
        } else {
            None
        },
        None => None,
    }
}

/// The tooltip: type, a blank line, docs; or whichever of the two is there.
pub open spec fn compose_title(ty: Option<Seq<char>>, docs: Option<Seq<char>>) -> Option<
    Seq<char>,
> {
    match (nonempty(ty), nonempty(docs)) {
        (Some(t), Some(d)) => Some(t + seq!['\n', '\n'] + d),
        (Some(t), None) => Some(t),
        (None, Some(d)) => Some(d),
        (None, None) => None,
    }
}

/// The tooltip is the type, a blank line and the docs when both are there and
/// not empty; the one of them that is, alone; and nothing when neither is.
pub proof fn lemma_title_composition(ty: Seq<char>, docs: Seq<char>)
    requires
        ty.len() > 0,
        docs.len() > 0,
    ensures
        compose_title(Some(ty), Some(docs)) == Some(ty + seq!['\n', '\n'] + docs),
        compose_title(Some(ty), None) == Some(ty),
        compose_title(Some(ty), Some(Seq::<char>::empty())) == Some(ty),
        compose_title(None, Some(docs)) == Some(docs),
        compose_title(Some(Seq::<char>::empty()), Some(docs)) == Some(docs),
        compose_title(None, None) == None::<Seq<char>>,
        compose_title(Some(Seq::<char>::empty()), Some(Seq::<char>::empty())) == None::<Seq<char>>,
{
}

/// The text if it is present and not empty.
pub fn keep_nonempty(o: Option<String>) -> (r: Option<String>)
    ensures
        view_of(r) == nonempty(view_of(o)),
{
    match o {
        Some(s) => if s.as_str().is_empty() {
            None
        } else {
            Some(s)
        },
        None => None,
    }
}

/// The tooltip of an identifier from its type text and its docs.
pub fn compose_title_text(ty: Option<String>, docs: Option<String>) -> (r: Option<String>)
    ensures
        view_of(r) == compose_title(view_of(ty), view_of(docs)),
{
    match (keep_nonempty(ty), keep_nonempty(docs)) {
        (Some(t), Some(d)) => {
            let mut t = t;
            t.append("\n\n");
            t.append(d.as_str());
            proof {
                reveal_strlit("\n\n");
            }
            Some(t)
        },
        (Some(t), None) => Some(t),
        (None, Some(d)) => Some(d),
        (None, None) => None,
    }
}

/// The fallback link that finds every occurrence of the symbol `id`.
pub open spec fn search_link(id: nat) -> Seq<char> {
    "search:"@ + decimal(id)
}

/// The extra classes that group every occurrence of the symbol `id`.
pub open spec fn class_id_text(id: nat) -> Seq<char> {
    " class_id class_id_"@ + decimal(id)
}

/// The fallback link of the symbol `id`.
pub fn search_link_text(id: u64) -> (r: String)
    ensures
        r@ == search_link(id as nat),
{
    let mut r = String::new();
    r.append("search:");
    push_decimal(&mut r, id as u128);
    r
}

/// The grouping classes of the symbol `id`.
pub fn class_id_classes(id: u64) -> (r: String)
    ensures
        r@ == class_id_text(id as nat),
{
    let mut r = String::new();
    r.append(" class_id class_id_");
    push_decimal(&mut r, id as u128);
    r
}

} // verus!
