//! Rendering mustache templates with the `mustache` crate.
//!
//! Templates are rendered with flat data: names bound to strings. A template
//! is renderable when it names no partial (partials are files read from
//! disk), keeps the default `{{ }}` delimiters, and holds no tag that prints
//! the current value itself (`{{.}}`, `{{&.}}`, `{{{.}}}`): with such data
//! that value is the map of names, which the crate refuses by panicking.
//! Such a template is rendered as a function of its text and its data.

use vstd::prelude::*;
use crate::error::{HttpResponseError, INTERNAL_SERVER_ERROR};
use crate::labels::{Labels, label_lookup};
use crate::text::chars_of;

verus! {

/// A compiled mustache template.
#[verifier::external_type_specification]
#[verifier::external_body]
pub struct ExTemplate(mustache::Template);

/// A text in which mustache finds no tag: it holds no `{`.
pub open spec fn plain_text(template: Seq<char>) -> bool {
    !template.contains('{')
}

/// A whitespace character, as `char::is_whitespace` and `str::trim` read it
/// (the Unicode `White_Space` property).
pub open spec fn is_ws(c: char) -> bool {
    ||| '\t' <= c && c <= '\r'
    ||| c == ' '
    ||| c == '\u{85}'
    ||| c == '\u{A0}'
    ||| c == '\u{1680}'
    ||| '\u{2000}' <= c && c <= '\u{200A}'
    ||| c == '\u{2028}'
    ||| c == '\u{2029}'
    ||| c == '\u{202F}'
    ||| c == '\u{205F}'
    ||| c == '\u{3000}'
}

/// The text opens a tag `{{` whose content starts with `c`.
pub open spec fn has_tag_start(t: Seq<char>, c: char) -> bool {
    exists|i: int| 0 <= i && i + 2 < t.len() && #[trigger] t[i] == '{' && t[i + 1] == '{' && t[i + 2] == c
}

/// Before position `i`, past whitespace only, stands `{` or `&`.
pub open spec fn opens_before(t: Seq<char>, i: int) -> bool {
    exists|a: int| 0 <= a < i && (t[a] == '{' || t[a] == '&')
        && forall|k: int| a < k < i ==> #[trigger] is_ws(t[k])
}

/// After position `i`, past whitespace only, stands `}`.
pub open spec fn closes_after(t: Seq<char>, i: int) -> bool {
    exists|b: int| i < b < t.len() && t[b] == '}'
        && forall|k: int| i < k < b ==> #[trigger] is_ws(t[k])
}

/// A `.` standing alone, whitespace aside, between `{` or `&` and `}`: the
/// shape of every tag that prints the current value itself.
pub open spec fn lone_dot_at(t: Seq<char>, i: int) -> bool {
    &&& 0 <= i < t.len()
    &&& t[i] == '.'
    &&& opens_before(t, i)
    &&& closes_after(t, i)
}

/// A template that renders with flat data as a function of its text and
/// data, without panicking: no partial tag (`{{>`), no change of delimiters
/// (`{{=`), and no lone `.` tag.
pub open spec fn renderable(t: Seq<char>) -> bool {
    &&& !has_tag_start(t, '>')
    &&& !has_tag_start(t, '=')
    &&& forall|i: int| !#[trigger] lone_dot_at(t, i)
}

/// The data map of a list of bindings, a later binding of a name replacing
/// an earlier one.
pub open spec fn bindings_map(pairs: Seq<(Seq<char>, Seq<char>)>) -> Map<Seq<char>, Seq<char>> {
    Map::new(
        |k: Seq<char>| label_lookup(pairs, k) is Some,
        |k: Seq<char>| label_lookup(pairs, k)->Some_0,
    )
}

/// What `mustache::compile_str` reports of a renderable text: `None` when it
/// compiles, else the text its error displays.
pub uninterp spec fn mustache_compile_error(template: Seq<char>) -> Option<Seq<char>>;

/// What `mustache::Template::render_data_to_string` writes for the template
/// compiled from a renderable text, rendered with a map of names to strings.
pub uninterp spec fn mustache_render(template: Seq<char>, data: Map<Seq<char>, Seq<char>>) -> Seq<char>;

/// A template compiled by `compile_template`, with the text it was compiled
/// from.
struct CompiledTemplate {
    inner: mustache::Template,
    source: String,
}

impl CompiledTemplate {
    /// The text the template was compiled from.
    closed spec fn source(&self) -> Seq<char> {
        self.source@
    }
}

/// Compiles a template with `mustache::compile_str`, keeping the text it
/// was compiled from; an error comes back as the text it displays. A text
/// that names no partial and keeps the default delimiters is compiled from
/// its characters alone: the outcome is named by `mustache_compile_error`.
/// As the crate's parser shows, a text without `{` holds no tag, so it
/// compiles. Of a text naming partials, which are read from the working
/// directory, nothing more is stated.
#[verifier::external_body]
fn compile_template(template: &str) -> (res: Result<CompiledTemplate, String>)
    ensures
        res matches Ok(c) ==> c.source() == template@,
        renderable(template@) ==> (match mustache_compile_error(template@) {
            None => res is Ok,
            Some(m) => res is Err && res->Err_0@ == m,
        }),
        plain_text(template@) ==> res is Ok,
{
    mustache::compile_str(template)
        .map(|inner| CompiledTemplate { inner, source: template.to_owned() })
        .map_err(|err| format!("{}", err))
}

/// Renders a compiled template with `mustache::Template::render_data_to_string`,
/// the data being a map of each name to `mustache::Data::String` of its
/// value (a later binding of a name replacing an earlier one, as collecting
/// into a `HashMap` does). As the crate's source shows, with such data a
/// renderable template writes into memory without error: the output is
/// named by `mustache_render`; a template compiled from a text without `{`
/// is one text token, written out as it is.
#[verifier::external_body]
fn render_compiled(template: &CompiledTemplate, data: &Vec<(String, String)>) -> (res: Result<String, String>)
    requires
        renderable(template.source()),
    ensures
        res is Ok && res->Ok_0@ == mustache_render(template.source(), bindings_map(data.deep_view())),
        plain_text(template.source()) ==> (res is Ok && res->Ok_0@ == template.source()),
{
    let map: std::collections::HashMap<String, mustache::Data> =
        data.iter().map(|(k, v)| (k.clone(), mustache::Data::String(v.clone()))).collect();
    template.inner.render_data_to_string(&mustache::Data::Map(map)).map_err(|err| format!("{}", err))
}

/// Whether a character is whitespace, as `char::is_whitespace` reads it.
fn white_space(c: char) -> (res: bool)
    ensures
        res == is_ws(c),
{
    ('\t' <= c && c <= '\r') || c == ' ' || c == '\u{85}' || c == '\u{A0}' || c == '\u{1680}'
        || ('\u{2000}' <= c && c <= '\u{200A}') || c == '\u{2028}' || c == '\u{2029}'
        || c == '\u{202F}' || c == '\u{205F}' || c == '\u{3000}'
}

/// Whether the text opens a tag `{{` whose content starts with `c`.
fn tag_start(t: &Vec<char>, c: char) -> (res: bool)
    ensures
        res == has_tag_start(t@, c),
{
    let n = t.len();
    let mut i: usize = 0;
    while n > 2 && i < n - 2
        invariant
            n == t@.len(),
            i <= n,
            forall|j: int| 0 <= j < i && j + 2 < n ==> !(#[trigger] t@[j] == '{' && t@[j + 1] == '{' && t@[j + 2] == c),
        decreases n - i,
    {
        if t[i] == '{' && t[i + 1] == '{' && t[i + 2] == c {
            return true;
        }
        i = i + 1;
    }
    assert forall|j: int| 0 <= j && j + 2 < n implies !(#[trigger] t@[j] == '{' && t@[j + 1] == '{' && t@[j + 2] == c) by {
        assert(j < i);
    }
    false
}

/// Whether the `.` at `i` stands alone between `{` or `&` and `}`.
fn lone_dot(t: &Vec<char>, i: usize) -> (res: bool)
    requires
        i < t@.len(),
        t@[i as int] == '.',
    ensures
        res == lone_dot_at(t@, i as int),
{
    let n = t.len();
    let mut a: usize = i;
    while a > 0 && white_space(t[a - 1])
        invariant
            a <= i,
            i < n == t@.len(),
            forall|k: int| a <= k < i ==> #[trigger] is_ws(t@[k]),
        decreases a,
    {
        a = a - 1;
    }
    let opens = a > 0 && (t[a - 1] == '{' || t[a - 1] == '&');
    proof {
        if opens {
            assert(opens_before(t@, i as int)) by {
                let w = a - 1;
                assert forall|k: int| w < k < i implies #[trigger] is_ws(t@[k]) by {}
            }
        } else {
            assert(!opens_before(t@, i as int)) by {
                if opens_before(t@, i as int) {
                    let w = choose|w: int| 0 <= w < i && (t@[w] == '{' || t@[w] == '&')
                        && forall|k: int| w < k < i ==> #[trigger] is_ws(t@[k]);
                    if w >= a {
                        assert(is_ws(t@[w]));
                    } else {
                        assert(a > 0);
                        assert(is_ws(t@[a - 1]));
                    }
                }
            }
        }
    }
    let mut b: usize = i + 1;
    while b < n && white_space(t[b])
        invariant
            i < b <= n,
            n == t@.len(),
            forall|k: int| i < k < b ==> #[trigger] is_ws(t@[k]),
        decreases n - b,
    {
        b = b + 1;
    }
    let closes = b < n && t[b] == '}';
    proof {
        if closes {
            assert(closes_after(t@, i as int)) by {
                assert forall|k: int| i < k < b implies #[trigger] is_ws(t@[k]) by {}
            }
        } else {
            assert(!closes_after(t@, i as int)) by {
                if closes_after(t@, i as int) {
                    let w = choose|w: int| i < w < t@.len() && t@[w] == '}'
                        && forall|k: int| i < k < w ==> #[trigger] is_ws(t@[k]);
                    if w < b {
                        assert(is_ws(t@[w]));
                    } else {
                        assert(b < n);
                        assert(is_ws(t@[b as int]));
                    }
                }
            }
        }
    }
    opens && closes
}

/// Whether a template is renderable: it names no partial, keeps the default
/// delimiters, and holds no lone `.` tag.
pub fn is_renderable(template: &str) -> (res: bool)
    ensures
        res == renderable(template@),
{
    let t = chars_of(template);
    if tag_start(&t, '>') || tag_start(&t, '=') {
        return false;
    }
    let n = t.len();
    let mut i: usize = 0;
    while i < n
        invariant
            n == t@.len(),
            t@ == template@,
            i <= n,
            forall|j: int| 0 <= j < i ==> !#[trigger] lone_dot_at(t@, j),
        decreases n - i,
    {
        if t[i] == '.' && lone_dot(&t, i) {
            return false;
        }
        i = i + 1;
    }
    assert forall|j: int| !#[trigger] lone_dot_at(t@, j) by {
        if 0 <= j < n {
        }
    }
    true
}

/// The answer for one step of a rendering: its output, or `500` with the
/// error's text as message.
pub fn render_outcome(outcome: Result<String, String>) -> (res: Result<String, HttpResponseError>)
    ensures
        match outcome {
            Ok(s) => res matches Ok(r) && r@ == s@,
            Err(m) => res matches Err(e) && e.status == INTERNAL_SERVER_ERROR && e.msg@ == m@,
        },
{
    match outcome {
        Ok(s) => Ok(s),
        Err(msg) => Err(HttpResponseError { msg, status: INTERNAL_SERVER_ERROR }),
    }
}

/// Renders a mustache template with the given names bound to strings. A
/// template that does not compile is answered with `500`, its message being
/// the error's text; otherwise the output is mustache's rendering of the
/// text with the labels as data. A text without `{` holds no tag and
/// renders as itself.
pub fn render_template(template: &str, data: &Labels) -> (res: Result<String, HttpResponseError>)
    requires
        renderable(template@),
    ensures
        match mustache_compile_error(template@) {
            None => res is Ok && res->Ok_0@ == mustache_render(template@, data.view()),
            Some(m) => res is Err && res->Err_0.status == INTERNAL_SERVER_ERROR && res->Err_0.msg@ == m,
        },
        plain_text(template@) ==> (res matches Ok(out) && out@ == template@),
{
    let compiled = match compile_template(template) {
        Ok(c) => c,
        Err(msg) => return render_outcome(Err(msg)),
    };
    let pairs = data.bindings_in_order();
    proof {
        assert(bindings_map(pairs.deep_view()) =~= data.view());
    }
    render_outcome(render_compiled(&compiled, &pairs))
}

} // verus!
