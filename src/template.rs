//! Remote URL templates, parsed and rendered by tera.
//!
//! A template handed to tera for rendering is a *simple* one: text, and
//! blocks `{{ name }}` that hold one identifier between optional spaces. Such
//! a template has no filter, function, test or expression, so rendering it
//! neither panics nor reads anything but the variables given. A *plain*
//! template is a simple one whose blocks all name `user` or `project`; its
//! rendering is stated exactly.
use vstd::prelude::*;

verus! {

#[verifier::external_type_specification]
#[verifier::external_body]
pub struct ExTeraError(tera::Error);

/// Whether `template` parses as a tera template.
pub uninterp spec fn template_parses(template: Seq<char>) -> bool;

/// The name under which a provider's template is registered.
pub const REMOTE_TEMPLATE: &'static str = "remote";

pub open spec fn is_digit(c: char) -> bool {
    '0' <= c && c <= '9'
}

pub open spec fn is_word_char(c: char) -> bool {
    ('a' <= c && c <= 'z') || ('A' <= c && c <= 'Z') || is_digit(c) || c == '_'
}

/// The first position from `j` on that is not a space.
pub open spec fn skip_spaces(t: Seq<char>, j: int) -> int
    decreases t.len() - j,
{
    if 0 <= j < t.len() && t[j] == ' ' {
        skip_spaces(t, j + 1)
    } else {
        j
    }
}

/// The first position from `j` on that is not a word character.
pub open spec fn word_end(t: Seq<char>, j: int) -> int
    decreases t.len() - j,
{
    if 0 <= j < t.len() && is_word_char(t[j]) {
        word_end(t, j + 1)
    } else {
        j
    }
}

pub open spec fn name_start(t: Seq<char>, i: int) -> int {
    skip_spaces(t, i + 2)
}

pub open spec fn name_end(t: Seq<char>, i: int) -> int {
    word_end(t, name_start(t, i))
}

pub open spec fn close_at(t: Seq<char>, i: int) -> int {
    skip_spaces(t, name_end(t, i))
}

/// A block `{{ name }}` starts at position `i`: `{{`, spaces, an identifier,
/// spaces, `}}`.
pub open spec fn block_at(t: Seq<char>, i: int) -> bool {
    &&& 0 <= i && i + 1 < t.len() && t[i] == '{' && t[i + 1] == '{'
    &&& i < close_at(t, i)
    &&& name_start(t, i) < t.len() && is_word_char(t[name_start(t, i)]) && !is_digit(t[name_start(t, i)])
    &&& close_at(t, i) + 1 < t.len() && t[close_at(t, i)] == '}' && t[close_at(t, i) + 1] == '}'
}

/// The identifier of the block at `i`.
pub open spec fn block_name(t: Seq<char>, i: int) -> Seq<char> {
    t.subrange(name_start(t, i), name_end(t, i))
}

/// The position after the block at `i`.
pub open spec fn block_next(t: Seq<char>, i: int) -> int {
    close_at(t, i) + 2
}

/// A tag (`{{`, `{%` or `{#`) opens at position `i`.
pub open spec fn opens_tag(t: Seq<char>, i: int) -> bool {
    t[i] == '{' && i + 1 < t.len() && (t[i + 1] == '{' || t[i + 1] == '%' || t[i + 1] == '#')
}

pub open spec fn is_placeholder(name: Seq<char>) -> bool {
    name == seq!['u', 's', 'e', 'r'] || name == seq!['p', 'r', 'o', 'j', 'e', 'c', 't']
}

/// From position `i` on, `t` is text and simple blocks; when `plain`, every
/// block is a placeholder.
pub open spec fn simple_from(t: Seq<char>, i: int, plain: bool) -> bool
    decreases t.len() - i,
{
    if i < 0 || i >= t.len() {
        true
    } else if block_at(t, i) {
        (!plain || is_placeholder(block_name(t, i))) && simple_from(t, block_next(t, i), plain)
    } else {
        !opens_tag(t, i) && simple_from(t, i + 1, plain)
    }
}

/// Text and blocks that each hold one identifier.
pub open spec fn simple_template(t: Seq<char>) -> bool {
    simple_from(t, 0, false)
}

/// Text and the placeholders `{{ user }}` and `{{ project }}`.
pub open spec fn plain_template(t: Seq<char>) -> bool {
    simple_from(t, 0, true)
}

/// A plain template is a simple one.
pub proof fn lemma_plain_is_simple(t: Seq<char>, i: int)
    ensures
        simple_from(t, i, true) ==> simple_from(t, i, false),
    decreases t.len() - i,
{
    if 0 <= i < t.len() {
        if block_at(t, i) {
            lemma_plain_is_simple(t, block_next(t, i));
        } else {
            lemma_plain_is_simple(t, i + 1);
        }
    }
}

/// The text from position `i` on, with each placeholder replaced.
pub open spec fn substituted_from(t: Seq<char>, i: int, user: Seq<char>, project: Seq<char>) -> Seq<char>
    decreases t.len() - i,
{
    if i < 0 || i >= t.len() {
        seq![]
    } else if block_at(t, i) {
        (if block_name(t, i) == seq!['u', 's', 'e', 'r'] {
            user
        } else {
            project
        }) + substituted_from(t, block_next(t, i), user, project)
    } else {
        seq![t[i]] + substituted_from(t, i + 1, user, project)
    }
}

/// The template with each `{{ user }}` replaced by `user` and each
/// `{{ project }}` by `project`.
pub open spec fn substituted(t: Seq<char>, user: Seq<char>, project: Seq<char>) -> Seq<char> {
    substituted_from(t, 0, user, project)
}

fn skip_spaces_from(t: &str, n: usize, j: usize) -> (r: usize)
    requires
        n == t@.len(),
        j <= n,
    ensures
        r == skip_spaces(t@, j as int),
        j <= r <= n,
{
    let mut k = j;
    while k < n
        invariant
            n == t@.len(),
            j <= k <= n,
            skip_spaces(t@, j as int) == skip_spaces(t@, k as int),
        ensures
            j <= k <= n,
            skip_spaces(t@, j as int) == k,
        decreases n - k,
    {
        if t.get_char(k) != ' ' {
            break;
        }
        k = k + 1;
    }
    k
}

fn word_char(c: char) -> (r: bool)
    ensures
        r == is_word_char(c),
{
    ('a' <= c && c <= 'z') || ('A' <= c && c <= 'Z') || ('0' <= c && c <= '9') || c == '_'
}

fn word_end_from(t: &str, n: usize, j: usize) -> (r: usize)
    requires
        n == t@.len(),
        j <= n,
    ensures
        r == word_end(t@, j as int),
        j <= r <= n,
{
    let mut k = j;
    while k < n
        invariant
            n == t@.len(),
            j <= k <= n,
            word_end(t@, j as int) == word_end(t@, k as int),
        ensures
            j <= k <= n,
            word_end(t@, j as int) == k,
        decreases n - k,
    {
        if !word_char(t.get_char(k)) {
            break;
        }
        k = k + 1;
    }
    k
}

/// The block at `i`, if any: where its name starts and ends, and the
/// position after it.
fn block_here(t: &str, n: usize, i: usize) -> (r: Option<(usize, usize, usize)>)
    requires
        n == t@.len(),
        i < n,
    ensures
        r is Some == block_at(t@, i as int),
        r matches Some((a, b, next)) ==> a == name_start(t@, i as int) && b == name_end(t@, i as int)
            && next == block_next(t@, i as int) && i < next <= n && a <= b <= n,
{
    if n - i < 2 || t.get_char(i) != '{' || t.get_char(i + 1) != '{' {
        return None;
    }
    let a = skip_spaces_from(t, n, i + 2);
    let b = word_end_from(t, n, a);
    let c = skip_spaces_from(t, n, b);
    if a >= n {
        return None;
    }
    let first = t.get_char(a);
    if !word_char(first) || ('0' <= first && first <= '9') {
        return None;
    }
    if n - c < 2 || t.get_char(c) != '}' || t.get_char(c + 1) != '}' {
        return None;
    }
    Some((a, b, c + 2))
}

fn opens_tag_here(t: &str, n: usize, i: usize) -> (r: bool)
    requires
        n == t@.len(),
        i < n,
    ensures
        r == opens_tag(t@, i as int),
{
    if t.get_char(i) != '{' || n - i < 2 {
        return false;
    }
    let c = t.get_char(i + 1);
    c == '{' || c == '%' || c == '#'
}

fn placeholder(t: &str, a: usize, b: usize) -> (r: bool)
    requires
        a <= b <= t@.len(),
    ensures
        r == is_placeholder(t@.subrange(a as int, b as int)),
{
    let ghost s = t@.subrange(a as int, b as int);
    if b - a == 4 {
        let r = t.get_char(a) == 'u' && t.get_char(a + 1) == 's' && t.get_char(a + 2) == 'e' && t.get_char(a + 3)
            == 'r';
        assert(r ==> s =~= seq!['u', 's', 'e', 'r']);
        assert(s.len() != 7);
        r
    } else if b - a == 7 {
        let r = t.get_char(a) == 'p' && t.get_char(a + 1) == 'r' && t.get_char(a + 2) == 'o' && t.get_char(a + 3)
            == 'j' && t.get_char(a + 4) == 'e' && t.get_char(a + 5) == 'c' && t.get_char(a + 6) == 't';
        assert(r ==> s =~= seq!['p', 'r', 'o', 'j', 'e', 'c', 't']);
        assert(s.len() != 4);
        r
    } else {
        assert(s.len() != 4 && s.len() != 7);
        false
    }
}

/// Whether `t` is text and blocks of one identifier each; with `plain`,
/// whether every block is `{{ user }}` or `{{ project }}`.
fn is_simple(t: &str, plain: bool) -> (r: bool)
    ensures
        r == simple_from(t@, 0, plain),
{
    let n = t.unicode_len();
    let mut i: usize = 0;
    while i < n
        invariant
            n == t@.len(),
            0 <= i <= n,
            simple_from(t@, 0, plain) == simple_from(t@, i as int, plain),
        decreases n - i,
    {
        match block_here(t, n, i) {
            Some((a, b, next)) => {
                if plain && !placeholder(t, a, b) {
                    return false;
                }
                i = next;
            },
            None => {
                if opens_tag_here(t, n, i) {
                    return false;
                }
                i = i + 1;
            },
        }
    }
    true
}

/// Whether `t` is a simple template.
pub fn is_simple_template(t: &str) -> (r: bool)
    ensures
        r == simple_template(t@),
{
    is_simple(t, false)
}

/// Whether `t` is a plain template.
pub fn is_plain_template(t: &str) -> (r: bool)
    ensures
        r == plain_template(t@),
{
    is_simple(t, true)
}

/// Relies on `tera::Tera::add_raw_template` on a fresh `Tera`: parses
/// `template`, failing exactly when it does not parse.
#[verifier::external_body]
pub(crate) fn check_template(template: &str) -> (r: Result<(), tera::Error>)
    ensures
        r is Ok == template_parses(template@),
{
    tera::Tera::default().add_raw_template(REMOTE_TEMPLATE, template)
}

/// Relies on `tera::Tera::one_off` without autoescaping. A simple template
/// holds no expression, so rendering it cannot panic; a plain one always
/// renders: text is copied and each placeholder becomes the string bound to
/// it.
#[verifier::external_body]
pub(crate) fn render(template: &str, user: &str, project: &str) -> (r: Result<String, tera::Error>)
    requires
        simple_template(template@),
    ensures
        plain_template(template@) ==> (r is Ok && r->Ok_0@ == substituted(template@, user@, project@)),
{
    let mut context = tera::Context::new();
    context.insert("user", user);
    context.insert("project", project);
    tera::Tera::one_off(template, &context, false)
}

} // verus!
