//! Rendering of query templates.
//!
//! A placeholder is written `${name}`: a dollar sign, an opening brace, a
//! name of one or more characters other than a closing brace, and a closing
//! brace. Placeholders are found from left to right and do not overlap.
//! Everything else in a template is literal text.

use vstd::prelude::*;
use vstd::string::*;
use crate::text::chars_of;

verus! {

/// Why a template could not be rendered.
#[derive(Debug, Clone, PartialEq, Eq)]
pub enum RenderError {
    /// The template names a placeholder for which the context has no value.
    MissingVariable(String),
}

/// What rendering gives, as a mathematical value.
pub enum Rendering {
    Text(Seq<char>),
    Missing(Seq<char>),
}

/// Puts `prefix` in front of a rendered text; a failure is left as it is.
pub open spec fn prepend(prefix: Seq<char>, r: Rendering) -> Rendering {
    match r {
        Rendering::Text(rest) => Rendering::Text(prefix + rest),
        Rendering::Missing(name) => Rendering::Missing(name),
    }
}

/// The first position at or after `i` that holds a closing brace, or the
/// template's length if there is none.
pub open spec fn name_end(t: Seq<char>, i: int) -> int
    decreases t.len() - i,
{
    if i < 0 || i >= t.len() || t[i] == '}' {
        i
    } else {
        name_end(t, i + 1)
    }
}

/// A placeholder starts at position `i` of `t`.
pub open spec fn placeholder_at(t: Seq<char>, i: int) -> bool {
    &&& 0 <= i
    &&& i + 3 < t.len()
    &&& t[i] == '$'
    &&& t[i + 1] == '{'
    &&& i + 2 < name_end(t, i + 2) < t.len()
}

/// The name of the placeholder that starts at position `i`.
pub open spec fn placeholder_name(t: Seq<char>, i: int) -> Seq<char> {
    t.subrange(i + 2, name_end(t, i + 2))
}

/// The rendering of `t` from position `i` on.
pub open spec fn render_from(t: Seq<char>, ctx: Map<Seq<char>, Seq<char>>, i: int) -> Rendering
    decreases t.len() - i,
{
    if i < 0 || i >= t.len() {
        Rendering::Text(Seq::empty())
    } else if placeholder_at(t, i) {
        let name = placeholder_name(t, i);
        if ctx.contains_key(name) {
            prepend(ctx[name], render_from(t, ctx, name_end(t, i + 2) + 1))
        } else {
            Rendering::Missing(name)
        }
    } else {
        prepend(seq![t[i]], render_from(t, ctx, i + 1))
    }
}

/// The rendering of the template `t` under the context `ctx`.
pub open spec fn render_spec(t: Seq<char>, ctx: Map<Seq<char>, Seq<char>>) -> Rendering {
    render_from(t, ctx, 0)
}

/// The value that the pairs `entries` give to `name`: that of the last pair
/// with this name.
spec fn lookup(entries: Seq<(String, String)>, name: Seq<char>) -> Option<Seq<char>>
    decreases entries.len(),
{
    if entries.len() == 0 {
        None
    } else if entries.last().0@ == name {
        Some(entries.last().1@)
    } else {
        lookup(entries.drop_last(), name)
    }
}

/// The values to put in place of a template's placeholders, by name.
#[derive(Debug, Default, Clone)]
pub struct RenderContext {
    entries: Vec<(String, String)>,
}

impl View for RenderContext {
    type V = Map<Seq<char>, Seq<char>>;

    closed spec fn view(&self) -> Map<Seq<char>, Seq<char>> {
        Map::new(
            |name: Seq<char>| lookup(self.entries@, name) is Some,
            |name: Seq<char>| lookup(self.entries@, name)->0,
        )
    }
}

impl RenderContext {
    /// A context without values.
    pub fn new() -> (ctx: RenderContext)
        ensures
            ctx@ == Map::<Seq<char>, Seq<char>>::empty(),
    {
        let ctx = RenderContext { entries: Vec::new() };
        assert(ctx@ =~= Map::<Seq<char>, Seq<char>>::empty());
        ctx
    }

    /// Gives `name` the value `value`, in place of any value it had.
    pub fn insert(&mut self, name: &str, value: String)
        ensures
            final(self)@ == old(self)@.insert(name@, value@),
    {
        let key = String::from_str(name);
        self.entries.push((key, value));
        assert(self.entries@.drop_last() == old(self).entries@);
        assert(final(self)@ =~= old(self)@.insert(name@, value@));
    }

    /// The value of `name`, if it has one.
    pub fn get(&self, name: &str) -> (value: Option<&String>)
        ensures
            value is Some == self@.contains_key(name@),
            value matches Some(v) ==> v@ == self@[name@],
    {
        let key = String::from_str(name);
        let mut i: usize = self.entries.len();
        assert(self.entries@ == self.entries@.subrange(0, i as int));
        while i > 0
            invariant
                i <= self.entries.len(),
                key@ == name@,
                lookup(self.entries@, name@) == lookup(self.entries@.subrange(0, i as int), name@),
            decreases i,
        {
            i = i - 1;
            let ghost prefix = self.entries@.subrange(0, i + 1);
            assert(prefix.last() == self.entries@[i as int]);
            assert(prefix.drop_last() == self.entries@.subrange(0, i as int));
            if self.entries[i].0 == key {
                return Some(&self.entries[i].1);
            }
        }
        None
    }
}

/// `prepend` twice is `prepend` of the joined prefixes.
proof fn lemma_prepend_twice(a: Seq<char>, b: Seq<char>, r: Rendering)
    ensures
        prepend(a, prepend(b, r)) == prepend(a + b, r),
{
    match r {
        Rendering::Text(rest) => {
            assert(a + (b + rest) =~= (a + b) + rest);
        },
        Rendering::Missing(_) => {},
    }
}

/// `r` is what rendering gives where the rendering is `rendering`.
pub open spec fn rendered_as(r: Result<String, RenderError>, rendering: Rendering) -> bool {
    match rendering {
        Rendering::Text(text) => r matches Ok(s) && s@ == text,
        Rendering::Missing(name) => r matches Err(RenderError::MissingVariable(n)) && n@ == name,
    }
}

/// Renders `templ`: each placeholder gives way to the value that `context`
/// has for its name, as it stands; all other text is kept. Fails at the
/// first placeholder whose name `context` does not hold.
pub fn render(templ: &str, context: &RenderContext) -> (r: Result<String, RenderError>)
    ensures
        rendered_as(r, render_spec(templ@, context@)),
{
    let chars = chars_of(templ);
    let n = chars.len();
    let ghost t = templ@;
    let ghost ctx = context@;
    let mut out = String::new();
    let mut done: usize = 0;
    let mut i: usize = 0;
    while i < n
        invariant
            done <= i <= n,
            n == t.len(),
            chars@ == t,
            t == templ@,
            ctx == context@,
            render_spec(t, ctx) == prepend(
                out@ + t.subrange(done as int, i as int),
                render_from(t, ctx, i as int),
            ),
        decreases n - i,
    {
        let mut e: usize = i;
        if chars[i] == '$' && n - i > 3 && chars[i + 1] == '{' {
            e = i + 2;
            while e < n && chars[e] != '}'
                invariant
                    i + 2 <= e <= n,
                    n == t.len(),
                    chars@ == t,
                    name_end(t, i + 2) == name_end(t, e as int),
                    forall|j: int| i + 2 <= j < e ==> t[j] != '}',
                decreases n - e,
            {
                e = e + 1;
            }
        }
        if e - i > 2 && e < n {
            assert(placeholder_at(t, i as int));
            let name = templ.substring_char(i + 2, e);
            assert(name@ == placeholder_name(t, i as int));
            match context.get(name) {
                Some(value) => {
                    let ghost before = out@ + t.subrange(done as int, i as int);
                    out.append(templ.substring_char(done, i));
                    out.append(value.as_str());
                    proof {
                        lemma_prepend_twice(before, value@, render_from(t, ctx, e + 1));
                        assert(t.subrange(e + 1, e + 1) =~= Seq::<char>::empty());
                        assert(out@ + t.subrange(e + 1, e + 1) =~= before + value@);
                    }
                    i = e + 1;
                    done = i;
                },
                None => {
                    return Err(RenderError::MissingVariable(String::from_str(name)));
                },
            }
        } else if e == n {
            // No closing brace is left, so no placeholder is: the rest is literal.
            proof {
                let before = out@ + t.subrange(done as int, i as int);
                assert forall|k: int| i <= k < n implies !placeholder_at(t, k) by {
                    if k + 2 < n {
                        lemma_name_end_is_brace(t, k + 2);
                    }
                }
                lemma_render_literal_run(t, ctx, i as int, n as int);
                lemma_prepend_twice(
                    before,
                    t.subrange(i as int, n as int),
                    render_from(t, ctx, n as int),
                );
                assert(before + t.subrange(i as int, n as int) =~= out@ + t.subrange(
                    done as int,
                    n as int,
                ));
            }
            i = n;
        } else {
            assert(!placeholder_at(t, i as int));
            proof {
                let before = out@ + t.subrange(done as int, i as int);
                lemma_prepend_twice(before, seq![t[i as int]], render_from(t, ctx, i + 1));
                assert(before + seq![t[i as int]] =~= out@ + t.subrange(done as int, i + 1));
            }
            i = i + 1;
        }
    }
    out.append(templ.substring_char(done, n));
    assert(out@ + Seq::<char>::empty() =~= out@);
    Ok(out)
}

/// The names of the placeholders of `t` from position `i` on, in order.
pub open spec fn placeholder_names(t: Seq<char>, i: int) -> Seq<Seq<char>>
    decreases t.len() - i,
{
    if i < 0 || i >= t.len() {
        Seq::empty()
    } else if placeholder_at(t, i) {
        seq![placeholder_name(t, i)] + placeholder_names(t, name_end(t, i + 2) + 1)
    } else {
        placeholder_names(t, i + 1)
    }
}

/// The first of `names` that `ctx` has no value for.
pub open spec fn first_missing(names: Seq<Seq<char>>, ctx: Map<Seq<char>, Seq<char>>) -> Option<
    Seq<char>,
>
    decreases names.len(),
{
    if names.len() == 0 {
        None
    } else if !ctx.contains_key(names[0]) {
        Some(names[0])
    } else {
        first_missing(names.drop_first(), ctx)
    }
}

/// Rendering from position `i` on fails exactly where a placeholder from
/// there on has no value, and names the first such placeholder.
pub proof fn lemma_render_fails_at_first_missing(
    t: Seq<char>,
    ctx: Map<Seq<char>, Seq<char>>,
    i: int,
)
    ensures
        match first_missing(placeholder_names(t, i), ctx) {
            Some(name) => render_from(t, ctx, i) == Rendering::Missing(name),
            None => render_from(t, ctx, i) is Text,
        },
    decreases t.len() - i,
{
    if i < 0 || i >= t.len() {
    } else if placeholder_at(t, i) {
        let next = name_end(t, i + 2) + 1;
        let names = placeholder_names(t, i);
        assert(names[0] == placeholder_name(t, i));
        assert(names.drop_first() =~= placeholder_names(t, next));
        lemma_render_fails_at_first_missing(t, ctx, next);
    } else {
        lemma_render_fails_at_first_missing(t, ctx, i + 1);
    }
}

/// Where one of `names` has no value in `ctx`, some first one has none.
proof fn lemma_first_missing_exists(
    names: Seq<Seq<char>>,
    ctx: Map<Seq<char>, Seq<char>>,
    k: int,
)
    requires
        0 <= k < names.len(),
        !ctx.contains_key(names[k]),
    ensures
        first_missing(names, ctx) is Some,
        (forall|j: int| 0 <= j < k ==> ctx.contains_key(#[trigger] names[j])) ==> first_missing(
            names,
            ctx,
        ) == Some(names[k]),
    decreases names.len(),
{
    if ctx.contains_key(names[0]) {
        let rest = names.drop_first();
        assert(forall|j: int| 0 <= j < k - 1 ==> #[trigger] rest[j] == names[j + 1]);
        lemma_first_missing_exists(rest, ctx, k - 1);
    }
}

/// Rendering is a function of the template and of the context: two
/// renderings of one template under one context give the same text, or fail
/// with the same name.
pub proof fn lemma_render_deterministic(
    t: Seq<char>,
    ctx: Map<Seq<char>, Seq<char>>,
    first: Result<String, RenderError>,
    second: Result<String, RenderError>,
)
    requires
        rendered_as(first, render_spec(t, ctx)),
        rendered_as(second, render_spec(t, ctx)),
    ensures
        first is Ok == second is Ok,
        first is Ok ==> first->Ok_0@ == second->Ok_0@,
        first is Err ==> first->Err_0->MissingVariable_0@ == second->Err_0->MissingVariable_0@,
{
}

/// A template with a placeholder whose name has no value in the context is
/// never rendered: rendering fails, with the name of the first such
/// placeholder. So it fails with the name at `k` where every placeholder
/// before that one has a value.
pub proof fn lemma_missing_placeholder_fails(
    t: Seq<char>,
    ctx: Map<Seq<char>, Seq<char>>,
    k: int,
)
    requires
        0 <= k < placeholder_names(t, 0).len(),
        !ctx.contains_key(placeholder_names(t, 0)[k]),
    ensures
        render_spec(t, ctx) is Missing,
        !ctx.contains_key(render_spec(t, ctx)->Missing_0),
        (forall|j: int| 0 <= j < k ==> ctx.contains_key(#[trigger] placeholder_names(t, 0)[j]))
            ==> render_spec(t, ctx) == Rendering::Missing(placeholder_names(t, 0)[k]),
{
    let names = placeholder_names(t, 0);
    lemma_first_missing_exists(names, ctx, k);
    lemma_render_fails_at_first_missing(t, ctx, 0);
    lemma_first_missing_is_missing(names, ctx);
}

/// The first name without a value has no value.
proof fn lemma_first_missing_is_missing(names: Seq<Seq<char>>, ctx: Map<Seq<char>, Seq<char>>)
    ensures
        first_missing(names, ctx) matches Some(name) ==> !ctx.contains_key(name),
    decreases names.len(),
{
    if names.len() > 0 && ctx.contains_key(names[0]) {
        lemma_first_missing_is_missing(names.drop_first(), ctx);
    }
}

/// A template that holds `${name}` with no dollar sign before it is
/// rendered up to there as it stands; there rendering fails with `name`
/// where the context has no value for it, and else goes on with the value
/// and what renders of the rest.
pub proof fn lemma_first_placeholder(
    before: Seq<char>,
    name: Seq<char>,
    after: Seq<char>,
    ctx: Map<Seq<char>, Seq<char>>,
)
    requires
        forall|i: int| 0 <= i < before.len() ==> before[i] != '$',
        name.len() > 0,
        forall|i: int| 0 <= i < name.len() ==> name[i] != '}',
    ensures
        render_spec(before + seq!['$', '{'] + name + seq!['}'] + after, ctx) == if ctx.contains_key(
            name,
        ) {
            prepend(before + ctx[name], render_spec(after, ctx))
        } else {
            Rendering::Missing(name)
        },
{
    let t = before + seq!['$', '{'] + name + seq!['}'] + after;
    let start = before.len() as int;
    let end = start + 2 + name.len();
    lemma_name_end(t, start + 2, end);
    assert(placeholder_at(t, start));
    assert(placeholder_name(t, start) =~= name);
    lemma_render_suffix(t, after, ctx, end + 1, 0);
    assert forall|k: int| 0 <= k < start implies !placeholder_at(t, k) by {
        assert(t[k] == before[k]);
    }
    lemma_render_literal_run(t, ctx, 0, start);
    assert(t.subrange(0, start) =~= before);
    if ctx.contains_key(name) {
        lemma_prepend_twice(before, ctx[name], render_spec(after, ctx));
    }
}

/// Where no placeholder starts at a position from `i` up to `j`, the text
/// between them is rendered as it stands.
proof fn lemma_render_literal_run(t: Seq<char>, ctx: Map<Seq<char>, Seq<char>>, i: int, j: int)
    requires
        0 <= i <= j <= t.len(),
        forall|k: int| i <= k < j ==> !placeholder_at(t, k),
    ensures
        render_from(t, ctx, i) == prepend(t.subrange(i, j), render_from(t, ctx, j)),
    decreases j - i,
{
    if i == j {
        assert(t.subrange(i, j) =~= Seq::<char>::empty());
        lemma_prepend_empty(render_from(t, ctx, j));
    } else {
        lemma_render_literal_run(t, ctx, i + 1, j);
        lemma_prepend_twice(seq![t[i]], t.subrange(i + 1, j), render_from(t, ctx, j));
        assert(seq![t[i]] + t.subrange(i + 1, j) =~= t.subrange(i, j));
    }
}

/// A name that ends before the template does ends at a closing brace.
proof fn lemma_name_end_is_brace(t: Seq<char>, i: int)
    requires
        0 <= i,
    ensures
        i <= name_end(t, i),
        name_end(t, i) < t.len() ==> t[name_end(t, i)] == '}',
    decreases t.len() - i,
{
    if i < t.len() && t[i] != '}' {
        lemma_name_end_is_brace(t, i + 1);
    }
}

/// To put nothing in front changes nothing.
proof fn lemma_prepend_empty(r: Rendering)
    ensures
        prepend(Seq::empty(), r) == r,
{
    match r {
        Rendering::Text(rest) => {
            assert(Seq::<char>::empty() + rest =~= rest);
        },
        Rendering::Missing(_) => {},
    }
}

/// Rendering reads a template from left to right and looks only ahead:
/// where `t` ends in `s`, what `t` renders to from a position in that end is
/// what `s` renders to from the same place.
proof fn lemma_render_suffix(
    t: Seq<char>,
    s: Seq<char>,
    ctx: Map<Seq<char>, Seq<char>>,
    i: int,
    j: int,
)
    requires
        0 <= j <= s.len(),
        i - j == t.len() - s.len(),
        i - j >= 0,
        forall|k: int| 0 <= k < s.len() ==> s[k] == t[k + (i - j)],
    ensures
        render_from(t, ctx, i) == render_from(s, ctx, j),
    decreases s.len() - j,
{
    if j < s.len() {
        lemma_name_end_suffix(t, s, i + 2, j + 2);
        let e = name_end(s, j + 2);
        if placeholder_at(s, j) {
            assert(placeholder_at(t, i));
            assert(placeholder_name(t, i) =~= placeholder_name(s, j));
            lemma_render_suffix(t, s, ctx, e + (i - j) + 1, e + 1);
        } else {
            assert(!placeholder_at(t, i));
            lemma_render_suffix(t, s, ctx, i + 1, j + 1);
        }
    }
}

/// The same for the end of a name.
proof fn lemma_name_end_suffix(t: Seq<char>, s: Seq<char>, i: int, j: int)
    requires
        0 <= j,
        i - j == t.len() - s.len(),
        i - j >= 0,
        forall|k: int| 0 <= k < s.len() ==> s[k] == t[k + (i - j)],
    ensures
        name_end(t, i) - i == name_end(s, j) - j,
    decreases s.len() - j,
{
    if j < s.len() && s[j] != '}' {
        lemma_name_end_suffix(t, s, i + 1, j + 1);
    }
}

/// Where no position from `i` up to `end` holds a closing brace and `end`
/// does, the name that starts at `i` ends at `end`.
proof fn lemma_name_end(t: Seq<char>, i: int, end: int)
    requires
        0 <= i <= end < t.len(),
        t[end] == '}',
        forall|j: int| i <= j < end ==> t[j] != '}',
    ensures
        name_end(t, i) == end,
    decreases end - i,
{
    if i < end {
        lemma_name_end(t, i + 1, end);
    }
}

} // verus!
