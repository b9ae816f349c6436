use vstd::prelude::*;
use vstd::string::*;

verus! {

/// Characters that may follow `$` in a placeholder name.
pub open spec fn is_name_char(c: char) -> bool {
    ('a' <= c && c <= 'z') || ('A' <= c && c <= 'Z') || ('0' <= c && c <= '9') || c == '_'
}

/// Length of the run of name characters in `t` that starts at index `i`.
pub open spec fn name_len(t: Seq<char>, i: int) -> nat
    decreases t.len() - i,
{
    if 0 <= i < t.len() && is_name_char(t[i]) {
        1 + name_len(t, i + 1)
    } else {
        0
    }
}

/// The value to splice in wherever `$name` stands in a template.
pub struct Binding {
    pub name: String,
    pub value: String,
}

/// Bindings as (name, value) pairs.
pub open spec fn pairs(bs: Seq<Binding>) -> Seq<(Seq<char>, Seq<char>)> {
    bs.map_values(|b: Binding| (b.name@, b.value@))
}

/// The value bound to `name`: the first binding with that name wins.
pub open spec fn lookup(bs: Seq<(Seq<char>, Seq<char>)>, name: Seq<char>) -> Option<Seq<char>>
    decreases bs.len(),
{
    if bs.len() == 0 {
        None
    } else if bs[0].0 == name {
        Some(bs[0].1)
    } else {
        lookup(bs.drop_first(), name)
    }
}

/// Whether index `i` of `t` starts a placeholder: a `$` followed by a name.
pub open spec fn starts_placeholder(t: Seq<char>, i: int) -> bool {
    0 <= i < t.len() && t[i] == '$' && name_len(t, i + 1) > 0
}

/// The placeholder name that starts at index `i` (just after its `$`).
pub open spec fn placeholder_at(t: Seq<char>, i: int) -> Seq<char> {
    t.subrange(i + 1, i + 1 + name_len(t, i + 1))
}

/// Prepends `p` to a rendered suffix, keeping a failure a failure.
pub open spec fn prefixed(p: Seq<char>, r: Option<Seq<char>>) -> Option<Seq<char>> {
    match r {
        Some(s) => Some(p + s),
        None => None,
    }
}

/// The text of `t` from index `i` on with every placeholder replaced by its
/// bound value, or `None` when some placeholder there has no binding.
pub open spec fn render_from(t: Seq<char>, i: int, bs: Seq<(Seq<char>, Seq<char>)>) -> Option<Seq<char>>
    decreases t.len() - i,
{
    if i < 0 || i >= t.len() {
        Some(Seq::empty())
    } else if starts_placeholder(t, i) {
        let j = i + 1 + name_len(t, i + 1);
        match lookup(bs, placeholder_at(t, i)) {
            None => None,
            // `j` never passes the end; the test keeps the recursion well founded.
            Some(v) => if j <= t.len() {
                prefixed(v, render_from(t, j, bs))
            } else {
                None
            },
        }
    } else {
        prefixed(seq![t[i]], render_from(t, i + 1, bs))
    }
}

/// `t` with every placeholder replaced, or `None` if one is unbound.
pub open spec fn render(t: Seq<char>, bs: Seq<(Seq<char>, Seq<char>)>) -> Option<Seq<char>> {
    render_from(t, 0, bs)
}

/// Whether `t` holds a placeholder named `name`.
pub open spec fn mentions(t: Seq<char>, name: Seq<char>) -> bool {
    exists|i: int| #[trigger] starts_placeholder(t, i) && placeholder_at(t, i) == name
}

proof fn lemma_name_len_bound(t: Seq<char>, i: int)
    requires
        0 <= i <= t.len(),
    ensures
        i + name_len(t, i) <= t.len(),
        forall|k: int| i <= k < i + name_len(t, i) ==> is_name_char(#[trigger] t[k]),
        i + name_len(t, i) < t.len() ==> !is_name_char(t[i + name_len(t, i)]),
    decreases t.len() - i,
{
    if i < t.len() && is_name_char(t[i]) {
        lemma_name_len_bound(t, i + 1);
    }
}

/// Rendering from `i` fails when a placeholder at or after `i` is unbound.
proof fn lemma_unbound_fails(t: Seq<char>, i: int, k: int, bs: Seq<(Seq<char>, Seq<char>)>)
    requires
        0 <= i <= k,
        starts_placeholder(t, k),
        lookup(bs, placeholder_at(t, k)) is None,
    ensures
        render_from(t, i, bs) is None,
    decreases t.len() - i,
{
    if i < k {
        if starts_placeholder(t, i) {
            lemma_name_len_bound(t, i + 1);
            let j = i + 1 + name_len(t, i + 1);
            if k < j {
                assert(is_name_char(t[k]));
            } else if lookup(bs, placeholder_at(t, i)) is Some {
                lemma_unbound_fails(t, j, k, bs);
            }
        } else {
            lemma_unbound_fails(t, i + 1, k, bs);
        }
    } else {
        lemma_name_len_bound(t, i + 1);
    }
}

/// A template that names a placeholder left without a binding cannot be
/// rendered: a dependent contract is never built from a reference that has not
/// been resolved yet.
pub proof fn lemma_unbound_placeholder_blocks(t: Seq<char>, bs: Seq<(Seq<char>, Seq<char>)>, name: Seq<char>)
    requires
        mentions(t, name),
        lookup(bs, name) is None,
    ensures
        render(t, bs) is None,
{
    let k = choose|k: int| #[trigger] starts_placeholder(t, k) && placeholder_at(t, k) == name;
    lemma_unbound_fails(t, 0, k, bs);
}

/// Index just past the name that starts at `from`.
fn scan_name(t: &str, len: usize, from: usize) -> (j: usize)
    requires
        len == t@.len(),
        from <= len,
    ensures
        j == from + name_len(t@, from as int),
{
    let mut j = from;
    while j < len && is_name_char_exec(t.get_char(j))
        invariant
            len == t@.len(),
            from <= j <= len,
            name_len(t@, from as int) == (j - from) + name_len(t@, j as int),
        decreases len - j,
    {
        j = j + 1;
    }
    j
}

fn is_name_char_exec(c: char) -> (r: bool)
    ensures
        r == is_name_char(c),
{
    ('a' <= c && c <= 'z') || ('A' <= c && c <= 'Z') || ('0' <= c && c <= '9') || c == '_'
}

/// The value of the first binding named `name`.
pub fn lookup_binding<'a>(bs: &'a Vec<Binding>, name: &String) -> (r: Option<&'a String>)
    ensures
        match r {
            Some(v) => lookup(pairs(bs@), name@) == Some(v@),
            None => lookup(pairs(bs@), name@) is None,
        },
{
    let mut k: usize = 0;
    let ghost ps = pairs(bs@);
    assert(ps.subrange(0, ps.len() as int) =~= ps);
    while k < bs.len()
        invariant
            k <= bs@.len(),
            ps == pairs(bs@),
            lookup(ps, name@) == lookup(ps.subrange(k as int, ps.len() as int), name@),
        decreases bs.len() - k,
    {
        let ghost rest = ps.subrange(k as int, ps.len() as int);
        assert(rest.drop_first() =~= ps.subrange(k + 1, ps.len() as int));
        if bs[k].name == *name {
            return Some(&bs[k].value);
        }
        k = k + 1;
    }
    None
}

/// Replaces every `$name` placeholder of `template` by the value bound to
/// `name`. Fails with the name of a placeholder of the template that has no
/// binding, exactly when there is one.
pub fn substitute(template: &str, bindings: &Vec<Binding>) -> (r: Result<String, String>)
    ensures
        match r {
            Ok(s) => render(template@, pairs(bindings@)) == Some(s@),
            Err(name) => render(template@, pairs(bindings@)) is None && mentions(template@, name@)
                && lookup(pairs(bindings@), name@) is None,
        },
        render(template@, pairs(bindings@)) is None <==> exists|name: Seq<char>|
            mentions(template@, name) && #[trigger] lookup(pairs(bindings@), name) is None,
{
    let len = template.unicode_len();
    let mut out = String::new();
    let mut i: usize = 0;
    while i < len
        invariant
            len == template@.len(),
            i <= len,
            render(template@, pairs(bindings@)) == prefixed(out@, render_from(template@, i as int, pairs(bindings@))),
        decreases len - i,
    {
        let c = template.get_char(i);
        let j = if c == '$' { scan_name(template, len, i + 1) } else { i + 1 };
        if c == '$' && j > i + 1 {
            proof { lemma_name_len_bound(template@, i + 1); }
            let name = template.substring_char(i + 1, j).to_string();
            proof { assert(name@ == placeholder_at(template@, i as int)); }
            match lookup_binding(bindings, &name) {
                None => {
                    proof {
                        assert(starts_placeholder(template@, i as int));
                        lemma_unbound_fails(template@, 0, i as int, pairs(bindings@));
                    }
                    return Err(name);
                },
                Some(v) => {
                    let ghost before = out@;
                    out.append(v.as_str());
                    assert(out@ == before + v@);
                    i = j;
                },
            }
        } else {
            let ghost before = out@;
            out.append(template.substring_char(i, i + 1));
            assert(template@.subrange(i as int, i + 1) =~= seq![template@[i as int]]);
            i = i + 1;
        }
    }
    proof {
        assert forall|name: Seq<char>| mentions(template@, name) implies #[trigger] lookup(
            pairs(bindings@),
            name,
        ) is Some by {
            if lookup(pairs(bindings@), name) is None {
                lemma_unbound_placeholder_blocks(template@, pairs(bindings@), name);
            }
        }
    }
    Ok(out)
}

} // verus!
