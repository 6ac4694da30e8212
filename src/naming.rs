use vstd::prelude::*;

verus! {

/// The uppercase mapping of a character, as Unicode defines it (one or more characters).
pub uninterp spec fn upper_of(c: char) -> Seq<char>;

/// Relies on `char::to_uppercase` (std): the characters of its uppercase mapping.
#[verifier::external_body]
fn uppercase_char(c: char) -> (r: String)
    ensures
        r@ == upper_of(c),
{
    c.to_uppercase().to_string()
}

/// UpperCamelCase of `s`, read from position `at_start`: underscores are
/// dropped, and the first character of each run between underscores is
/// replaced by its uppercase mapping; every other character is kept.
pub open spec fn camel_from(s: Seq<char>, at_start: bool) -> Seq<char>
    decreases s.len(),
{
    if s.len() == 0 {
        Seq::empty()
    } else if s[0] == '_' {
        camel_from(s.drop_first(), true)
    } else if at_start {
        upper_of(s[0]) + camel_from(s.drop_first(), false)
    } else {
        seq![s[0]] + camel_from(s.drop_first(), false)
    }
}

/// `s` split on `_`, each segment with its first character capitalized, concatenated.
pub open spec fn camel_of(s: Seq<char>) -> Seq<char> {
    camel_from(s, true)
}

proof fn lemma_camel_step(s: Seq<char>, i: int, at_start: bool)
    requires
        0 <= i < s.len(),
    ensures
        camel_from(s.subrange(i, s.len() as int), at_start) == if s[i] == '_' {
            camel_from(s.subrange(i + 1, s.len() as int), true)
        } else if at_start {
            upper_of(s[i]) + camel_from(s.subrange(i + 1, s.len() as int), false)
        } else {
            seq![s[i]] + camel_from(s.subrange(i + 1, s.len() as int), false)
        },
{
    let t = s.subrange(i, s.len() as int);
    assert(t.drop_first() =~= s.subrange(i + 1, s.len() as int));
    assert(t[0] == s[i]);
}

proof fn lemma_camel_keeps_rest(w: Seq<char>)
    requires
        forall|i: int| 0 <= i < w.len() ==> #[trigger] w[i] != '_',
    ensures
        camel_from(w, false) == w,
    decreases w.len(),
{
    if w.len() > 0 {
        assert(w[0] != '_');
        lemma_camel_keeps_rest(w.drop_first());
        assert(seq![w[0]] + w.drop_first() =~= w);
    }
}

/// A segment without underscores comes out with its first character
/// capitalized and the rest unchanged.
pub proof fn lemma_camel_segment(w: Seq<char>)
    requires
        forall|i: int| 0 <= i < w.len() ==> #[trigger] w[i] != '_',
    ensures
        camel_of(w) == if w.len() == 0 {
            Seq::<char>::empty()
        } else {
            upper_of(w[0]) + w.drop_first()
        },
{
    if w.len() > 0 {
        assert(w[0] != '_');
        lemma_camel_keeps_rest(w.drop_first());
    }
}

proof fn lemma_camel_from_split(a: Seq<char>, b: Seq<char>, at_start: bool)
    ensures
        camel_from(a + seq!['_'] + b, at_start) == camel_from(a, at_start) + camel_from(b, true),
    decreases a.len(),
{
    let s = a + seq!['_'] + b;
    if a.len() == 0 {
        assert(s.drop_first() =~= b);
    } else {
        assert(s.drop_first() =~= a.drop_first() + seq!['_'] + b);
        assert(s[0] == a[0]);
        lemma_camel_from_split(a.drop_first(), b, true);
        lemma_camel_from_split(a.drop_first(), b, false);
    }
}

/// Deriving the type name splits on `_` and concatenates the converted parts:
/// the name of `a_b` is the name of `a` followed by the name of `b`.
pub proof fn lemma_camel_split(a: Seq<char>, b: Seq<char>)
    ensures
        camel_of(a + seq!['_'] + b) == camel_of(a) + camel_of(b),
{
    lemma_camel_from_split(a, b, true);
}

/// Converts a snake_case identifier to UpperCamelCase
/// (`find_token_metadata` becomes `FindTokenMetadata`).
pub fn to_upper_camel_case(s: &str) -> (r: String)
    ensures
        r@ == camel_of(s@),
{
    let n = s.unicode_len();
    let mut out = String::new();
    let mut at_start = true;
    let mut i: usize = 0;
    proof {
        assert(s@.subrange(0, n as int) =~= s@);
    }
    while i < n
        invariant
            n == s@.len(),
            i <= n,
            out@ + camel_from(s@.subrange(i as int, n as int), at_start) == camel_of(s@),
        decreases n - i,
    {
        let c = s.get_char(i);
        proof {
            lemma_camel_step(s@, i as int, at_start);
        }
        if c == '_' {
            at_start = true;
        } else if at_start {
            let up = uppercase_char(c);
            out.append(up.as_str());
            at_start = false;
        } else {
            out.append(s.substring_char(i, i + 1));
            at_start = false;
        }
        i = i + 1;
    }
    proof {
        assert(s@.subrange(n as int, n as int) =~= Seq::<char>::empty());
    }
    out
}

/// The name a tool is published under: the explicit name when one is given,
/// else the function's identifier exactly as written.
pub open spec fn resolved_name(explicit: Option<Seq<char>>, ident: Seq<char>) -> Seq<char> {
    match explicit {
        Some(n) => n,
        None => ident,
    }
}

/// The tool name for a function `ident` with optional `name` attribute.
pub fn resolve_tool_name(name: Option<String>, ident: &str) -> (r: String)
    ensures
        r@ == resolved_name(
            match name {
                Some(n) => Some(n@),
                None => None,
            },
            ident@,
        ),
{
    match name {
        Some(n) => n,
        None => String::from_str(ident),
    }
}

} // verus!
