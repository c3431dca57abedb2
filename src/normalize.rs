//! Mapping of a human-readable label to a transport-safe identifier.

use vstd::prelude::*;

verus! {

pub open spec fn is_ascii_alpha(c: char) -> bool {
    ('a' <= c && c <= 'z') || ('A' <= c && c <= 'Z')
}

pub open spec fn is_ascii_alnum(c: char) -> bool {
    is_ascii_alpha(c) || ('0' <= c && c <= '9')
}

/// ASCII lowercasing: 'A'..='Z' move to 'a'..='z', all else is kept.
pub open spec fn ascii_lower(c: char) -> char {
    if 'A' <= c && c <= 'Z' {
        ((c as u32) + 32) as char
    } else {
        c
    }
}

/// A character allowed in an entity name.
pub open spec fn is_safe_char(c: char) -> bool {
    ('a' <= c && c <= 'z') || ('0' <= c && c <= '9') || c == '_'
}

/// The mapping of character `i` of `s`: the first must be a letter, the
/// others letters or digits; anything else becomes an underscore.
pub open spec fn mapped_char(s: Seq<char>, i: int) -> char {
    if i == 0 {
        if is_ascii_alpha(s[i]) { ascii_lower(s[i]) } else { '_' }
    } else {
        if is_ascii_alnum(s[i]) { ascii_lower(s[i]) } else { '_' }
    }
}

pub open spec fn mapped(s: Seq<char>) -> Seq<char> {
    Seq::new(s.len(), |i: int| mapped_char(s, i))
}

/// Every run of consecutive underscores in `s` shrunk to one.
pub open spec fn collapse_underscores(s: Seq<char>) -> Seq<char>
    decreases s.len(),
{
    if s.len() == 0 {
        s
    } else {
        let p = collapse_underscores(s.drop_last());
        if s.len() >= 2 && s.last() == '_' && s[s.len() - 2] == '_' {
            p
        } else {
            p.push(s.last())
        }
    }
}

/// The entity name of a label.
pub open spec fn safe_entity_name(s: Seq<char>) -> Seq<char> {
    collapse_underscores(mapped(s))
}

proof fn lemma_collapse_shape(s: Seq<char>)
    ensures
        collapse_underscores(s).len() <= s.len(),
        s.len() > 0 ==> collapse_underscores(s).len() > 0 && collapse_underscores(s).last()
            == s.last(),
        forall|i: int|
            0 <= i < collapse_underscores(s).len() ==> exists|j: int|
                0 <= j < s.len() && #[trigger] collapse_underscores(s)[i] == s[j],
        forall|i: int|
            0 <= i < collapse_underscores(s).len() - 1 ==> !(#[trigger] collapse_underscores(s)[i]
                == '_' && collapse_underscores(s)[i + 1] == '_'),
    decreases s.len(),
{
    if s.len() > 0 {
        let d = s.drop_last();
        lemma_collapse_shape(d);
        let p = collapse_underscores(d);
        let r = collapse_underscores(s);
        assert forall|i: int| 0 <= i < r.len() implies exists|j: int|
            0 <= j < s.len() && #[trigger] r[i] == s[j] by {
            if i < p.len() {
                let j = choose|j: int| 0 <= j < d.len() && p[i] == d[j];
                assert(r[i] == s[j]);
            } else {
                assert(r[i] == s[s.len() - 1]);
            }
        }
        if s.len() >= 2 {
            assert(p.last() == s[s.len() - 2]);
        }
    }
}

proof fn lemma_collapse_plain(s: Seq<char>)
    requires
        forall|i: int| 0 <= i < s.len() ==> s[i] != '_',
    ensures
        collapse_underscores(s) == s,
    decreases s.len(),
{
    if s.len() > 0 {
        lemma_collapse_plain(s.drop_last());
        assert(s.drop_last().push(s.last()) =~= s);
    }
}

/// An entity name holds only lowercase ASCII letters, digits and underscores.
pub proof fn lemma_entity_name_charset(s: Seq<char>)
    ensures
        forall|i: int|
            0 <= i < safe_entity_name(s).len() ==> is_safe_char(#[trigger] safe_entity_name(s)[i]),
{
    let m = mapped(s);
    lemma_collapse_shape(m);
    assert forall|i: int| 0 <= i < safe_entity_name(s).len() implies is_safe_char(
        #[trigger] safe_entity_name(s)[i],
    ) by {
        let j = choose|j: int| 0 <= j < m.len() && safe_entity_name(s)[i] == m[j];
        assert(is_safe_char(m[j]));
    }
}

/// An entity name never holds two underscores in a row.
pub proof fn lemma_entity_name_single_underscores(s: Seq<char>)
    ensures
        forall|i: int|
            0 <= i < safe_entity_name(s).len() - 1 ==> !(#[trigger] safe_entity_name(s)[i] == '_'
                && safe_entity_name(s)[i + 1] == '_'),
{
    lemma_collapse_shape(mapped(s));
}

/// A label of ASCII letters and digits that starts with a letter has as
/// entity name its own lowercase form.
pub proof fn lemma_entity_name_of_plain_label(s: Seq<char>)
    requires
        forall|i: int| 0 <= i < s.len() ==> is_ascii_alnum(#[trigger] s[i]),
        s.len() > 0 ==> is_ascii_alpha(s[0]),
    ensures
        safe_entity_name(s) == s.map_values(|c: char| ascii_lower(c)),
{
    let m = mapped(s);
    assert(m =~= s.map_values(|c: char| ascii_lower(c)));
    lemma_collapse_plain(m);
}

/// Relies on String::push: the character is appended at the end.
#[verifier::external_body]
fn push_char(s: &mut String, c: char)
    ensures
        final(s)@ == old(s)@.push(c),
{
    s.push(c)
}

fn lower_char(c: char) -> (r: char)
    ensures
        r == ascii_lower(c),
{
    if 'A' <= c && c <= 'Z' {
        ((c as u8) + 32) as char
    } else {
        c
    }
}

fn is_alpha_char(c: char) -> (r: bool)
    ensures
        r == is_ascii_alpha(c),
{
    ('a' <= c && c <= 'z') || ('A' <= c && c <= 'Z')
}

fn is_alnum_char(c: char) -> (r: bool)
    ensures
        r == is_ascii_alnum(c),
{
    is_alpha_char(c) || ('0' <= c && c <= '9')
}

/// Turns an arbitrary label into a lowercase identifier of ASCII letters,
/// digits and single underscores.
pub fn to_safe_entity_name(input: &str) -> (r: String)
    ensures
        r@ == safe_entity_name(input@),
{
    let n = input.unicode_len();
    let ghost m = mapped(input@);
    let mut result = String::new();
    let mut prev: char = '_';
    let mut i: usize = 0;
    while i < n
        invariant
            n == input@.len(),
            m == mapped(input@),
            i <= n,
            result@ == collapse_underscores(m.subrange(0, i as int)),
            i > 0 ==> prev == m[i - 1],
        decreases n - i,
    {
        let c = input.get_char(i);
        let mc = if i == 0 {
            if is_alpha_char(c) { lower_char(c) } else { '_' }
        } else {
            if is_alnum_char(c) { lower_char(c) } else { '_' }
        };
        assert(mc == m[i as int]);
        let ghost next = m.subrange(0, i + 1);
        assert(next.drop_last() =~= m.subrange(0, i as int));
        if !(i > 0 && mc == '_' && prev == '_') {
            push_char(&mut result, mc);
        }
        prev = mc;
        i = i + 1;
    }
    assert(m.subrange(0, n as int) =~= m);
    result
}

} // verus!
