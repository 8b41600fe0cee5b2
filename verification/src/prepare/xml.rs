use vstd::prelude::*;

use crate::text::{chars_of, push_char};

verus! {

/// `&amp;`
pub open spec fn amp_entity() -> Seq<char> {
    seq!['&', 'a', 'm', 'p', ';']
}

/// `&lt;`
pub open spec fn lt_entity() -> Seq<char> {
    seq!['&', 'l', 't', ';']
}

/// `&gt;`
pub open spec fn gt_entity() -> Seq<char> {
    seq!['&', 'g', 't', ';']
}

/// `&quot;`
pub open spec fn quot_entity() -> Seq<char> {
    seq!['&', 'q', 'u', 'o', 't', ';']
}

/// How one character is written in XML text.
pub open spec fn escape_char(c: char) -> Seq<char> {
    if c == '&' {
        amp_entity()
    } else if c == '<' {
        lt_entity()
    } else if c == '>' {
        gt_entity()
    } else if c == '"' {
        quot_entity()
    } else {
        seq![c]
    }
}

/// `s` with `&`, `<`, `>` and `"` replaced by their entities.
pub open spec fn xml_escape_spec(s: Seq<char>) -> Seq<char>
    decreases s.len(),
{
    if s.len() == 0 {
        Seq::empty()
    } else {
        escape_char(s[0]) + xml_escape_spec(s.drop_first())
    }
}

/// Whether `s` begins with `p`.
pub open spec fn starts_with(s: Seq<char>, p: Seq<char>) -> bool {
    s.len() >= p.len() && s.subrange(0, p.len() as int) == p
}

/// Reading XML text back: each of the four entities becomes its character.
pub open spec fn xml_unescape_spec(s: Seq<char>) -> Seq<char>
    decreases s.len(),
{
    if s.len() == 0 {
        Seq::empty()
    } else if starts_with(s, amp_entity()) {
        seq!['&'] + xml_unescape_spec(s.skip(5))
    } else if starts_with(s, lt_entity()) {
        seq!['<'] + xml_unescape_spec(s.skip(4))
    } else if starts_with(s, gt_entity()) {
        seq!['>'] + xml_unescape_spec(s.skip(4))
    } else if starts_with(s, quot_entity()) {
        seq!['"'] + xml_unescape_spec(s.skip(6))
    } else {
        seq![s[0]] + xml_unescape_spec(s.drop_first())
    }
}

proof fn lemma_escape_push(s: Seq<char>, c: char)
    ensures
        xml_escape_spec(s.push(c)) == xml_escape_spec(s) + escape_char(c),
    decreases s.len(),
{
    if s.len() == 0 {
        assert(s.push(c).drop_first() =~= Seq::<char>::empty());
        assert(s.push(c)[0] == c);
        assert(xml_escape_spec(Seq::<char>::empty()) == Seq::<char>::empty());
        assert(xml_escape_spec(s.push(c)) =~= escape_char(c) + Seq::<char>::empty());
    } else {
        assert(s.push(c).drop_first() =~= s.drop_first().push(c));
        lemma_escape_push(s.drop_first(), c);
        assert(xml_escape_spec(s.push(c)) =~= xml_escape_spec(s) + escape_char(c));
    }
}

proof fn lemma_unescape_one(c: char, t: Seq<char>)
    ensures
        xml_unescape_spec(escape_char(c) + t) == seq![c] + xml_unescape_spec(t),
{
    let x = escape_char(c) + t;
    if c == '&' {
        assert(x.subrange(0, 5) =~= amp_entity());
        assert(x.skip(5) =~= t);
    } else if c == '<' {
        assert(x[1] == 'l');
        assert(!starts_with(x, amp_entity())) by {
            if x.len() >= 5 {
                assert(x.subrange(0, 5)[1] != amp_entity()[1]);
            }
        }
        assert(x.subrange(0, 4) =~= lt_entity());
        assert(x.skip(4) =~= t);
    } else if c == '>' {
        assert(x[1] == 'g');
        assert(!starts_with(x, amp_entity())) by {
            if x.len() >= 5 {
                assert(x.subrange(0, 5)[1] != amp_entity()[1]);
            }
        }
        assert(!starts_with(x, lt_entity())) by {
            assert(x.subrange(0, 4)[1] != lt_entity()[1]);
        }
        assert(x.subrange(0, 4) =~= gt_entity());
        assert(x.skip(4) =~= t);
    } else if c == '"' {
        assert(x[1] == 'q');
        assert(!starts_with(x, amp_entity())) by {
            assert(x.subrange(0, 5)[1] != amp_entity()[1]);
        }
        assert(!starts_with(x, lt_entity())) by {
            assert(x.subrange(0, 4)[1] != lt_entity()[1]);
        }
        assert(!starts_with(x, gt_entity())) by {
            assert(x.subrange(0, 4)[1] != gt_entity()[1]);
        }
        assert(x.subrange(0, 6) =~= quot_entity());
        assert(x.skip(6) =~= t);
    } else {
        assert(x[0] == c);
        assert(!starts_with(x, amp_entity())) by {
            if x.len() >= 5 {
                assert(x.subrange(0, 5)[0] != amp_entity()[0]);
            }
        }
        assert(!starts_with(x, lt_entity())) by {
            if x.len() >= 4 {
                assert(x.subrange(0, 4)[0] != lt_entity()[0]);
            }
        }
        assert(!starts_with(x, gt_entity())) by {
            if x.len() >= 4 {
                assert(x.subrange(0, 4)[0] != gt_entity()[0]);
            }
        }
        assert(!starts_with(x, quot_entity())) by {
            if x.len() >= 6 {
                assert(x.subrange(0, 6)[0] != quot_entity()[0]);
            }
        }
        assert(x.drop_first() =~= t);
    }
}

/// Escaping loses nothing: unescaping the escaped text gives the text back.
pub proof fn lemma_xml_escape_roundtrip(s: Seq<char>)
    ensures
        xml_unescape_spec(xml_escape_spec(s)) == s,
    decreases s.len(),
{
    if s.len() == 0 {
    } else {
        lemma_xml_escape_roundtrip(s.drop_first());
        lemma_unescape_one(s[0], xml_escape_spec(s.drop_first()));
        assert(seq![s[0]] + s.drop_first() =~= s);
    }
}

/// Escaped text holds no `<`, `>` or `"`, so it cannot end an element or attribute.
pub proof fn lemma_xml_escape_no_markup(s: Seq<char>)
    ensures
        forall|i: int|
            0 <= i < xml_escape_spec(s).len() ==> #[trigger] xml_escape_spec(s)[i] != '<'
                && xml_escape_spec(s)[i] != '>' && xml_escape_spec(s)[i] != '"',
    decreases s.len(),
{
    if s.len() > 0 {
        lemma_xml_escape_no_markup(s.drop_first());
        let e = escape_char(s[0]);
        let rest = xml_escape_spec(s.drop_first());
        assert forall|i: int| 0 <= i < xml_escape_spec(s).len() implies #[trigger] xml_escape_spec(
            s,
        )[i] != '<' && xml_escape_spec(s)[i] != '>' && xml_escape_spec(s)[i] != '"' by {
            if i >= e.len() {
                assert(xml_escape_spec(s)[i] == rest[i - e.len()]);
            }
        }
    }
}

/// Whether `t` begins with one of the four entities.
pub open spec fn opens_entity(t: Seq<char>) -> bool {
    starts_with(t, amp_entity()) || starts_with(t, lt_entity()) || starts_with(t, gt_entity())
        || starts_with(t, quot_entity())
}

/// Every `&` in escaped text opens one of the four entities: no `&` of the input
/// survives bare.
pub proof fn lemma_xml_escape_amp_opens_entity(s: Seq<char>)
    ensures
        forall|i: int|
            0 <= i < xml_escape_spec(s).len() && #[trigger] xml_escape_spec(s)[i] == '&'
                ==> opens_entity(xml_escape_spec(s).skip(i)),
    decreases s.len(),
{
    if s.len() > 0 {
        lemma_xml_escape_amp_opens_entity(s.drop_first());
        let e = escape_char(s[0]);
        let rest = xml_escape_spec(s.drop_first());
        let x = xml_escape_spec(s);
        assert(x == e + rest);
        assert forall|i: int| 0 <= i < x.len() && #[trigger] x[i] == '&' implies opens_entity(
            x.skip(i),
        ) by {
            if i >= e.len() {
                assert(x[i] == rest[i - e.len()]);
                assert(x.skip(i) =~= rest.skip(i - e.len()));
            } else {
                assert(i == 0);
                assert(x.skip(0) =~= x);
                assert(x.subrange(0, e.len() as int) =~= e);
            }
        }
    }
}

/// `s` with each occurrence of `p`, found left to right without overlap, replaced
/// by `q`, as `str::replace` does for a non-empty pattern.
pub open spec fn replace_spec(s: Seq<char>, p: Seq<char>, q: Seq<char>) -> Seq<char>
    decreases s.len(),
{
    if s.len() == 0 || p.len() == 0 {
        s
    } else if starts_with(s, p) {
        q + replace_spec(s.skip(p.len() as int), p, q)
    } else {
        seq![s[0]] + replace_spec(s.drop_first(), p, q)
    }
}

/// Reading escaped text back with string replacements: `&lt;`, `&gt;`, `&quot;`
/// and then `&amp;` become `<`, `>`, `"` and `&`.
pub open spec fn xml_unescape_by_replace(t: Seq<char>) -> Seq<char> {
    replace_spec(
        replace_spec(
            replace_spec(replace_spec(t, lt_entity(), seq!['<']), gt_entity(), seq!['>']),
            quot_entity(),
            seq!['"'],
        ),
        amp_entity(),
        seq!['&'],
    )
}

/// The character that the replacement of step `k` restores: `<`, `>`, `"`, `&`.
spec fn step_char(k: int) -> char {
    if k == 0 {
        '<'
    } else if k == 1 {
        '>'
    } else if k == 2 {
        '"'
    } else {
        '&'
    }
}

/// The step at which a character's entity is replaced (4 for plain characters).
spec fn step_of(c: char) -> int {
    if c == '<' {
        0
    } else if c == '>' {
        1
    } else if c == '"' {
        2
    } else if c == '&' {
        3
    } else {
        4
    }
}

/// How `c` stands after the first `k` replacements.
spec fn staged_char(c: char, k: int) -> Seq<char> {
    if k <= step_of(c) {
        escape_char(c)
    } else {
        seq![c]
    }
}

/// How `s` stands after the first `k` replacements.
spec fn staged(s: Seq<char>, k: int) -> Seq<char>
    decreases s.len(),
{
    if s.len() == 0 {
        Seq::empty()
    } else {
        staged_char(s[0], k) + staged(s.drop_first(), k)
    }
}

proof fn lemma_staged_ends(s: Seq<char>)
    ensures
        staged(s, 0) == xml_escape_spec(s),
        staged(s, 4) == s,
    decreases s.len(),
{
    if s.len() > 0 {
        lemma_staged_ends(s.drop_first());
        assert(seq![s[0]] + s.drop_first() =~= s);
    }
}

/// A piece in which the pattern cannot start is passed over unchanged.
proof fn lemma_replace_pass(w: Seq<char>, t: Seq<char>, p: Seq<char>, q: Seq<char>)
    requires
        p.len() > 0,
        forall|j: int| 0 <= j < w.len() ==> !starts_with(#[trigger] (w + t).skip(j), p),
    ensures
        replace_spec(w + t, p, q) == w + replace_spec(t, p, q),
    decreases w.len(),
{
    if w.len() > 0 {
        let wt = w + t;
        assert(wt.skip(0) =~= wt);
        assert(wt.drop_first() =~= w.drop_first() + t);
        assert forall|j: int| 0 <= j < w.drop_first().len() implies !starts_with(
            #[trigger] (w.drop_first() + t).skip(j),
            p,
        ) by {
            assert((w.drop_first() + t).skip(j) =~= wt.skip(j + 1));
        }
        lemma_replace_pass(w.drop_first(), t, p, q);
        assert(wt[0] == w[0]);
        assert(seq![w[0]] + (w.drop_first() + replace_spec(t, p, q)) =~= w + replace_spec(t, p, q));
    }
}

/// One replacement step turns each character's stage into the next one.
proof fn lemma_replace_step(s: Seq<char>, k: int)
    requires
        0 <= k < 4,
    ensures
        replace_spec(staged(s, k), escape_char(step_char(k)), seq![step_char(k)]) == staged(
            s,
            k + 1,
        ),
    decreases s.len(),
{
    let p = escape_char(step_char(k));
    let q = seq![step_char(k)];
    if s.len() > 0 {
        lemma_replace_step(s.drop_first(), k);
        let c = s[0];
        let w = staged_char(c, k);
        let t = staged(s.drop_first(), k);
        assert(staged(s, k) == w + t);
        if step_of(c) == k {
            assert(w == p);
            assert(starts_with(w + t, p)) by {
                assert((w + t).subrange(0, p.len() as int) =~= p);
            }
            assert((w + t).skip(p.len() as int) =~= t);
            assert(staged_char(c, k + 1) == q);
        } else {
            assert(staged_char(c, k + 1) == w);
            assert forall|j: int| 0 <= j < w.len() implies !starts_with(#[trigger] (w + t).skip(j), p) by {
                let x = (w + t).skip(j);
                assert(x[0] == w[j]);
                assert(p[0] == '&');
                if w[j] == '&' {
                    assert(j == 0);
                    assert(x[1] == w[1]);
                    assert(w[1] != p[1]);
                }
            }
            lemma_replace_pass(w, t, p, q);
        }
    }
}

/// Escaping loses nothing read back the usual way either: replacing `&lt;`, `&gt;`,
/// `&quot;` and then `&amp;` in the escaped text gives the text back, with nothing
/// unescaped twice.
pub proof fn lemma_xml_escape_replace_roundtrip(s: Seq<char>)
    ensures
        xml_unescape_by_replace(xml_escape_spec(s)) == s,
{
    lemma_staged_ends(s);
    lemma_replace_step(s, 0);
    lemma_replace_step(s, 1);
    lemma_replace_step(s, 2);
    lemma_replace_step(s, 3);
}

fn push_entity(r: &mut String, c: char)
    ensures
        final(r)@ == old(r)@ + escape_char(c),
{
    if c == '&' {
        push_char(r, '&');
        push_char(r, 'a');
        push_char(r, 'm');
        push_char(r, 'p');
        push_char(r, ';');
    } else if c == '<' {
        push_char(r, '&');
        push_char(r, 'l');
        push_char(r, 't');
        push_char(r, ';');
    } else if c == '>' {
        push_char(r, '&');
        push_char(r, 'g');
        push_char(r, 't');
        push_char(r, ';');
    } else if c == '"' {
        push_char(r, '&');
        push_char(r, 'q');
        push_char(r, 'u');
        push_char(r, 'o');
        push_char(r, 't');
        push_char(r, ';');
    } else {
        push_char(r, c);
    }
    assert(final(r)@ =~= old(r)@ + escape_char(c));
}

/// `s` made safe for XML text.
pub fn xml_escape(s: &str) -> (r: String)
    ensures
        r@ == xml_escape_spec(s@),
{
    let v = chars_of(s);
    let mut r = String::new();
    let mut i: usize = 0;
    assert(s@.take(0) =~= Seq::<char>::empty());
    while i < v.len()
        invariant
            v@ == s@,
            i <= v.len(),
            r@ == xml_escape_spec(s@.take(i as int)),
        decreases v.len() - i,
    {
        proof {
            assert(s@.take(i + 1) =~= s@.take(i as int).push(v@[i as int]));
            lemma_escape_push(s@.take(i as int), v@[i as int]);
        }
        push_entity(&mut r, v[i]);
        i = i + 1;
    }
    assert(s@.take(v.len() as int) =~= s@);
    r
}

} // verus!
