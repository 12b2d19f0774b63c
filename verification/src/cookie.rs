use crate::text::{
    chars_of, names_attribute, starts_with_lowered, string_of, trimmed_start,
};
use vstd::prelude::*;
use vstd::slice::slice_subrange;

verus! {

/// The pieces of `s` between the separators `sep`, in order. A text without a
/// separator is one piece, and so is the empty text.
pub open spec fn split(s: Seq<char>, sep: char) -> Seq<Seq<char>>
    decreases s.len(),
{
    if s.len() == 0 {
        seq![Seq::empty()]
    } else {
        let head = split(s.drop_last(), sep);
        if s.last() == sep {
            head.push(Seq::empty())
        } else {
            head.update(head.len() - 1, head.last().push(s.last()))
        }
    }
}

/// The pieces `parts`, in order, with `sep` between each two of them.
pub open spec fn join(parts: Seq<Seq<char>>, sep: Seq<char>) -> Seq<char>
    decreases parts.len(),
{
    if parts.len() == 0 {
        Seq::empty()
    } else if parts.len() == 1 {
        parts[0]
    } else {
        join(parts.drop_last(), sep) + sep + parts.last()
    }
}

/// The name of the attribute that ties a cookie to a host, with its `=`.
pub open spec fn domain_attribute() -> Seq<char> {
    "domain="@
}

/// Whether the piece `part` of a cookie is its domain attribute: after leading
/// white space it begins with `domain=`, in any mix of capitals and small
/// letters. What follows the `=` does not count.
pub open spec fn names_domain(part: Seq<char>) -> bool {
    starts_with_lowered(trimmed_start(part), domain_attribute())
}

/// The test that a piece of a cookie passes when it stays.
pub open spec fn stays() -> spec_fn(Seq<char>) -> bool {
    |part: Seq<char>| !names_domain(part)
}

/// The cookie `value` without its domain attributes: the pieces between `;`
/// that do not name the domain, in their order, joined by `;` again.
pub open spec fn without_domain(value: Seq<char>) -> Seq<char> {
    join(split(value, ';').filter(stays()), seq![';'])
}

/// Splitting never gives an empty list of pieces.
pub proof fn lemma_split_nonempty(s: Seq<char>, sep: char)
    ensures
        split(s, sep).len() >= 1,
    decreases s.len(),
{
    if s.len() > 0 {
        lemma_split_nonempty(s.drop_last(), sep);
    }
}

/// Joining the pieces of a text with the separator gives the text back.
pub proof fn lemma_join_split(s: Seq<char>, sep: char)
    ensures
        join(split(s, sep), seq![sep]) == s,
    decreases s.len(),
{
    if s.len() == 0 {
        assert(join(split(s, sep), seq![sep]) =~= s);
    } else {
        let head = split(s.drop_last(), sep);
        lemma_split_nonempty(s.drop_last(), sep);
        lemma_join_split(s.drop_last(), sep);
        if s.last() == sep {
            assert(head.push(Seq::empty()).drop_last() =~= head);
            assert(join(head, seq![sep]) + seq![sep] + Seq::<char>::empty() =~= s);
        } else {
            let tail = head.last().push(s.last());
            let all = head.update(head.len() - 1, tail);
            if head.len() == 1 {
                assert(join(all, seq![sep]) =~= s);
            } else {
                assert(all.drop_last() =~= head.drop_last());
                assert(join(head.drop_last(), seq![sep]) + seq![sep] + tail =~= (join(
                    head.drop_last(),
                    seq![sep],
                ) + seq![sep] + head.last()).push(s.last()));
                assert(s =~= s.drop_last().push(s.last()));
            }
        }
    }
}

/// Pieces that all pass a test are all kept by it.
proof fn lemma_filter_keeps_all(parts: Seq<Seq<char>>, test: spec_fn(Seq<char>) -> bool)
    requires
        forall|k: int| 0 <= k < parts.len() ==> test(#[trigger] parts[k]),
    ensures
        parts.filter(test) == parts,
    decreases parts.len(),
{
    reveal(Seq::filter);
    if parts.len() > 0 {
        let head = parts.drop_last();
        assert forall|k: int| 0 <= k < head.len() implies test(#[trigger] head[k]) by {
            assert(head[k] == parts[k]);
        }
        lemma_filter_keeps_all(head, test);
        assert(head.push(parts.last()) =~= parts);
    }
}

/// A cookie none of whose pieces is a domain attribute is left as it is.
pub proof fn lemma_without_domain_keeps_other_cookies(value: Seq<char>)
    requires
        forall|k: int|
            0 <= k < split(value, ';').len() ==> !names_domain(#[trigger] split(value, ';')[k]),
    ensures
        without_domain(value) == value,
{
    lemma_filter_keeps_all(split(value, ';'), stays());
    lemma_join_split(value, ';');
}

/// The cookie `value` without its domain attributes.
pub fn strip_domain_chars(value: &[char]) -> (out: Vec<char>)
    ensures
        out@ == without_domain(value@),
{
    let name = chars_of("domain=");
    let mut out: Vec<char> = Vec::new();
    let mut any = false;
    let mut start: usize = 0;
    let mut i: usize = 0;
    let ghost mut done: Seq<Seq<char>> = Seq::empty();
    proof {
        assert(value@.take(0) =~= Seq::<char>::empty());
        assert(seq![Seq::<char>::empty()] =~= done.push(value@.subrange(0, 0)));
        reveal(Seq::filter);
    }
    while i < value.len()
        invariant
            start <= i <= value.len(),
            name@ == domain_attribute(),
            split(value@.take(i as int), ';') == done.push(
                value@.subrange(start as int, i as int),
            ),
            out@ == join(done.filter(stays()), seq![';']),
            any == (done.filter(stays()).len() > 0),
        decreases value.len() - i,
    {
        proof {
            let t = value@.take(i + 1);
            assert(t.drop_last() =~= value@.take(i as int));
            assert(t.last() == value@[i as int]);
            let head = done.push(value@.subrange(start as int, i as int));
            if value@[i as int] != ';' {
                assert(value@.subrange(start as int, i as int).push(value@[i as int])
                    =~= value@.subrange(start as int, i + 1));
                assert(head.update(head.len() - 1, head.last().push(value@[i as int]))
                    =~= done.push(value@.subrange(start as int, i + 1)));
            } else {
                assert(value@.subrange(i + 1, i + 1) =~= Seq::<char>::empty());
            }
        }
        if value[i] == ';' {
            let part = slice_subrange(value, start, i);
            let keep = !names_attribute(part, name.as_slice());
            proof {
                done.lemma_filter_push(part@, stays());
                let kept = done.filter(stays());
                if keep {
                    assert(kept.push(part@).drop_last() =~= kept);
                }
            }
            if keep {
                if any {
                    out.push(';');
                }
                out.extend_from_slice(part);
                any = true;
            }
            proof {
                if keep {
                    let kept = done.filter(stays());
                    if kept.len() > 0 {
                        assert(out@ =~= join(kept, seq![';']) + seq![';'] + part@);
                    } else {
                        assert(out@ =~= part@);
                    }
                }
                done = done.push(part@);
            }
            start = i + 1;
        }
        i += 1;
    }
    let part = slice_subrange(value, start, i);
    let keep = !names_attribute(part, name.as_slice());
    proof {
        assert(value@.take(i as int) =~= value@);
        done.lemma_filter_push(part@, stays());
        let kept = done.filter(stays());
        if keep {
            assert(kept.push(part@).drop_last() =~= kept);
        }
    }
    if keep {
        if any {
            out.push(';');
        }
        out.extend_from_slice(part);
    }
    proof {
        if keep {
            let kept = done.filter(stays());
            if kept.len() > 0 {
                assert(out@ =~= join(kept, seq![';']) + seq![';'] + part@);
            } else {
                assert(out@ =~= part@);
            }
        }
    }
    out
}

/// The `set-cookie` value `value` without its domain attributes, so that the
/// browser ties the cookie to the host it asked.
pub fn strip_domain(value: &str) -> (out: String)
    ensures
        out@ == without_domain(value@),
{
    let chars = chars_of(value);
    let kept = strip_domain_chars(chars.as_slice());
    string_of(kept.as_slice())
}

} // verus!
