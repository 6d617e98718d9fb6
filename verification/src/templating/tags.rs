use vstd::prelude::*;
use vstd::std_specs::iter::IteratorSpec;

verus! {

/// A tag opens at place `i` of a text: two opening braces stand there.
pub open spec fn opens_tag(text: Seq<char>, i: int) -> bool {
    0 <= i && i + 1 < text.len() && text[i] == '{' && text[i + 1] == '{'
}

/// Place `at` of a text lies in a tag: a tag opens before it, and no closing brace
/// stands between the two opening braces and the place.
pub open spec fn in_tag(text: Seq<char>, at: int) -> bool {
    exists|i: int| #[trigger]
        opens_tag(text, i) && i + 2 <= at && forall|k: int| i + 2 <= k < at ==> text[k] != '}'
}

/// A text holds a partial tag: a `>` stands in one of its tags. Every tag that
/// includes another template is of this shape, with nothing but blanks, `~` and `#`
/// between the braces and the `>`. A `>` further on in a tag, as in a quoted
/// argument, counts as well.
pub open spec fn holds_partial(text: Seq<char>) -> bool {
    exists|at: int| 0 <= at < text.len() && text[at] == '>' && #[trigger] in_tag(text, at)
}

/// A place just behind a closing brace lies in no tag.
proof fn lemma_closed(text: Seq<char>, at: int)
    requires
        0 <= at < text.len(),
        text[at] == '}',
    ensures
        !in_tag(text, at + 1),
{
    if in_tag(text, at + 1) {
        let i = choose|i: int| #[trigger]
            opens_tag(text, i) && i + 2 <= at + 1 && forall|k: int|
                i + 2 <= k < at + 1 ==> text[k] != '}';
        if i + 2 <= at {
            assert(text[at] != '}');
        }
    }
}

/// A place just behind two opening braces lies in a tag.
proof fn lemma_opened(text: Seq<char>, at: int)
    requires
        1 <= at < text.len(),
        text[at - 1] == '{',
        text[at] == '{',
    ensures
        in_tag(text, at + 1),
{
    assert(opens_tag(text, at - 1));
}

/// Behind any other character a place lies in a tag exactly where the place
/// before it does.
proof fn lemma_carried(text: Seq<char>, at: int)
    requires
        0 <= at < text.len(),
        text[at] != '}',
        !(at >= 1 && text[at - 1] == '{' && text[at] == '{'),
    ensures
        in_tag(text, at + 1) == in_tag(text, at),
{
    if in_tag(text, at) {
        let i = choose|i: int| #[trigger]
            opens_tag(text, i) && i + 2 <= at && forall|k: int| i + 2 <= k < at ==> text[k] != '}';
        assert(opens_tag(text, i) && i + 2 <= at + 1 && forall|k: int|
            i + 2 <= k < at + 1 ==> text[k] != '}');
    }
    if in_tag(text, at + 1) {
        let i = choose|i: int| #[trigger]
            opens_tag(text, i) && i + 2 <= at + 1 && forall|k: int|
                i + 2 <= k < at + 1 ==> text[k] != '}';
        assert(i + 2 <= at);
        assert(opens_tag(text, i) && i + 2 <= at && forall|k: int|
            i + 2 <= k < at ==> text[k] != '}');
    }
}

/// Whether `source` holds a partial tag. The text is read once from front to back.
pub fn has_partial_tag(source: &str) -> (found: bool)
    ensures
        found == holds_partial(source@),
{
    broadcast use vstd::string::group_string_axioms;

    let mut chars = source.chars();
    let mut open = false;
    let mut brace = false;
    let ghost mut at: int = 0;
    proof {
        assert(source@.skip(0) == source@);
        assert(!in_tag(source@, 0));
    }
    loop
        invariant
            0 <= at <= source@.len(),
            chars.remaining() == source@.skip(at),
            chars.obeys_prophetic_iter_laws(),
            chars.decrease() is Some,
            open == in_tag(source@, at),
            brace == (at > 0 && source@[at - 1] == '{'),
            forall|j: int| 0 <= j < at ==> !(source@[j] == '>' && #[trigger] in_tag(source@, j)),
        decreases chars.decrease()->0,
    {
        let ghost text = source@;
        match chars.next() {
            None => {
                assert(at == text.len());
                return false;
            },
            Some(c) => {
                assert(c == text[at]);
                proof {
                    assert(text.skip(at).drop_first() == text.skip(at + 1));
                }
                if c == '>' && open {
                    return true;
                }
                proof {
                    if c == '}' {
                        lemma_closed(text, at);
                    } else if c == '{' && brace {
                        lemma_opened(text, at);
                    } else {
                        lemma_carried(text, at);
                    }
                }
                if c == '}' {
                    open = false;
                } else if c == '{' && brace {
                    open = true;
                }
                brace = c == '{';
                proof {
                    at = at + 1;
                }
            },
        }
    }
}

} // verus!
