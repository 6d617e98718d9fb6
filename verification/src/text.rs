use vstd::prelude::*;

verus! {

/// A finite mapping from names to texts, as contracts speak of one.
pub type TextMap = Map<Seq<char>, Seq<char>>;

/// `str`'s `==` compares two strings by their bytes: it holds exactly when both
/// are the same sequence of characters.
pub assume_specification[ <str as PartialEq>::eq ](a: &str, b: &str) -> (r: bool)
    ensures
        r == (a@ == b@),
;

/// The lowercase form that `str::to_lowercase` gives a text.
pub uninterp spec fn lowercase(text: Seq<char>) -> Seq<char>;

/// The uppercase form that `str::to_uppercase` gives a text.
pub uninterp spec fn uppercase(text: Seq<char>) -> Seq<char>;

/// Calls `str::to_lowercase`. The result depends on the characters of `text` alone
/// (Unicode's case mapping, no locale), so it is named, not spelled out.
#[verifier::external_body]
pub(crate) fn to_lowercase(text: &str) -> (r: String)
    ensures
        r@ == lowercase(text@),
{
    text.to_lowercase()
}

/// Calls `str::to_uppercase`. The result depends on the characters of `text` alone
/// (Unicode's case mapping, no locale), so it is named, not spelled out.
#[verifier::external_body]
pub(crate) fn to_uppercase(text: &str) -> (r: String)
    ensures
        r@ == uppercase(text@),
{
    text.to_uppercase()
}

/// `first` followed by `second`.
pub fn concat2(first: &str, second: &str) -> (r: String)
    ensures
        r@ == first@ + second@,
{
    let mut out = String::from_str(first);
    out.append(second);
    out
}

/// `first` followed by `second` and then `third`.
pub fn concat3(first: &str, second: &str, third: &str) -> (r: String)
    ensures
        r@ == first@ + second@ + third@,
{
    let mut out = String::from_str(first);
    out.append(second);
    out.append(third);
    out
}

/// The texts of a list of strings.
pub open spec fn texts(strings: Seq<String>) -> Seq<Seq<char>> {
    strings.map_values(|string: String| string@)
}

/// The lines of a list with `separator` between each two of them.
pub open spec fn joined(lines: Seq<Seq<char>>, separator: Seq<char>) -> Seq<char>
    decreases lines.len(),
{
    if lines.len() == 0 {
        Seq::empty()
    } else if lines.len() == 1 {
        lines[0]
    } else {
        joined(lines.drop_last(), separator) + separator + lines.last()
    }
}

/// The lines of a list one after the other, each with a line feed behind it.
pub open spec fn lines_text(lines: Seq<Seq<char>>) -> Seq<char>
    decreases lines.len(),
{
    if lines.len() == 0 {
        Seq::empty()
    } else {
        lines_text(lines.drop_last()) + lines.last() + "\n"@
    }
}

/// The strings of `lines` with `separator` between each two of them.
pub fn join(lines: &[String], separator: &str) -> (text: String)
    ensures
        text@ == joined(texts(lines@), separator@),
{
    let mut text = String::new();
    let mut i: usize = 0;
    while i < lines.len()
        invariant
            i <= lines.len(),
            text@ == joined(texts(lines@).take(i as int), separator@),
        decreases lines.len() - i,
    {
        proof {
            let next = texts(lines@).take(i as int + 1);
            assert(next.drop_last() == texts(lines@).take(i as int));
            assert(next.last() == lines[i as int]@);
            if i > 0 {
                assert(joined(next, separator@) == text@ + separator@ + lines[i as int]@);
            } else {
                assert(joined(next, separator@) == lines[i as int]@);
                assert(text@ + lines[i as int]@ == lines[i as int]@);
            }
        }
        if i > 0 {
            text.append(separator);
        }
        text.append(lines[i].as_str());
        i = i + 1;
    }
    proof {
        assert(texts(lines@).take(lines.len() as int) == texts(lines@));
    }
    text
}

/// One or more lines joined by line feeds, with a line feed at the end, are those
/// lines each with a line feed behind it.
pub proof fn lemma_joined_lines(lines: Seq<Seq<char>>)
    requires
        lines.len() > 0,
    ensures
        joined(lines, "\n"@) + "\n"@ == lines_text(lines),
    decreases lines.len(),
{
    if lines.len() == 1 {
        assert(lines.drop_last().len() == 0);
        assert(lines_text(lines.drop_last()) == Seq::<char>::empty());
        assert(lines_text(lines) == Seq::<char>::empty() + lines.last() + "\n"@);
        assert(Seq::<char>::empty() + lines.last() == lines[0]);
    } else {
        lemma_joined_lines(lines.drop_last());
    }
}

} // verus!
