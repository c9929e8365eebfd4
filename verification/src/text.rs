//! Text: appending characters, lower case, and hints.

use vstd::prelude::*;

verus! {

/// Specifies `String::push` of std: it appends the character.
pub assume_specification[ String::push ](text: &mut String, c: char)
    ensures
        final(text)@ == old(text)@.push(c),
;

/// The lower-case form of a text, by the rules of Unicode.
pub uninterp spec fn lowercase(text: Seq<char>) -> Seq<char>;

/// Specifies `str::to_lowercase` of std: its result is a function of the text, named
/// `lowercase`.
pub assume_specification[ str::to_lowercase ](text: &str) -> (lower: String)
    ensures
        lower@ == lowercase(text@),
;

/// The answer with every character but the spaces hidden.
pub open spec fn hint(answer: Seq<char>) -> Seq<char> {
    answer.map_values(
        |c: char|
            if c != ' ' {
                '_'
            } else {
                c
            },
    )
}

/// The answer with every character but the spaces replaced by an underscore.
pub fn make_hint(answer: &str) -> (hidden: String)
    ensures
        hidden@ == hint(answer@),
{
    let mut hidden: String = String::new();
    for c in it: answer.chars()
        invariant
            it.seq() == answer@,
            hidden@ == hint(answer@.take(it.index() as int)),
    {
        proof {
            let i = it.index() as int;
            assert(answer@.take(i + 1) == answer@.take(i).push(c));
        }
        hidden.push(
            if c != ' ' {
                '_'
            } else {
                c
            },
        );
        assert(hidden@ == hint(answer@.take(it.index() as int + 1)));
    }
    assert(answer@.take(answer@.len() as int) == answer@);
    hidden
}

/// A hint tells the length of the answer and where its spaces are, and nothing else: answers that
/// agree in these have one hint.
pub proof fn law_hint_shows_only_spaces(a: Seq<char>, b: Seq<char>)
    requires
        a.len() == b.len(),
        forall|i: int| 0 <= i < a.len() ==> (#[trigger] a[i] == ' ' <==> b[i] == ' '),
    ensures
        hint(a) == hint(b),
        hint(a).len() == a.len(),
        forall|i: int|
            0 <= i < a.len() ==> #[trigger] hint(a)[i] == if a[i] == ' ' {
                ' '
            } else {
                '_'
            },
{
    assert(hint(a) =~= hint(b));
}

} // verus!
