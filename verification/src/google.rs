//! The book lookup's one computation: the volume query that searches by an
//! industry identifier.  The calls to the book and calendar services stay
//! outside the library.

use vstd::prelude::*;

use crate::text::push_char;

verus! {

/// The given text with every dash dropped.
pub open spec fn spec_without_dashes(s: Seq<char>) -> Seq<char>
    decreases s.len(),
{
    if s.len() == 0 {
        s
    } else if s.last() == '-' {
        spec_without_dashes(s.drop_last())
    } else {
        spec_without_dashes(s.drop_last()).push(s.last())
    }
}

/// The volume query that looks a book up by its industry identifier: the
/// identifier's dashes are dropped and the rest stands behind `isbn:`.
pub fn isbn_query(isbn: &str) -> (r: String)
    ensures
        r@ == "isbn:"@ + spec_without_dashes(isbn@),
{
    let mut r = "isbn:".to_owned();
    let n = isbn.unicode_len();
    let mut i: usize = 0;
    while i < n
        invariant
            n == isbn@.len(),
            i <= n,
            r@ == "isbn:"@ + spec_without_dashes(isbn@.take(i as int)),
        decreases n - i,
    {
        let c = isbn.get_char(i);
        if c != '-' {
            push_char(&mut r, c);
        }
        proof {
            assert(isbn@.take(i as int + 1).drop_last() =~= isbn@.take(i as int));
            assert(isbn@.take(i as int + 1).last() == isbn@[i as int]);
            assert(r@ =~= "isbn:"@ + spec_without_dashes(isbn@.take(i as int + 1)));
        }
        i += 1;
    }
    proof {
        assert(isbn@.take(n as int) =~= isbn@);
    }
    r
}

} // verus!
