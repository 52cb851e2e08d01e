//! Texts and failures: the pieces that error messages and names are made of.

use vstd::prelude::*;

use crate::fault::{IoErrorKind, IoFailure};
use crate::text::{decimal, join2, same_text};

verus! {

/// The number that a text of decimal digits stands for.
pub open spec fn number_in(text: Seq<char>) -> int
    decreases text.len(),
{
    if text.len() == 0 {
        0
    } else {
        10 * number_in(text.drop_last()) + (text.last() as int - '0' as int)
    }
}

/// Whether a text is a number as people write it: digits alone, without leading zeros.
pub open spec fn is_written_number(text: Seq<char>) -> bool {
    &&& text.len() > 0
    &&& forall|i: int| 0 <= i < text.len() ==> '0' as int <= #[trigger] text[i] as int <= '9' as int
    &&& text.len() > 1 ==> text[0] != '0'
}

/// Whether a text is the number `n` as people write it.
pub open spec fn writes(text: Seq<char>, n: int) -> bool {
    is_written_number(text) && number_in(text) == n
}

/// The decimal notation of a number is that number as people write it.
pub proof fn decimals_are_written_numbers(n: nat)
    ensures
        writes(crate::text::decimal_text(n), n as int),
        n > 0 ==> crate::text::decimal_text(n)[0] != '0',
    decreases n,
{
    let text = crate::text::decimal_text(n);
    if n < 10 {
        assert(text.drop_last() =~= Seq::empty());
        assert(number_in(text.drop_last()) == 0);
    } else {
        decimals_are_written_numbers(n / 10);
        assert(text.drop_last() =~= crate::text::decimal_text(n / 10));
    }
}

/// A number is written as people write it.
pub proof fn numbers_are_written_out(n: u64, text: String)
    requires
        call_ensures(decimal, (n,), text),
    ensures
        writes(text@, n as int),
{
    decimals_are_written_numbers(n as nat);
}

/// Two texts are joined as they are, and compared character by character.
pub proof fn texts_are_joined_and_compared(
    a: &str,
    b: &str,
    joined: String,
    same: bool,
)
    requires
        call_ensures(join2, (a, b), joined),
        call_ensures(same_text, (a, b), same),
    ensures
        joined@.len() == a@.len() + b@.len(),
        forall|i: int| 0 <= i < a@.len() ==> #[trigger] joined@[i] == a@[i],
        forall|i: int| a@.len() <= i < joined@.len() ==> #[trigger] joined@[i] == b@[i - a@.len()],
        same <==> (a@.len() == b@.len() && forall|i: int| 0 <= i < a@.len() ==> a@[i] == b@[i]),
{
    if a@.len() == b@.len() && (forall|i: int| 0 <= i < a@.len() ==> a@[i] == b@[i]) {
        assert(a@ =~= b@);
    }
}

/// A failure is of the kind, and has the text, that it was made with, and its view says both.
pub proof fn failures_say_what_they_are(kind: IoErrorKind, message: &str, failure: IoFailure)
    requires
        call_ensures(IoFailure::new, (kind, message), failure),
    ensures
        failure.kind == kind,
        failure.message@ == message@,
        failure@.kind == failure.kind,
        failure@.message == failure.message@,
{
}

/// Nothing that texts and failures are made of is out of place.
pub proof fn anything_can_be_written(n: u64, a: &str, b: &str, kind: IoErrorKind)
    ensures
        call_requires(decimal, (n,)),
        call_requires(join2, (a, b)),
        call_requires(same_text, (a, b)),
        call_requires(IoFailure::new, (kind, a)),
{
}

} // verus!
