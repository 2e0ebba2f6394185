//! A scan of pattern text for closing brackets that the engine cannot take.
//!
//! The engine reads a pattern given as one string with a small state
//! machine. While that machine reads a host name, outside `{}` groups, it
//! adds one to a count at each `[` and takes one away at each `]`. The
//! count has no sign, and taking one from zero stops the program. A host
//! name begins behind the `:` that ends the protocol, or behind an `@`.
//!
//! The scan decides from the characters alone and errs on the safe side. It
//! keeps its own count of `[` not yet closed and refuses a `]` that finds
//! the count at zero. It sets the count back to zero wherever the engine
//! may begin to count anew, or may have passed over a `[` without counting
//! it: at `@`; at `(` and `)`, since a regular expression is one token to
//! the engine; at `{` and `}`, since the engine counts nothing inside a
//! group; and, once a `{` or `}` has been seen, at `:`. Before any group a
//! `:` needs no such care: a protocol that holds a counted `[` does not
//! compile, so the engine never comes to read a host name behind it.

use vstd::prelude::*;

verus! {

/// What the scan remembers between two characters.
pub struct ScanState {
    /// Brackets opened and not yet closed since the scan last forgot.
    pub open: nat,
    /// A `{` or `}` has been seen.
    pub grouped: bool,
}

/// The state before the first character.
pub open spec fn scan_start() -> ScanState {
    ScanState { open: 0, grouped: false }
}

/// The state after one more character, or `None` where that character is a
/// `]` with no counted `[` to close.
pub open spec fn scan_step(state: ScanState, c: char) -> Option<ScanState> {
    if c == '[' {
        Some(ScanState { open: state.open + 1, grouped: state.grouped })
    } else if c == ']' {
        if state.open > 0 {
            Some(ScanState { open: (state.open - 1) as nat, grouped: state.grouped })
        } else {
            None
        }
    } else if c == '{' || c == '}' {
        Some(ScanState { open: 0, grouped: true })
    } else if c == '@' || c == '(' || c == ')' {
        Some(ScanState { open: 0, grouped: state.grouped })
    } else if c == ':' && state.grouped {
        Some(ScanState { open: 0, grouped: true })
    } else {
        Some(state)
    }
}

/// The state after all of `text`, or `None` where some `]` was refused.
pub open spec fn scan(text: Seq<char>) -> Option<ScanState>
    decreases text.len(),
{
    if text.len() == 0 {
        Some(scan_start())
    } else {
        match scan(text.drop_last()) {
            Some(state) => scan_step(state, text.last()),
            None => None,
        }
    }
}

/// Every `]` of `text` closes a counted `[`.
pub open spec fn brackets_guarded(text: Seq<char>) -> bool {
    scan(text) is Some
}

/// A text that the scan refuses stays refused however it goes on.
pub proof fn lemma_refusal_is_final(text: Seq<char>, n: int)
    requires
        0 <= n <= text.len(),
        scan(text.take(n)) is None,
    ensures
        scan(text) is None,
    decreases text.len() - n,
{
    if n == text.len() {
        assert(text.take(n) == text);
    } else {
        assert(text.take(n + 1).drop_last() == text.take(n));
        lemma_refusal_is_final(text, n + 1);
    }
}

/// A text without `]` is always accepted.
pub proof fn law_text_without_closing_bracket_is_guarded(text: Seq<char>)
    requires
        !text.contains(']'),
    ensures
        brackets_guarded(text),
    decreases text.len(),
{
    if text.len() > 0 {
        assert forall|k: int| 0 <= k < text.drop_last().len() implies text.drop_last()[k]
            != ']' by {
            assert(text.drop_last()[k] == text[k]);
            assert(text.contains(text[k]));
        }
        law_text_without_closing_bracket_is_guarded(text.drop_last());
        assert(text.contains(text.last()));
    }
}

/// Runs the scan.
pub fn is_guarded(text: &Vec<char>) -> (r: bool)
    ensures
        r == brackets_guarded(text@),
{
    let mut open: usize = 0;
    let mut grouped: bool = false;
    let mut i: usize = 0;
    assert(text@.take(0) == Seq::<char>::empty());
    while i < text.len()
        invariant
            i <= text.len(),
            open <= i,
            scan(text@.take(i as int)) == Some(ScanState { open: open as nat, grouped }),
        decreases text.len() - i,
    {
        let c: char = text[i];
        proof {
            assert(text@.take(i + 1).drop_last() == text@.take(i as int));
            assert(text@.take(i + 1).last() == c);
        }
        if c == '[' {
            open += 1;
        } else if c == ']' {
            if open == 0 {
                proof {
                    lemma_refusal_is_final(text@, i + 1);
                }
                return false;
            }
            open -= 1;
        } else if c == '{' || c == '}' {
            open = 0;
            grouped = true;
        } else if c == '@' || c == '(' || c == ')' {
            open = 0;
        } else if c == ':' && grouped {
            open = 0;
        }
        i += 1;
    }
    assert(text@.take(text@.len() as int) == text@);
    true
}

} // verus!
