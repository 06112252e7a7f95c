//! The parts of the Soroban SDK that the estimator hands values to.

use soroban_sdk::{Env, Symbol};
use vstd::prelude::*;

verus! {

/// The Soroban environment that contract entry points receive.
#[verifier::external_type_specification]
#[verifier::external_body]
pub struct ExEnv(Env);

/// A Soroban symbol: a short identifier living in an environment.
#[verifier::external_type_specification]
#[verifier::external_body]
pub struct ExSymbol(Symbol);

/// The characters a symbol may hold: `a-z`, `A-Z`, `0-9` and `_`.
pub open spec fn is_symbol_char(c: char) -> bool {
    ||| 'a' <= c <= 'z'
    ||| 'A' <= c <= 'Z'
    ||| '0' <= c <= '9'
    ||| c == '_'
}

/// Text that `Symbol::new` accepts: at most 32 symbol characters.
pub open spec fn is_symbol_text(text: Seq<char>) -> bool {
    &&& text.len() <= 32
    &&& forall|i: int| 0 <= i < text.len() ==> is_symbol_char(#[trigger] text[i])
}

/// The characters that a symbol holds: a symbol is a short string, and this is
/// its text, the string that the SDK's `to_string` gives back for it.
pub uninterp spec fn symbol_chars(sym: Symbol) -> Seq<char>;

/// Calls `soroban_sdk::Symbol::new`, which turns `text` into a symbol of
/// `env` holding that text: the source stores the conversion of `text`, and
/// reading the symbol back (`to_string`) yields `text` again. Its
/// documentation says that it panics when the text is not representable as a
/// symbol (more than 32 characters, or a character outside `a-zA-Z0-9_`);
/// `requires` leaves those inputs out. Left unsaid: a symbol longer than 9
/// characters is an object that lives in `env`, and the host charges its
/// budget for it; a call on an environment whose budget is spent panics.
#[verifier::external_body]
pub(crate) fn symbol_new(env: &Env, text: &str) -> (sym: Symbol)
    requires
        is_symbol_text(text@),
    ensures
        symbol_chars(sym) == text@,
{
    Symbol::new(env, text)
}

} // verus!
