//! Conversion of a value to and from its console text.

use vstd::prelude::*;
use vstd::string::*;
use crate::decimal::{decimal_i32, decimal_text, text_reads_back_i32};
use crate::error::{ConVarError, ErrorModel};

verus! {

/// A type whose values can be written on the console and read back from it.
///
/// The two spec functions say what is read and written. Every implementation
/// states its own; the bodies given here fix nothing.
pub trait ConVarType: Sized {
    /// What reading `text` gives: the value, or the reason why there is none.
    open spec fn parsed(text: Seq<char>) -> Result<Self, ErrorModel> {
        arbitrary()
    }

    /// The console text of this value.
    open spec fn formatted(&self) -> Seq<char> {
        arbitrary()
    }

    /// Reads a value from its console text.
    fn from_convar_str(value: &str) -> (r: Result<Self, ConVarError>)
        ensures
            outcome(r) == Self::parsed(value@),
    ;

    /// Writes a value as console text. This never fails.
    fn to_convar_str(&self) -> (r: String)
        ensures
            r@ == self.formatted(),
    ;
}

/// A conversion's result with its error taken by its view.
pub open spec fn outcome<T>(r: Result<T, ConVarError>) -> Result<T, ErrorModel> {
    match r {
        Ok(v) => Ok(v),
        Err(e) => Err(e@),
    }
}

/// The message of the error that `str::parse::<i32>` reports for a text that
/// it does not read.
pub uninterp spec fn i32_parse_message(text: Seq<char>) -> Seq<char>;

/// Calls `str::parse::<i32>` and, where it fails, `ParseIntError::to_string`.
/// std reads an optional sign followed by decimal digits, and fails on any
/// other text and on a number that does not fit. Of the error the contract
/// only names the message.
#[verifier::external_body]
fn parse_i32(value: &str) -> (r: Result<i32, String>)
    ensures
        match r {
            Ok(v) => decimal_i32(value@) == Some(v),
            Err(msg) => decimal_i32(value@) is None && msg@ == i32_parse_message(value@),
        },
{
    match value.parse::<i32>() {
        Ok(v) => Ok(v),
        Err(e) => Err(e.to_string()),
    }
}

/// Calls `i32::to_string`, which writes a number in decimal, with a minus
/// sign where it is negative.
#[verifier::external_body]
fn format_i32(v: i32) -> (r: String)
    ensures
        r@ == decimal_text(v as int),
{
    v.to_string()
}

impl ConVarType for i32 {
    open spec fn parsed(text: Seq<char>) -> Result<i32, ErrorModel> {
        match decimal_i32(text) {
            Some(v) => Ok(v),
            None => Err(ErrorModel::ParseError(i32_parse_message(text))),
        }
    }

    open spec fn formatted(&self) -> Seq<char> {
        decimal_text(*self as int)
    }

    fn from_convar_str(value: &str) -> (r: Result<i32, ConVarError>) {
        match parse_i32(value) {
            Ok(v) => Ok(v),
            Err(msg) => Err(ConVarError::ParseError(msg)),
        }
    }

    fn to_convar_str(&self) -> (r: String) {
        format_i32(*self)
    }
}

/// A letter of `A` to `Z` as its small letter; any other character as it is.
pub open spec fn lower(c: char) -> char {
    if 'A' <= c && c <= 'Z' {
        ((c as u8) + 32) as char
    } else {
        c
    }
}

/// A text with each of its characters taken through `lower`.
pub open spec fn lowered(text: Seq<char>) -> Seq<char> {
    Seq::new(text.len(), |i: int| lower(text[i]))
}

/// The texts that stand for `true`, in small letters.
pub open spec fn is_true_token(token: Seq<char>) -> bool {
    ||| token == "true"@
    ||| token == "t"@
    ||| token == "1"@
    ||| token == "y"@
    ||| token == "yes"@
    ||| token == "on"@
}

/// The texts that stand for `false`, in small letters.
pub open spec fn is_false_token(token: Seq<char>) -> bool {
    ||| token == "false"@
    ||| token == "f"@
    ||| token == "0"@
    ||| token == "n"@
    ||| token == "no"@
    ||| token == "off"@
}

/// The message for a text that is neither kind of token.
pub open spec fn invalid_boolean(text: Seq<char>) -> Seq<char> {
    "invalid boolean representation: "@ + text
}

/// One character through `lower`.
fn lower_char(c: char) -> (r: char)
    ensures
        r == lower(c),
{
    if 'A' <= c && c <= 'Z' {
        ((c as u8) + 32) as char
    } else {
        c
    }
}

/// Whether `value`, with its letters made small, is `token`.
pub fn matches_token(value: &str, token: &str) -> (r: bool)
    ensures
        r == (lowered(value@) == token@),
{
    let n: usize = value.unicode_len();
    if n != token.unicode_len() {
        return false;
    }
    let mut i: usize = 0;
    while i < n
        invariant
            i <= n,
            n == value@.len(),
            n == token@.len(),
            forall|j: int| 0 <= j < i ==> lower(#[trigger] value@[j]) == token@[j],
        decreases n - i,
    {
        if lower_char(value.get_char(i)) != token.get_char(i) {
            assert(lowered(value@)[i as int] != token@[i as int]);
            return false;
        }
        i += 1;
    }
    assert(lowered(value@) =~= token@);
    true
}

impl ConVarType for bool {
    open spec fn parsed(text: Seq<char>) -> Result<bool, ErrorModel> {
        if is_true_token(lowered(text)) {
            Ok(true)
        } else if is_false_token(lowered(text)) {
            Ok(false)
        } else {
            Err(ErrorModel::ParseError(invalid_boolean(text)))
        }
    }

    open spec fn formatted(&self) -> Seq<char> {
        if *self {
            "true"@
        } else {
            "false"@
        }
    }

    fn from_convar_str(value: &str) -> (r: Result<bool, ConVarError>) {
        if matches_token(value, "true") || matches_token(value, "t") || matches_token(value, "1")
            || matches_token(value, "y") || matches_token(value, "yes") || matches_token(
            value,
            "on",
        ) {
            Ok(true)
        } else if matches_token(value, "false") || matches_token(value, "f") || matches_token(
            value,
            "0",
        ) || matches_token(value, "n") || matches_token(value, "no") || matches_token(
            value,
            "off",
        ) {
            Ok(false)
        } else {
            let mut msg = String::from_str("invalid boolean representation: ");
            msg.append(value);
            Err(ConVarError::ParseError(msg))
        }
    }

    fn to_convar_str(&self) -> (r: String) {
        if *self {
            String::from_str("true")
        } else {
            String::from_str("false")
        }
    }
}

/// A reading that gives `v`.
pub open spec fn value_ok<T>(v: T) -> Result<T, ErrorModel> {
    Ok(v)
}

/// Whether the text of a value is read as that value.
pub open spec fn reads_back<T: ConVarType>(v: T) -> bool {
    T::parsed(v.formatted()) == value_ok(v)
}

/// No text stands for both `true` and `false`.
pub proof fn boolean_tokens_are_disjoint(token: Seq<char>)
    ensures
        !(is_true_token(token) && is_false_token(token)),
{
    reveal_strlit("true");
    reveal_strlit("t");
    reveal_strlit("1");
    reveal_strlit("y");
    reveal_strlit("yes");
    reveal_strlit("on");
    reveal_strlit("false");
    reveal_strlit("f");
    reveal_strlit("0");
    reveal_strlit("n");
    reveal_strlit("no");
    reveal_strlit("off");
    // A token for `true` begins with `t`, `1`, `y` or `o`, one for `false`
    // with `f`, `0`, `n` or `o`; `on` and `off` differ in length.
    if is_true_token(token) {
        assert(token[0] == 't' || token[0] == '1' || token[0] == 'y' || token.len() == 2);
    }
    if is_false_token(token) {
        assert(token[0] == 'f' || token[0] == '0' || token[0] == 'n' || token.len() == 3);
    }
}

/// A text is read as `true` exactly where its small letters spell one of the
/// six tokens for `true`, as `false` exactly where they spell one of the six
/// for `false`, and is refused otherwise, whatever the case of its letters.
pub proof fn boolean_reading(text: Seq<char>)
    ensures
        is_true_token(lowered(text)) <==> <bool as ConVarType>::parsed(text) == value_ok(true),
        is_false_token(lowered(text)) <==> <bool as ConVarType>::parsed(text) == value_ok(false),
        !is_true_token(lowered(text)) && !is_false_token(lowered(text))
            <==> <bool as ConVarType>::parsed(text) is Err,
{
    boolean_tokens_are_disjoint(lowered(text));
}

/// The text of a boolean is read as that boolean.
pub proof fn boolean_reads_back(v: bool)
    ensures
        reads_back(v),
{
    reveal_strlit("true");
    reveal_strlit("false");
    assert(lowered("true"@) =~= "true"@);
    assert(lowered("false"@) =~= "false"@);
    boolean_tokens_are_disjoint("false"@);
}

/// The text of an integer is read as that integer.
pub proof fn integer_reads_back(v: i32)
    ensures
        reads_back(v),
{
    text_reads_back_i32(v);
}

} // verus!
