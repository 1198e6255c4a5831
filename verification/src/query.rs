//! The authorization code in the query string of the callback request.

use vstd::prelude::*;
use vstd::string::is_ascii;

verus! {

/// `qstring::QString`, a parsed query string: a list of pairs of a name
/// and a value. Nothing inside it is visible here.
#[verifier::external_type_specification]
#[verifier::external_body]
pub struct ExQString(qstring::QString);

/// The pairs that a `qstring::QString` holds, in order. A parameter
/// without a value stands here with the empty value.
pub uninterp spec fn query_pairs(parsed: qstring::QString) -> Seq<(Seq<char>, Seq<char>)>;

/// The pairs that `QString::from` reads out of a query string: the text is
/// cut at `&` and `=`, and names and values are percent-decoded.
pub uninterp spec fn parsed_pairs(query: Seq<char>) -> Seq<(Seq<char>, Seq<char>)>;

/// The value of the first pair with the given name.
pub open spec fn first_value(pairs: Seq<(Seq<char>, Seq<char>)>, name: Seq<char>) -> Option<
    Seq<char>,
>
    decreases pairs.len(),
{
    if pairs.len() == 0 {
        None
    } else if pairs[0].0 == name {
        Some(pairs[0].1)
    } else {
        first_value(pairs.subrange(1, pairs.len() as int), name)
    }
}

/// The authorization code that a query string carries, if any.
pub open spec fn code_of(query: Seq<char>) -> Option<Seq<char>> {
    first_value(parsed_pairs(query), "code"@)
}

/// Calls `QString::from` on a query string. The contract names the pairs
/// that come out. The parser cuts the text at byte offsets and stops the
/// program where such a cut falls inside a character, so the text must be
/// ASCII, as the query of a request line is.
#[verifier::external_body]
fn parse_query(query: &str) -> (parsed: qstring::QString)
    requires
        is_ascii(query),
    ensures
        query_pairs(parsed) == parsed_pairs(query@),
{
    qstring::QString::from(query)
}

/// Calls `QString::get`: the value of the first pair whose name is `name`,
/// the empty text where that pair has no value, and `None` where no pair
/// has the name.
#[verifier::external_body]
fn get_param(parsed: &qstring::QString, name: &str) -> (value: Option<String>)
    ensures
        value.deep_view() == first_value(query_pairs(*parsed), name@),
{
    parsed.get(name).map(str::to_owned)
}

/// Reads the authorization code out of the query string of a request.
pub fn code_param(query: &str) -> (code: Option<String>)
    requires
        is_ascii(query),
    ensures
        code.deep_view() == code_of(query@),
{
    let parsed = parse_query(query);
    get_param(&parsed, "code")
}

} // verus!
