//! Checks that the command-line tool makes on the arguments of `invoke`
//! before handing them to `stellar contract invoke`.
//!
//! Arguments are passed through as-is; one that is not a flag, not empty,
//! not valid JSON but starts like JSON (`{` or `[`) draws a warning.
use vstd::prelude::*;
use vstd::utf8::encode_utf8;

verus! {

/// Whether `text` is exactly one JSON value, as `serde_json` parses it.
pub uninterp spec fn parses_as_json(text: Seq<char>) -> bool;

/// Calls `serde_json::from_str::<serde_json::Value>` on `text` and reports
/// whether it succeeded. The parse is a function of the text alone; this
/// crate does not restate serde_json's grammar, and names the outcome
/// `parses_as_json`.
#[verifier::external_body]
fn is_json(text: &str) -> (r: bool)
    ensures
        r == parses_as_json(text@),
{
    serde_json::from_str::<serde_json::Value>(text).is_ok()
}

/// The byte `-`.
pub const DASH: u8 = 45;

/// The byte `{`.
pub const OPEN_BRACE: u8 = 123;

/// The byte `[`.
pub const OPEN_BRACKET: u8 = 91;

/// Whether `invoke` warns about an argument whose UTF-8 bytes are `bytes`,
/// given whether it parses as JSON: it is not a flag (does not start with
/// `-`), is not empty, does not parse, and starts with `{` or `[`.
pub open spec fn warns(bytes: Seq<u8>, parses: bool) -> bool {
    &&& bytes.len() > 0
    &&& bytes[0] != DASH
    &&& !parses
    &&& (bytes[0] == OPEN_BRACE || bytes[0] == OPEN_BRACKET)
}

/// Whether `invoke` warns about `arg`, given whether `arg` parses as JSON.
pub fn arg_warning(arg: &str, parses: bool) -> (r: bool)
    ensures
        r == warns(encode_utf8(arg@), parses),
{
    let bytes = arg.as_bytes();
    if bytes.len() == 0 || bytes[0] == DASH {
        return false;
    }
    !parses && (bytes[0] == OPEN_BRACE || bytes[0] == OPEN_BRACKET)
}

/// Whether `invoke` warns about `arg`. Every argument that is neither a
/// flag nor empty is handed to the JSON parser.
pub fn invoke_arg_needs_warning(arg: &str) -> (r: bool)
    ensures
        r == warns(encode_utf8(arg@), parses_as_json(arg@)),
{
    let bytes = arg.as_bytes();
    if bytes.len() == 0 || bytes[0] == DASH {
        return false;
    }
    let parses = is_json(arg);
    arg_warning(arg, parses)
}

/// The positions (0-based, ascending) of the method arguments of `invoke`
/// that draw a warning.
pub fn invoke_warnings(args: &Vec<String>) -> (r: Vec<usize>)
    ensures
        forall|k: int| 0 <= k < r@.len() ==> #[trigger] r@[k] < args@.len(),
        forall|k: int, l: int| 0 <= k < l < r@.len() ==> r@[k] < r@[l],
        forall|i: int|
            0 <= i < args@.len() ==> (r@.contains(i as usize) <==> warns(
                encode_utf8(#[trigger] args@[i]@),
                parses_as_json(args@[i]@),
            )),
{
    let mut r: Vec<usize> = Vec::new();
    let mut i: usize = 0;
    while i < args.len()
        invariant
            i <= args@.len(),
            forall|k: int| 0 <= k < r@.len() ==> #[trigger] r@[k] < i,
            forall|k: int, l: int| 0 <= k < l < r@.len() ==> r@[k] < r@[l],
            forall|j: int|
                0 <= j < i ==> (r@.contains(j as usize) <==> warns(
                    encode_utf8(#[trigger] args@[j]@),
                    parses_as_json(args@[j]@),
                )),
        decreases args.len() - i,
    {
        let w = invoke_arg_needs_warning(args[i].as_str());
        let ghost old_r = r@;
        if w {
            r.push(i);
            assert(r@[r@.len() - 1] == i);
        }
        assert forall|j: int| 0 <= j < i + 1 implies (r@.contains(j as usize) <==> warns(
            encode_utf8(#[trigger] args@[j]@),
            parses_as_json(args@[j]@),
        )) by {
            if j < i {
                if r@.contains(j as usize) && !old_r.contains(j as usize) {
                    let k = choose|k: int| 0 <= k < r@.len() && r@[k] == j as usize;
                    assert(k == old_r.len());
                }
                if old_r.contains(j as usize) {
                    let k = choose|k: int| 0 <= k < old_r.len() && old_r[k] == j as usize;
                    assert(r@[k] == j as usize);
                }
            } else {
                if w {
                    assert(r@[r@.len() - 1] == i);
                } else if r@.contains(i) {
                    let k = choose|k: int| 0 <= k < r@.len() && r@[k] == i;
                    assert(old_r[k] < i);
                }
            }
        }
        i = i + 1;
    }
    r
}

/// Flags, empty arguments, arguments that parse as JSON, and arguments that
/// do not start with `{` or `[` never draw a warning; an argument starting
/// with `{` or `[` that does not parse always does.
pub proof fn warning_rules(bytes: Seq<u8>, parses: bool)
    ensures
        bytes.len() == 0 ==> !warns(bytes, parses),
        bytes.len() > 0 && bytes[0] == 45 ==> !warns(bytes, parses),
        parses ==> !warns(bytes, parses),
        bytes.len() > 0 && bytes[0] != 123 && bytes[0] != 91 ==> !warns(bytes, parses),
        bytes.len() > 0 && (bytes[0] == 123 || bytes[0] == 91) && !parses ==> warns(bytes, parses),
{
}

} // verus!
