//! Validation of command-line values.

use crate::api::api_utils::labels_well_formed;
use crate::utils::text::{chars_of, find_char, joined, lemma_split_next, pieces_before, split};
use vstd::prelude::*;

verus! {

/// The message for an empty label text.
pub open spec fn empty_labels_message() -> Seq<char> {
    "labels if provided should not be empty"@
}

/// The message for a label text with a segment that holds no colon.
pub open spec fn invalid_labels_message(input: Seq<char>) -> Seq<char> {
    "Invalid input "@ + input + " Labels must be of format key1:value1,key2:value2"@
}

/// Accepts a label text when it is not empty and each of its comma-separated
/// segments holds a colon, and hands it back; otherwise says what is wrong.
pub fn validate_label(string: &str) -> (r: Result<String, String>)
    ensures
        match r {
            Ok(text) => string@.len() > 0 && labels_well_formed(string@) && text@ == string@,
            Err(message) => if string@.len() == 0 {
                message@ == empty_labels_message()
            } else {
                !labels_well_formed(string@) && message@ == invalid_labels_message(string@)
            },
        },
{
    let chars = chars_of(string);
    let n = chars.len();
    if n == 0 {
        return Err(String::from_str("labels if provided should not be empty"));
    }
    let mut valid = true;
    let mut start: usize = 0;
    let mut done = false;
    while !done
        invariant
            chars@ == string@,
            n == chars@.len(),
            start <= n,
            !done && start > 0 ==> chars@[start - 1] == ',',
            !done ==> (valid <==> forall|k: int|
                0 <= k < pieces_before(chars@, ',', start as int).len() ==> (#[trigger] pieces_before(
                    chars@,
                    ',',
                    start as int,
                )[k]).contains(':')),
            done ==> (valid <==> labels_well_formed(chars@)),
        decreases n - start + (if done { 0int } else { 1int }),
    {
        let comma = find_char(&chars, start, n, ',');
        let colon = find_char(&chars, start, comma, ':');
        proof {
            let before = pieces_before(chars@, ',', start as int);
            let segment = chars@.subrange(start as int, comma as int);
            let upto = split(chars@.take(comma as int), ',');
            lemma_split_next(chars@, ',', start as int, comma as int);
            assert(upto == before.push(segment));
            if colon < comma {
                assert(segment[colon - start] == ':');
            } else {
                assert(!segment.contains(':'));
                assert(upto[before.len() as int] == segment);
            }
            assert forall|k: int| 0 <= k < before.len() implies upto[k] == before[k] by {}
            assert((valid && colon < comma) <==> forall|k: int|
                0 <= k < upto.len() ==> (#[trigger] upto[k]).contains(':'));
        }
        if colon == comma {
            valid = false;
        }
        if comma == n {
            assert(chars@.take(n as int) =~= chars@);
            done = true;
        } else {
            start = comma + 1;
        }
    }
    if valid {
        Ok(String::from_str(string))
    } else {
        let head = joined("Invalid input ", string);
        Err(joined(head.as_str(), " Labels must be of format key1:value1,key2:value2"))
    }
}

} // verus!
