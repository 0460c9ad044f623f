//! Helpers that turn command-line text into request fields.

use crate::api::encoding::{base64_len, base64_text, encode_standard};
use crate::api::labels::{pairs_map, Labels};
use crate::utils::text::{
    chars_of, find_char, first_index, lemma_first_index_is, lemma_last_index_is, lemma_split,
    lemma_split_next, pieces_before, slice_of, split,
};
use vstd::prelude::*;
use vstd::utf8::encode_utf8;

verus! {

/// The key and the value of one label: the text before the first colon and
/// the text after it. A segment without a colon is a key with an empty
/// value.
pub open spec fn label_pair(segment: Seq<char>) -> (Seq<char>, Seq<char>) {
    let at = first_index(segment, ':');
    if at < segment.len() {
        (segment.take(at), segment.skip(at + 1))
    } else {
        (segment, Seq::empty())
    }
}

/// The label of each segment, in order.
pub open spec fn label_pairs(segments: Seq<Seq<char>>) -> Seq<(Seq<char>, Seq<char>)> {
    Seq::new(segments.len(), |i: int| label_pair(segments[i]))
}

/// The mapping that a label text denotes: its comma-separated segments, each
/// split at its first colon, a later key replacing an equal earlier one.
pub open spec fn parsed_labels(s: Seq<char>) -> Map<Seq<char>, Seq<char>> {
    pairs_map(label_pairs(split(s, ',')))
}

/// Whether every comma-separated segment of `s` holds a colon.
pub open spec fn labels_well_formed(s: Seq<char>) -> bool {
    forall|k: int| 0 <= k < split(s, ',').len() ==> (#[trigger] split(s, ',')[k]).contains(':')
}

/// Parses a label text of the form `key1:value1,key2:value2`.
pub fn string_to_hashmap(string: String) -> (labels: Labels)
    requires
        labels_well_formed(string@),
    ensures
        labels.wf(),
        labels@ == parsed_labels(string@),
{
    let text = string.as_str();
    let chars = chars_of(text);
    let n = chars.len();
    let mut labels = Labels::new();
    let mut start: usize = 0;
    let mut done = false;
    proof {
        assert(label_pairs(pieces_before(chars@, ',', 0)) =~= Seq::empty());
    }
    while !done
        invariant
            chars@ == text@,
            n == chars@.len(),
            start <= n,
            !done && start > 0 ==> chars@[start - 1] == ',',
            labels.wf(),
            !done ==> labels@ == pairs_map(label_pairs(pieces_before(chars@, ',', start as int))),
            done ==> labels@ == parsed_labels(chars@),
        decreases n - start + (if done { 0int } else { 1int }),
    {
        let comma = find_char(&chars, start, n, ',');
        let colon = find_char(&chars, start, comma, ':');
        let key = slice_of(text, start, colon);
        let value = if colon < comma {
            slice_of(text, colon + 1, comma)
        } else {
            String::new()
        };
        proof {
            let before = pieces_before(chars@, ',', start as int);
            let segment = chars@.subrange(start as int, comma as int);
            lemma_split_next(chars@, ',', start as int, comma as int);
            assert(segment.take(colon - start) =~= chars@.subrange(start as int, colon as int));
            if colon < comma {
                assert(segment.skip(colon - start + 1) =~= chars@.subrange(
                    colon + 1,
                    comma as int,
                ));
            }
            assert(label_pair(segment) == (key@, value@));
            let pairs = label_pairs(before.push(segment));
            assert(pairs.drop_last() =~= label_pairs(before));
            assert(pairs.last() == (key@, value@));
            assert(pairs_map(pairs) == pairs_map(pairs.drop_last()).insert(key@, value@));
        }
        labels.insert(key, value);
        if comma == n {
            assert(chars@.take(n as int) =~= chars@);
            done = true;
        } else {
            start = comma + 1;
        }
    }
    labels
}

/// The text of a list of labels: each as `key:value`, joined by commas.
pub open spec fn label_text(pairs: Seq<(Seq<char>, Seq<char>)>) -> Seq<char>
    decreases pairs.len(),
{
    if pairs.len() == 0 {
        Seq::empty()
    } else if pairs.len() == 1 {
        pairs[0].0 + seq![':'] + pairs[0].1
    } else {
        label_text(pairs.drop_last()) + seq![','] + (pairs.last().0 + seq![':'] + pairs.last().1)
    }
}

/// Whether a label can be written as `key:value` and read back: its key
/// holds neither separator and its value holds no comma.
pub open spec fn plain_label(pair: (Seq<char>, Seq<char>)) -> bool {
    !pair.0.contains(',') && !pair.0.contains(':') && !pair.1.contains(',')
}

/// The segments of the text of plain labels are the labels written out, one
/// segment each.
proof fn lemma_split_label_text(pairs: Seq<(Seq<char>, Seq<char>)>)
    requires
        pairs.len() > 0,
        forall|i: int| 0 <= i < pairs.len() ==> plain_label(#[trigger] pairs[i]),
    ensures
        split(label_text(pairs), ',').len() == pairs.len(),
        forall|i: int|
            0 <= i < pairs.len() ==> #[trigger] split(label_text(pairs), ',')[i] == pairs[i].0
                + seq![':'] + pairs[i].1,
    decreases pairs.len(),
{
    let last = pairs.last();
    let item = last.0 + seq![':'] + last.1;
    assert(plain_label(pairs[pairs.len() - 1]));
    assert forall|j: int| 0 <= j < item.len() implies item[j] != ',' by {
        if j < last.0.len() {
            assert(last.0[j] == item[j]);
        } else if j > last.0.len() {
            assert(last.1[j - last.0.len() - 1] == item[j]);
        }
    }
    let text = label_text(pairs);
    if pairs.len() == 1 {
        assert(text == item);
        lemma_last_index_is(text, ',', -1);
    } else {
        let head = pairs.drop_last();
        let at = label_text(head).len() as int;
        assert(text == label_text(head) + seq![','] + item);
        assert forall|j: int| at < j < text.len() implies text[j] != ',' by {
            assert(text[j] == item[j - at - 1]);
        }
        lemma_last_index_is(text, ',', at);
        assert(text.take(at) =~= label_text(head));
        assert(text.skip(at + 1) =~= item);
        assert forall|i: int| 0 <= i < head.len() implies plain_label(#[trigger] head[i]) by {
            assert(head[i] == pairs[i]);
        }
        lemma_split_label_text(head);
        assert forall|i: int| 0 <= i < pairs.len() implies #[trigger] split(text, ',')[i]
            == pairs[i].0 + seq![':'] + pairs[i].1 by {
            if i < head.len() {
                assert(split(text, ',')[i] == split(label_text(head), ',')[i]);
                assert(head[i] == pairs[i]);
            }
        }
    }
}

/// Labels written as `k1:v1,k2:v2,...` pass validation and parse back to
/// the mapping of those labels, provided no key holds a separator and no
/// value holds a comma.
pub proof fn lemma_label_text_parses_back(pairs: Seq<(Seq<char>, Seq<char>)>)
    requires
        pairs.len() > 0,
        forall|i: int| 0 <= i < pairs.len() ==> plain_label(#[trigger] pairs[i]),
    ensures
        labels_well_formed(label_text(pairs)),
        parsed_labels(label_text(pairs)) == pairs_map(pairs),
{
    let segments = split(label_text(pairs), ',');
    lemma_split_label_text(pairs);
    assert forall|i: int| 0 <= i < pairs.len() implies (#[trigger] segments[i]).contains(':')
        && label_pair(segments[i]) == pairs[i] by {
        let pair = pairs[i];
        let item = pair.0 + seq![':'] + pair.1;
        let at = pair.0.len() as int;
        assert(segments[i] == item);
        assert(item[at] == ':');
        assert(plain_label(pair));
        assert forall|j: int| 0 <= j < at implies item[j] != ':' by {
            assert(item[j] == pair.0[j]);
        }
        lemma_first_index_is(item, ':', at);
        assert(item.take(at) =~= pair.0);
        assert(item.skip(at + 1) =~= pair.1);
    }
    assert(label_pairs(segments) =~= pairs);
}

/// The text `k1:v1,k2:v2` parses to the mapping of `k1` to `v1` and `k2` to
/// `v2`.
pub proof fn lemma_two_labels_parse(k1: Seq<char>, v1: Seq<char>, k2: Seq<char>, v2: Seq<char>)
    requires
        plain_label((k1, v1)),
        plain_label((k2, v2)),
    ensures
        parsed_labels(k1 + seq![':'] + v1 + seq![','] + (k2 + seq![':'] + v2)) == Map::<
            Seq<char>,
            Seq<char>,
        >::empty().insert(k1, v1).insert(k2, v2),
{
    let pairs = seq![(k1, v1), (k2, v2)];
    let head = pairs.drop_last();
    assert(head =~= seq![(k1, v1)]);
    assert(label_text(head) == k1 + seq![':'] + v1);
    assert(label_text(pairs) == label_text(head) + seq![','] + (k2 + seq![':'] + v2));
    lemma_label_text_parses_back(pairs);
    assert(pairs_map(pairs) == pairs_map(head).insert(k2, v2));
    assert(pairs_map(head) == pairs_map(head.drop_last()).insert(k1, v1));
    assert(pairs_map(head.drop_last()) == Map::<Seq<char>, Seq<char>>::empty());
}


/// The base64 text of the UTF-8 bytes of `input`.
pub fn string_to_base64(input: String) -> (text: String)
    requires
        base64_len(encode_utf8(input@).len()) <= usize::MAX,
    ensures
        text@ == base64_text(encode_utf8(input@)),
{
    encode_standard(input.as_str().as_bytes())
}


/// The last of `segments` that names something: empty segments and `.` are
/// passed over from the end, and `..` names nothing.
pub open spec fn last_component(segments: Seq<Seq<char>>) -> Option<Seq<char>>
    decreases segments.len(),
{
    if segments.len() == 0 {
        None
    } else if segments.last().len() == 0 || segments.last() == seq!['.'] {
        last_component(segments.drop_last())
    } else if segments.last() == seq!['.', '.'] {
        None
    } else {
        Some(segments.last())
    }
}

/// The file name of a path whose components are separated by `/`: its last
/// component, trailing separators and `.` components aside. A path that
/// ends in `..`, or that has no component at all, has none.
pub open spec fn file_name(path: Seq<char>) -> Option<Seq<char>> {
    last_component(split(path, '/'))
}

/// The last component, if there is one, is one of the segments, and it is
/// neither empty nor `.` nor `..`.
pub proof fn lemma_last_component(segments: Seq<Seq<char>>)
    ensures
        last_component(segments) matches Some(name) ==> {
            &&& segments.contains(name)
            &&& name.len() > 0
            &&& name != seq!['.']
            &&& name != seq!['.', '.']
        },
    decreases segments.len(),
{
    if segments.len() > 0 {
        let head = segments.drop_last();
        lemma_last_component(head);
        if last_component(segments) is Some {
            let name = last_component(segments)->0;
            if segments.last().len() == 0 || segments.last() == seq!['.'] {
                let k = choose|k: int| 0 <= k < head.len() && head[k] == name;
                assert(segments[k] == name);
            } else {
                assert(segments[segments.len() - 1] == name);
            }
        }
    }
}

/// A file name is a piece of the path between separators: it holds no `/`,
/// is not empty, and is neither `.` nor `..`.
pub proof fn lemma_file_name(path: Seq<char>)
    ensures
        file_name(path) matches Some(name) ==> {
            &&& !name.contains('/')
            &&& name.len() > 0
            &&& name != seq!['.']
            &&& name != seq!['.', '.']
        },
{
    lemma_last_component(split(path, '/'));
    lemma_split(path, '/');
    if file_name(path) is Some {
        let name = file_name(path)->0;
        let k = choose|k: int| 0 <= k < split(path, '/').len() && split(path, '/')[k] == name;
        assert(!split(path, '/')[k].contains('/'));
    }
}

/// The file name of a `/`-separated path, if it has one.
pub fn get_filename_from_path(file_path: &str) -> (name: Option<&str>)
    ensures
        match name {
            Some(text) => file_name(file_path@) == Some(text@),
            None => file_name(file_path@) is None,
        },
{
    let chars = chars_of(file_path);
    let mut end = chars.len();
    assert(chars@.take(end as int) =~= chars@);
    loop
        invariant
            chars@ == file_path@,
            end <= chars@.len(),
            end < chars@.len() ==> chars@[end as int] == '/',
            file_name(chars@) == last_component(split(chars@.take(end as int), '/')),
        decreases end,
    {
        let mut start = end;
        while start > 0 && chars[start - 1] != '/'
            invariant
                start <= end <= chars@.len(),
                forall|j: int| start <= j < end ==> chars@[j] != '/',
            decreases start,
        {
            start = start - 1;
        }
        let ghost segment = chars@.subrange(start as int, end as int);
        proof {
            lemma_split_next(chars@, '/', start as int, end as int);
            let pieces = pieces_before(chars@, '/', start as int).push(segment);
            assert(pieces.last() == segment);
            assert(pieces.drop_last() =~= pieces_before(chars@, '/', start as int));
        }
        let len = end - start;
        let dot = len == 1 && chars[start] == '.';
        let dots = len == 2 && chars[start] == '.' && chars[start + 1] == '.';
        proof {
            if dot {
                assert(segment =~= seq!['.']);
            } else if len == 1 {
                assert(segment[0] != '.');
            }
            if dots {
                assert(segment =~= seq!['.', '.']);
            } else if len == 2 {
                assert(segment[0] != '.' || segment[1] != '.');
            }
        }
        if len == 0 || dot {
            if start == 0 {
                assert(last_component(Seq::<Seq<char>>::empty()) is None);
                return None;
            }
            end = start - 1;
        } else if dots {
            return None;
        } else {
            return Some(file_path.substring_char(start, end));
        }
    }
}

} // verus!
