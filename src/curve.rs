use vstd::prelude::*;
use vstd::string::StringSliceAdditionalSpecFns;

verus! {

pub open spec fn is_ascii_letter(c: u8) -> bool {
    (65 <= c <= 90) || (97 <= c <= 122)
}

/// A byte that ends a piece of a curve field: the piece separator `|`, the
/// field separator `,`, or the end of the line.
pub open spec fn ends_piece(c: u8) -> bool {
    c == 124 || c == 44 || c == 10
}

/// The bytes of `[HitObjects]` start at `p`.
pub open spec fn header_at(b: Seq<u8>, p: int) -> bool {
    &&& 0 <= p
    &&& p + 12 <= b.len()
    &&& b[p] == 91 && b[p + 1] == 72 && b[p + 2] == 105 && b[p + 3] == 116
    &&& b[p + 4] == 79 && b[p + 5] == 98 && b[p + 6] == 106 && b[p + 7] == 101
    &&& b[p + 8] == 99 && b[p + 9] == 116 && b[p + 10] == 115 && b[p + 11] == 93
}

/// A `[HitObjects]` header starts somewhere before `i`.
pub open spec fn after_hit_objects_header(b: Seq<u8>, i: int) -> bool {
    exists|p: int| p < i && #[trigger] header_at(b, p)
}

/// The number of commas between the start of the line that holds `i` and `i`.
pub open spec fn commas_in_line_before(b: Seq<u8>, i: int) -> nat
    decreases i,
{
    if i <= 0 || i > b.len() {
        0
    } else if b[i - 1] == 10 {
        0
    } else if b[i - 1] == 44 {
        commas_in_line_before(b, i - 1) + 1
    } else {
        commas_in_line_before(b, i - 1)
    }
}

/// From `i` on: `|`, an ASCII letter, bytes that end no piece, then `,`. The
/// piece after `i` is the last of its field, and it starts with a letter.
pub open spec fn lone_type_piece_at(b: Seq<u8>, i: int) -> bool {
    &&& 0 <= i
    &&& i + 1 < b.len()
    &&& b[i] == 124
    &&& is_ascii_letter(b[i + 1])
    &&& exists|j: int|
        i + 1 < j < b.len() && b[j] == 44 && forall|k: int| i + 1 < k < j ==> !ends_piece(#[trigger] b[k])
}

/// At `i`, after a `[HitObjects]` header, the sixth field of a line (the
/// curve field of a slider line) ends in a piece of its own that starts with
/// a path type letter.
pub open spec fn lone_type_tail_at(b: Seq<u8>, i: int) -> bool {
    &&& lone_type_piece_at(b, i)
    &&& commas_in_line_before(b, i) == 5
    &&& after_hit_objects_header(b, i)
}

/// No curve field of a hit object line ends in a lone path type piece: the
/// difficulty parser is only handed text of this kind.
pub open spec fn curve_tails_safe(b: Seq<u8>) -> bool {
    forall|i: int| !lone_type_tail_at(b, i)
}

fn lone_type_piece(b: &[u8], i: usize) -> (r: bool)
    requires
        i < b@.len(),
    ensures
        r == lone_type_piece_at(b@, i as int),
{
    let n = b.len();
    if !(b[i] == 124 && i + 1 < n && ((65 <= b[i + 1] && b[i + 1] <= 90) || (97 <= b[i + 1] && b[i + 1] <= 122))) {
        return false;
    }
    let mut j: usize = i + 2;
    while j < n && !(b[j] == 124 || b[j] == 44 || b[j] == 10)
        invariant
            n == b@.len(),
            i + 2 <= j <= n,
            forall|k: int| i + 1 < k < j ==> !ends_piece(#[trigger] b@[k]),
        decreases n - j,
    {
        j = j + 1;
    }
    if j < n && b[j] == 44 {
        true
    } else {
        assert(!lone_type_piece_at(b@, i as int)) by {
            if lone_type_piece_at(b@, i as int) {
                let w = choose|w: int|
                    i + 1 < w < b@.len() && b@[w] == 44 && forall|k: int|
                        i + 1 < k < w ==> !ends_piece(#[trigger] b@[k]);
                if w > j {
                    assert(!ends_piece(b@[j as int]));
                }
            }
        }
        false
    }
}

fn header_starts(b: &[u8], p: usize) -> (r: bool)
    requires
        p < b@.len(),
    ensures
        r == header_at(b@, p as int),
{
    if b.len() - p < 12 {
        return false;
    }
    b[p] == 91 && b[p + 1] == 72 && b[p + 2] == 105 && b[p + 3] == 116 && b[p + 4] == 79
        && b[p + 5] == 98 && b[p + 6] == 106 && b[p + 7] == 101 && b[p + 8] == 99
        && b[p + 9] == 116 && b[p + 10] == 115 && b[p + 11] == 93
}

/// Whether the difficulty parser may be handed `text`.
pub fn curve_tails_are_safe(text: &str) -> (r: bool)
    ensures
        r == curve_tails_safe(text.spec_bytes()),
{
    let b = text.as_bytes();
    let mut i: usize = 0;
    let mut commas: usize = 0;
    let mut seen_header = false;
    while i < b.len()
        invariant
            b@ == text.spec_bytes(),
            i <= b@.len(),
            commas <= i,
            commas as nat == commas_in_line_before(b@, i as int),
            seen_header == after_hit_objects_header(b@, i as int),
            forall|k: int| 0 <= k < i ==> !lone_type_tail_at(b@, k),
        decreases b@.len() - i,
    {
        if commas == 5 && seen_header && lone_type_piece(b, i) {
            assert(lone_type_tail_at(b@, i as int));
            return false;
        }
        let here = header_starts(b, i);
        proof {
            if here {
                assert(after_hit_objects_header(b@, i + 1)) by {
                    assert(header_at(b@, i as int));
                }
            }
            if seen_header {
                let p = choose|p: int| p < i && #[trigger] header_at(b@, p);
                assert(after_hit_objects_header(b@, i + 1)) by {
                    assert(header_at(b@, p));
                }
            }
            if !here && !seen_header {
                assert forall|p: int| p < i + 1 implies !#[trigger] header_at(b@, p) by {
                    if p < i {
                        assert(!after_hit_objects_header(b@, i as int));
                    }
                }
            }
        }
        seen_header = seen_header || here;
        if b[i] == 10 {
            commas = 0;
        } else if b[i] == 44 {
            commas = commas + 1;
        }
        i = i + 1;
    }
    assert forall|k: int| !lone_type_tail_at(b@, k) by {
        if 0 <= k < i {
            assert(!lone_type_tail_at(b@, k));
        }
    }
    true
}

} // verus!
