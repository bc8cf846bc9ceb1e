use vstd::prelude::*;

verus! {

/// A colour by its red, green and blue parts.
#[derive(Debug, Clone, Copy, PartialEq, Eq, Structural)]
pub struct Rgb {
    pub r: u8,
    pub g: u8,
    pub b: u8,
}

/// The sixteen hexadecimal digits, letters in lower case.
pub open spec fn hex_digits() -> Seq<char> {
    seq!['0', '1', '2', '3', '4', '5', '6', '7', '8', '9', 'a', 'b', 'c', 'd', 'e', 'f']
}

/// The two hexadecimal digits of one colour part, the high one first.
pub open spec fn hex_pair(part: u8) -> Seq<char> {
    seq![hex_digits()[part as int / 16], hex_digits()[part as int % 16]]
}

/// The colour in `#rrggbb` notation.
pub open spec fn hex_of(color: Rgb) -> Seq<char> {
    seq!['#'] + hex_pair(color.r) + hex_pair(color.g) + hex_pair(color.b)
}

/// Two digits name one colour part.
pub proof fn lemma_hex_pair_names_one_part(first: u8, second: u8)
    requires
        hex_pair(first) == hex_pair(second),
    ensures
        first == second,
{
    let d = hex_digits();
    assert forall|i: int, j: int| 0 <= i < 16 && 0 <= j < 16 && d[i] == d[j] implies i == j by {}
    assert(hex_pair(first)[0] == hex_pair(second)[0]);
    assert(hex_pair(first)[1] == hex_pair(second)[1]);
    assert(d[first as int / 16] == d[second as int / 16]);
    assert(d[first as int % 16] == d[second as int % 16]);
}

/// The notation names one colour: colours written alike are the same.
pub proof fn lemma_hex_names_one_color(first: Rgb, second: Rgb)
    requires
        hex_of(first) == hex_of(second),
    ensures
        first == second,
{
    let a = hex_of(first);
    let b = hex_of(second);
    assert(hex_pair(first.r) =~= a.subrange(1, 3));
    assert(hex_pair(second.r) =~= b.subrange(1, 3));
    assert(hex_pair(first.g) =~= a.subrange(3, 5));
    assert(hex_pair(second.g) =~= b.subrange(3, 5));
    assert(hex_pair(first.b) =~= a.subrange(5, 7));
    assert(hex_pair(second.b) =~= b.subrange(5, 7));
    lemma_hex_pair_names_one_part(first.r, second.r);
    lemma_hex_pair_names_one_part(first.g, second.g);
    lemma_hex_pair_names_one_part(first.b, second.b);
}

} // verus!
