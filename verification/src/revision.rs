//! Revision identifiers: fixed-width content hashes naming one commit.

use vstd::prelude::*;
use vstd::string::StringExecFns;
use vstd::string::StrSliceExecFns;

verus! {

/// Number of bytes in a revision identifier (a git object id).
pub const OID_LEN: usize = 20;

/// The lowercase hexadecimal character for a value below sixteen.
pub open spec fn hex_digit(n: int) -> char {
    if n == 0 {
        '0'
    } else if n == 1 {
        '1'
    } else if n == 2 {
        '2'
    } else if n == 3 {
        '3'
    } else if n == 4 {
        '4'
    } else if n == 5 {
        '5'
    } else if n == 6 {
        '6'
    } else if n == 7 {
        '7'
    } else if n == 8 {
        '8'
    } else if n == 9 {
        '9'
    } else if n == 10 {
        'a'
    } else if n == 11 {
        'b'
    } else if n == 12 {
        'c'
    } else if n == 13 {
        'd'
    } else if n == 14 {
        'e'
    } else {
        'f'
    }
}

/// The value of a hexadecimal character, in either case, if it is one.
pub open spec fn hex_val(c: char) -> Option<int> {
    if c == '0' {
        Some(0int)
    } else if c == '1' {
        Some(1int)
    } else if c == '2' {
        Some(2int)
    } else if c == '3' {
        Some(3int)
    } else if c == '4' {
        Some(4int)
    } else if c == '5' {
        Some(5int)
    } else if c == '6' {
        Some(6int)
    } else if c == '7' {
        Some(7int)
    } else if c == '8' {
        Some(8int)
    } else if c == '9' {
        Some(9int)
    } else if c == 'a' || c == 'A' {
        Some(10int)
    } else if c == 'b' || c == 'B' {
        Some(11int)
    } else if c == 'c' || c == 'C' {
        Some(12int)
    } else if c == 'd' || c == 'D' {
        Some(13int)
    } else if c == 'e' || c == 'E' {
        Some(14int)
    } else if c == 'f' || c == 'F' {
        Some(15int)
    } else {
        None
    }
}

/// Lowercase hexadecimal rendering of a byte sequence, two characters per
/// byte, most significant nibble first.
pub open spec fn hex_of(bytes: Seq<u8>) -> Seq<char>
    decreases bytes.len(),
{
    if bytes.len() == 0 {
        Seq::<char>::empty()
    } else {
        hex_of(bytes.drop_last()) + seq![
            hex_digit(bytes.last() as int / 16),
            hex_digit(bytes.last() as int % 16),
        ]
    }
}

/// Shape of a hexadecimal rendering: two characters per byte, and the
/// character pair at position `i` renders byte `i`.
pub proof fn lemma_hex_of_index(bytes: Seq<u8>)
    ensures
        hex_of(bytes).len() == 2 * bytes.len(),
        forall|i: int|
            0 <= i < bytes.len() ==> hex_of(bytes)[2 * i] == hex_digit(#[trigger] bytes[i] as int / 16)
                && hex_of(bytes)[2 * i + 1] == hex_digit(bytes[i] as int % 16),
    decreases bytes.len(),
{
    if bytes.len() > 0 {
        lemma_hex_of_index(bytes.drop_last());
        assert forall|i: int| 0 <= i < bytes.len() implies hex_of(bytes)[2 * i] == hex_digit(
            #[trigger] bytes[i] as int / 16,
        ) && hex_of(bytes)[2 * i + 1] == hex_digit(bytes[i] as int % 16) by {
            if i < bytes.len() - 1 {
                assert(bytes.drop_last()[i] == bytes[i]);
            }
        }
    }
}

/// Hexadecimal renderings are injective: equal renderings come from equal
/// byte sequences.
pub proof fn lemma_hex_of_injective(a: Seq<u8>, b: Seq<u8>)
    requires
        hex_of(a) == hex_of(b),
    ensures
        a == b,
{
    lemma_hex_of_index(a);
    lemma_hex_of_index(b);
    assert forall|i: int| 0 <= i < a.len() implies a[i] == b[i] by {
        assert(hex_of(a)[2 * i] == hex_of(b)[2 * i]);
        assert(hex_of(a)[2 * i + 1] == hex_of(b)[2 * i + 1]);
        assert(hex_digit(a[i] as int / 16) == hex_digit(b[i] as int / 16));
        assert(hex_digit(a[i] as int % 16) == hex_digit(b[i] as int % 16));
        assert(a[i] as int / 16 == b[i] as int / 16 && a[i] as int % 16 == b[i] as int % 16);
        assert(a[i] == (a[i] / 16) * 16 + a[i] % 16) by (nonlinear_arith);
        assert(b[i] == (b[i] / 16) * 16 + b[i] % 16) by (nonlinear_arith);
    }
    assert(a =~= b);
}

/// Reading back a digit that `hex_digit` wrote yields the value written.
pub proof fn lemma_hex_val_of_digit(n: int)
    requires
        0 <= n < 16,
    ensures
        hex_val(hex_digit(n)) == Some(n),
{
}

/// An opaque, fixed-width content hash identifying a specific commit.
/// Equality is structural: byte equality of the hash.
#[derive(Debug)]
pub struct GitRevision {
    bytes: Vec<u8>,
}

impl View for GitRevision {
    type V = Seq<u8>;

    closed spec fn view(&self) -> Seq<u8> {
        self.bytes@
    }
}

impl Clone for GitRevision {
    fn clone(&self) -> (r: Self)
        ensures
            r@ == self@,
    {
        GitRevision { bytes: clone_bytes(&self.bytes) }
    }
}

/// Byte-for-byte copy of a byte vector.
fn clone_bytes(v: &Vec<u8>) -> (r: Vec<u8>)
    ensures
        r@ == v@,
{
    let mut out: Vec<u8> = Vec::new();
    let mut i: usize = 0;
    while i < v.len()
        invariant
            i <= v.len(),
            out@ == v@.take(i as int),
        decreases v.len() - i,
    {
        out.push(v[i]);
        i = i + 1;
        proof {
            assert(out@ =~= v@.take(i as int));
        }
    }
    proof {
        assert(out@ =~= v@);
    }
    out
}

impl PartialEq for GitRevision {
    fn eq(&self, other: &Self) -> (r: bool)
        ensures
            r == (self@ == other@),
    {
        bytes_eq(&self.bytes, &other.bytes)
    }
}

impl vstd::std_specs::cmp::PartialEqSpecImpl for GitRevision {
    open spec fn obeys_eq_spec() -> bool {
        true
    }

    open spec fn eq_spec(&self, other: &Self) -> bool {
        self@ == other@
    }
}

impl Eq for GitRevision {

}

/// Byte-for-byte comparison of two byte vectors.
fn bytes_eq(a: &Vec<u8>, b: &Vec<u8>) -> (r: bool)
    ensures
        r == (a@ == b@),
{
    if a.len() != b.len() {
        proof {
            assert(a@ !~= b@);
        }
        return false;
    }
    let mut i: usize = 0;
    while i < a.len()
        invariant
            i <= a.len(),
            a@.len() == b@.len(),
            forall|j: int| 0 <= j < i ==> a@[j] == b@[j],
        decreases a.len() - i,
    {
        if a[i] != b[i] {
            return false;
        }
        i = i + 1;
    }
    proof {
        assert(a@ =~= b@);
    }
    true
}

impl GitRevision {
    /// A revision identifier is exactly `OID_LEN` bytes.
    pub open spec fn wf(&self) -> bool {
        self@.len() == OID_LEN
    }

    /// Wraps raw hash bytes; succeeds exactly when the slice has the width
    /// of an object id.
    pub fn from_bytes(bytes: Vec<u8>) -> (r: Option<GitRevision>)
        ensures
            r is Some <==> bytes@.len() == OID_LEN,
            r matches Some(rev) ==> rev@ == bytes@ && rev.wf(),
    {
        if bytes.len() == OID_LEN {
            Some(GitRevision { bytes })
        } else {
            None
        }
    }

    /// Lowercase hexadecimal rendering of the hash, two characters per byte.
    pub fn to_hex(&self) -> (r: String)
        ensures
            r@ == hex_of(self@),
    {
        let mut out: String = String::new();
        let mut i: usize = 0;
        while i < self.bytes.len()
            invariant
                i <= self.bytes.len(),
                out@ == hex_of(self@.take(i as int)),
                self@.len() == self.bytes@.len(),
            decreases self.bytes.len() - i,
        {
            let b = self.bytes[i];
            out.append(hex_digit_str(b / 16));
            out.append(hex_digit_str(b % 16));
            i = i + 1;
            proof {
                let t = self@.take(i as int);
                assert(t.drop_last() =~= self@.take(i - 1));
                assert(t.last() == self@[i - 1]);
                assert(out@ =~= hex_of(t));
            }
        }
        proof {
            assert(self@.take(self.bytes@.len() as int) =~= self@);
        }
        out
    }

    /// Parses a hexadecimal rendering back into a revision. Succeeds exactly
    /// when the text is `2 * OID_LEN` hexadecimal characters (either case),
    /// and then returns the bytes those characters spell.
    pub fn from_hex(s: &str) -> (r: Option<GitRevision>)
        ensures
            r is Some <==> s@.len() == 2 * OID_LEN && (forall|i: int|
                0 <= i < s@.len() ==> hex_val(#[trigger] s@[i]) is Some),
            r matches Some(rev) ==> {
                &&& rev.wf()
                &&& rev@.len() * 2 == s@.len()
                &&& forall|i: int|
                    0 <= i < rev@.len() ==> #[trigger] rev@[i] == hex_val(s@[2 * i]).unwrap() * 16
                        + hex_val(s@[2 * i + 1]).unwrap()
            },
    {
        let n = s.unicode_len();
        if n != 2 * OID_LEN {
            return None;
        }
        let mut bytes: Vec<u8> = Vec::new();
        let mut i: usize = 0;
        while i < OID_LEN
            invariant
                i <= OID_LEN,
                s@.len() == 2 * OID_LEN,
                bytes@.len() == i,
                forall|j: int| 0 <= j < 2 * i ==> hex_val(#[trigger] s@[j]) is Some,
                forall|j: int|
                    0 <= j < i ==> #[trigger] bytes@[j] == hex_val(s@[2 * j]).unwrap() * 16
                        + hex_val(s@[2 * j + 1]).unwrap(),
            decreases OID_LEN - i,
        {
            let hi = s.get_char(2 * i);
            let lo = s.get_char(2 * i + 1);
            let hv = match hex_val_of(hi) {
                Some(v) => v,
                None => {
                    return None;
                },
            };
            let lv = match hex_val_of(lo) {
                Some(v) => v,
                None => {
                    return None;
                },
            };
            bytes.push(hv * 16 + lv);
            i = i + 1;
        }
        Some(GitRevision { bytes })
    }
}

/// The value of one hexadecimal character, or `None` for any other
/// character.
fn hex_val_of(c: char) -> (r: Option<u8>)
    ensures
        r is Some <==> hex_val(c) is Some,
        r matches Some(v) ==> hex_val(c) == Some(v as int),
{
    match c {
        '0' => Some(0),
        '1' => Some(1),
        '2' => Some(2),
        '3' => Some(3),
        '4' => Some(4),
        '5' => Some(5),
        '6' => Some(6),
        '7' => Some(7),
        '8' => Some(8),
        '9' => Some(9),
        'a' | 'A' => Some(10),
        'b' | 'B' => Some(11),
        'c' | 'C' => Some(12),
        'd' | 'D' => Some(13),
        'e' | 'E' => Some(14),
        'f' | 'F' => Some(15),
        _ => None,
    }
}

/// A one-character string holding the lowercase hexadecimal digit for a
/// value below sixteen.
fn hex_digit_str(n: u8) -> (r: &'static str)
    requires
        n < 16,
    ensures
        r@ =~= seq![hex_digit(n as int)],
{
    proof {
        reveal_strlit("0");
        reveal_strlit("1");
        reveal_strlit("2");
        reveal_strlit("3");
        reveal_strlit("4");
        reveal_strlit("5");
        reveal_strlit("6");
        reveal_strlit("7");
        reveal_strlit("8");
        reveal_strlit("9");
        reveal_strlit("a");
        reveal_strlit("b");
        reveal_strlit("c");
        reveal_strlit("d");
        reveal_strlit("e");
        reveal_strlit("f");
    }
    match n {
        0 => "0",
        1 => "1",
        2 => "2",
        3 => "3",
        4 => "4",
        5 => "5",
        6 => "6",
        7 => "7",
        8 => "8",
        9 => "9",
        10 => "a",
        11 => "b",
        12 => "c",
        13 => "d",
        14 => "e",
        _ => "f",
    }
}

/// Hex round trip: parsing the rendering of a revision yields the same
/// revision, byte for byte.
pub proof fn lemma_hex_round_trip(rev: GitRevision, parsed: GitRevision)
    requires
        rev.wf(),
        parsed.wf(),
        parsed@.len() * 2 == hex_of(rev@).len(),
        forall|i: int|
            0 <= i < parsed@.len() ==> #[trigger] parsed@[i] == hex_val(hex_of(rev@)[2 * i]).unwrap()
                * 16 + hex_val(hex_of(rev@)[2 * i + 1]).unwrap(),
    ensures
        parsed@ == rev@,
{
    lemma_hex_of_index(rev@);
    assert forall|i: int| 0 <= i < parsed@.len() implies parsed@[i] == rev@[i] by {
        lemma_hex_val_of_digit(rev@[i] as int / 16);
        lemma_hex_val_of_digit(rev@[i] as int % 16);
        assert(parsed@[i] == (rev@[i] as int / 16) * 16 + rev@[i] as int % 16);
        assert(rev@[i] == (rev@[i] as int / 16) * 16 + rev@[i] as int % 16) by (nonlinear_arith);
    }
    assert(parsed@ =~= rev@);
}

/// Every character of a hexadecimal rendering parses as a hexadecimal
/// digit.
pub proof fn lemma_hex_of_digits(bytes: Seq<u8>)
    ensures
        forall|i: int| 0 <= i < hex_of(bytes).len() ==> hex_val(#[trigger] hex_of(bytes)[i]) is Some,
{
    lemma_hex_of_index(bytes);
    assert forall|i: int| 0 <= i < hex_of(bytes).len() implies hex_val(
        #[trigger] hex_of(bytes)[i],
    ) is Some by {
        let j = i / 2;
        if i % 2 == 0 {
            assert(i == 2 * j);
            lemma_hex_val_of_digit(bytes[j] as int / 16);
        } else {
            assert(i == 2 * j + 1);
            lemma_hex_val_of_digit(bytes[j] as int % 16);
        }
    }
}

} // verus!
