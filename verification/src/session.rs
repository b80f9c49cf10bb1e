//! Session ids: sixteen bytes, spelled as thirty-two hexadecimal digits.

use vstd::prelude::*;
use vstd::string::*;

verus! {

/// The id a session is parked and resumed under.
#[derive(Clone, Copy, Debug, Eq)]
pub struct SessionId {
    pub bytes: [u8; 16],
}

impl View for SessionId {
    type V = Seq<u8>;

    open spec fn view(&self) -> Seq<u8> {
        self.bytes@
    }
}

impl PartialEq for SessionId {
    fn eq(&self, other: &SessionId) -> (same: bool) {
        let mut i: usize = 0;
        while i < 16
            invariant
                i <= 16,
                forall|j: int| 0 <= j < i ==> self.bytes@[j] == other.bytes@[j],
            decreases 16 - i,
        {
            if self.bytes[i] != other.bytes[i] {
                assert(self.bytes@[i as int] != other.bytes@[i as int]);
                return false;
            }
            i = i + 1;
        }
        assert(self.bytes@ =~= other.bytes@);
        true
    }
}

impl vstd::std_specs::cmp::PartialEqSpecImpl for SessionId {
    open spec fn obeys_eq_spec() -> bool {
        true
    }

    open spec fn eq_spec(&self, other: &SessionId) -> bool {
        self.bytes@ == other.bytes@
    }
}

/// The lower-case digit for a value below sixteen.
pub open spec fn hex_digit(value: int) -> char {
    if value < 10 {
        (48 + value) as char
    } else {
        (87 + value) as char
    }
}

/// What a hexadecimal digit stands for, in either case.
pub open spec fn hex_value(digit: char) -> Option<int> {
    if '0' <= digit <= '9' {
        Some(digit as int - 48)
    } else if 'a' <= digit <= 'f' {
        Some(digit as int - 87)
    } else if 'A' <= digit <= 'F' {
        Some(digit as int - 55)
    } else {
        None
    }
}

/// Two lower-case digits for each byte, the high half first.
pub open spec fn hex_text(bytes: Seq<u8>) -> Seq<char> {
    Seq::new(
        2 * bytes.len(),
        |i: int|
            hex_digit(
                if i % 2 == 0 {
                    bytes[i / 2] as int / 16
                } else {
                    bytes[i / 2] as int % 16
                },
            ),
    )
}

/// Whether the text spells a session id.
pub open spec fn is_hex_id(text: Seq<char>) -> bool {
    text.len() == 32 && forall|i: int| 0 <= i < 32 ==> hex_value(#[trigger] text[i]) is Some
}

/// Whether the text spells these sixteen bytes.
pub open spec fn spells(text: Seq<char>, bytes: Seq<u8>) -> bool {
    &&& is_hex_id(text)
    &&& bytes.len() == 16
    &&& forall|i: int|
        0 <= i < 16 ==> #[trigger] bytes[i] == 16 * hex_value(text[2 * i])->0 + hex_value(
            text[2 * i + 1],
        )->0
}

fn digit_text(value: u8) -> (text: &'static str)
    requires
        value < 16,
    ensures
        text@ == seq![hex_digit(value as int)],
{
    proof {
        reveal_strlit("0");
        reveal_strlit("1");
        reveal_strlit("2");
        reveal_strlit("3");
        reveal_strlit("4");
        reveal_strlit("5");
        reveal_strlit("6");
        reveal_strlit("7");
        reveal_strlit("8");
        reveal_strlit("9");
        reveal_strlit("a");
        reveal_strlit("b");
        reveal_strlit("c");
        reveal_strlit("d");
        reveal_strlit("e");
        reveal_strlit("f");
    }
    let text = match value {
        0 => "0",
        1 => "1",
        2 => "2",
        3 => "3",
        4 => "4",
        5 => "5",
        6 => "6",
        7 => "7",
        8 => "8",
        9 => "9",
        10 => "a",
        11 => "b",
        12 => "c",
        13 => "d",
        14 => "e",
        _ => "f",
    };
    assert(text@ =~= seq![hex_digit(value as int)]);
    text
}

fn digit_value(digit: char) -> (value: Option<u8>)
    ensures
        value is Some <==> hex_value(digit) is Some,
        value matches Some(v) ==> hex_value(digit) == Some(v as int) && v < 16,
{
    if '0' <= digit && digit <= '9' {
        Some((digit as u32 - 48) as u8)
    } else if 'a' <= digit && digit <= 'f' {
        Some((digit as u32 - 87) as u8)
    } else if 'A' <= digit && digit <= 'F' {
        Some((digit as u32 - 55) as u8)
    } else {
        None
    }
}

impl SessionId {
    /// The id with these bytes.
    pub fn from_bytes(bytes: [u8; 16]) -> (id: SessionId)
        ensures
            id.bytes == bytes,
    {
        SessionId { bytes }
    }

    /// The id's bytes.
    pub fn as_bytes(&self) -> (bytes: &[u8; 16])
        ensures
            *bytes == self.bytes,
    {
        &self.bytes
    }

    /// Spells the id.
    pub fn to_hex(&self) -> (text: String)
        ensures
            text@ == hex_text(self@),
    {
        let mut text = String::new();
        let mut i: usize = 0;
        while i < 16
            invariant
                i <= 16,
                text@.len() == 2 * i,
                text@ == hex_text(self@).take(2 * i),
            decreases 16 - i,
        {
            let ghost before = text@;
            let byte: u8 = self.bytes[i];
            text.append(digit_text(byte / 16));
            text.append(digit_text(byte % 16));
            assert(text@ =~= before.push(hex_digit(byte as int / 16)).push(
                hex_digit(byte as int % 16),
            ));
            assert(text@ =~= hex_text(self@).take(2 * i + 2)) by {
                assert((2 * i) / 2 == i && (2 * i) % 2 == 0);
                assert((2 * i + 1) / 2 == i && (2 * i + 1) % 2 == 1);
                assert(hex_text(self@)[2 * i as int] == hex_digit(byte as int / 16));
                assert(hex_text(self@)[2 * i + 1] == hex_digit(byte as int % 16));
            }
            i = i + 1;
        }
        assert(hex_text(self@).take(32) =~= hex_text(self@));
        text
    }

    /// Reads an id back, in either case; `None` where the text spells none.
    pub fn parse_hex(text: &str) -> (id: Option<SessionId>)
        ensures
            id is Some <==> is_hex_id(text@),
            id matches Some(id) ==> spells(text@, id@),
    {
        if text.unicode_len() != 32 {
            return None;
        }
        let mut bytes: [u8; 16] = [0;16];
        let mut i: usize = 0;
        while i < 16
            invariant
                i <= 16,
                text@.len() == 32,
                forall|j: int| 0 <= j < 2 * i ==> hex_value(#[trigger] text@[j]) is Some,
                forall|j: int|
                    0 <= j < i ==> #[trigger] bytes@[j] == 16 * hex_value(text@[2 * j])->0
                        + hex_value(text@[2 * j + 1])->0,
            decreases 16 - i,
        {
            let high: u8 = match digit_value(text.get_char(2 * i)) {
                Some(value) => value,
                None => {
                    assert(hex_value(text@[2 * i as int]) is None);
                    return None;
                },
            };
            let low: u8 = match digit_value(text.get_char(2 * i + 1)) {
                Some(value) => value,
                None => {
                    assert(hex_value(text@[2 * i + 1]) is None);
                    return None;
                },
            };
            bytes[i] = 16 * high + low;
            i = i + 1;
        }
        Some(SessionId { bytes })
    }
}

/// An id reads back from its spelling, and from nothing that spells another id.
pub proof fn law_hex_round_trip(id: SessionId, text: Seq<char>, other: SessionId)
    ensures
        spells(hex_text(id@), id@),
        spells(text, id@) && spells(text, other@) ==> id == other,
{
    let spelled = hex_text(id@);
    assert forall|i: int| 0 <= i < 32 implies hex_value(#[trigger] spelled[i]) is Some by {
        let half = i / 2;
        assert(0 <= id@[half] as int / 16 < 16 && 0 <= id@[half] as int % 16 < 16);
    }
    assert forall|i: int| 0 <= i < 16 implies #[trigger] id@[i] == 16 * hex_value(spelled[2 * i])->0
        + hex_value(spelled[2 * i + 1])->0 by {
        assert((2 * i) / 2 == i && (2 * i) % 2 == 0);
        assert((2 * i + 1) / 2 == i && (2 * i + 1) % 2 == 1);
        assert(spelled[2 * i] == hex_digit(id@[i] as int / 16));
        assert(spelled[2 * i + 1] == hex_digit(id@[i] as int % 16));
    }
    if spells(text, id@) && spells(text, other@) {
        assert(id@ =~= other@);
        assert(id.bytes =~= other.bytes);
    }
}

/// A digit stands for its value in either case, and nothing but the twenty-two digits
/// stands for one.
pub proof fn law_a_digit_has_its_value(digit: char, value: int)
    ensures
        0 <= value < 10 ==> hex_value((48 + value) as char) == Some(value),
        10 <= value < 16 ==> hex_value((87 + value) as char) == Some(value) && hex_value(
            (55 + value) as char,
        ) == Some(value),
        0 <= value < 16 ==> hex_value(hex_digit(value)) == Some(value),
        hex_value(digit) is Some <==> '0' <= digit <= '9' || 'a' <= digit <= 'f' || 'A' <= digit <= 'F',
        hex_value(digit) matches Some(v) ==> 0 <= v < 16,
{
}

/// A text is an id exactly where it is thirty-two digits, and then each byte of the id is
/// what its two digits spell; an id is spelled in lower case.
pub proof fn law_an_id_is_thirty_two_digits(text: Seq<char>, id: SessionId, i: int)
    ensures
        is_hex_id(text) <==> text.len() == 32 && (forall|j: int|
            0 <= j < 32 ==> hex_value(#[trigger] text[j]) is Some),
        spells(text, id@) ==> is_hex_id(text) && (0 <= i < 16 ==> id@[i] == 16 * hex_value(
            text[2 * i],
        )->0 + hex_value(text[2 * i + 1])->0),
        hex_text(id@).len() == 32,
        0 <= i < 32 ==> '0' <= hex_text(id@)[i] <= '9' || 'a' <= hex_text(id@)[i] <= 'f',
{
    if 0 <= i < 32 {
        assert(0 <= id@[i / 2] as int / 16 < 16 && 0 <= id@[i / 2] as int % 16 < 16);
    }
}

} // verus!
