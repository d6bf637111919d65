use vstd::prelude::*;
use crate::users::pattern::{is_found, pattern_found};
use std::collections::hash_map::RandomState;

verus! {

/// Shape of an identifier: a UUID, hexadecimal digits in groups of 8, 4, 4, 4 and 12
/// separated by dashes.
pub const ID_FORMAT: &'static str = r"^[0-9a-fA-F]{8}-[0-9a-fA-F]{4}-[0-9a-fA-F]{4}-[0-9a-fA-F]{4}-[0-9a-fA-F]{12}$";

pub const UUID_LEN: usize = 36;

pub const UUID_DIGITS: usize = 32;

pub open spec fn is_valid_id(id: Seq<char>) -> bool {
    pattern_found(ID_FORMAT@, id)
}

pub open spec fn hex_digit_char(d: int) -> char {
    seq!['0', '1', '2', '3', '4', '5', '6', '7', '8', '9', 'a', 'b', 'c', 'd', 'e', 'f'][d]
}

pub open spec fn is_hex_digit(c: char) -> bool {
    ('0' <= c && c <= '9') || ('a' <= c && c <= 'f') || ('A' <= c && c <= 'F')
}

pub open spec fn is_dash_position(i: int) -> bool {
    i == 8 || i == 13 || i == 18 || i == 23
}

/// Dashes that stand before position `i` of a UUID.
pub open spec fn dashes_before(i: int) -> int {
    (if i > 8 { 1int } else { 0int }) + (if i > 13 { 1int } else { 0int }) + (if i > 18 {
        1int
    } else {
        0int
    }) + (if i > 23 { 1int } else { 0int })
}

/// The UUID text whose hexadecimal digits are `nibbles`, in order.
pub open spec fn uuid_of(nibbles: Seq<u8>) -> Seq<char> {
    Seq::new(
        UUID_LEN as nat,
        |i: int|
            if is_dash_position(i) {
                '-'
            } else {
                hex_digit_char(nibbles[i - dashes_before(i)] as int)
            },
    )
}

/// Text in the shape of a UUID.
pub open spec fn is_uuid_text(s: Seq<char>) -> bool {
    &&& s.len() == UUID_LEN
    &&& forall|i: int|
        0 <= i < UUID_LEN ==> if is_dash_position(i) {
            s[i] == '-'
        } else {
            is_hex_digit(#[trigger] s[i])
        }
}

#[derive(Debug, Clone, Copy, PartialEq, Eq, Structural)]
pub struct InvalidIdError {}

impl InvalidIdError {
    pub fn to_string(&self) -> (r: String)
        ensures
            r@ == "Invalid Id format"@,
    {
        String::from_str("Invalid Id format")
    }
}

/// The identifier of an entity.
#[derive(Debug, Clone)]
pub struct Id {
    id: String,
}

impl View for Id {
    type V = Seq<char>;

    closed spec fn view(&self) -> Seq<char> {
        self.id@
    }
}

/// Relies on `std::collections::hash_map::RandomState::new`, whose keys are drawn at
/// random for each thread and change with each call.
#[verifier::external_body]
fn fresh_random_state() -> (r: RandomState) {
    RandomState::new()
}

/// Relies on `std::hash::BuildHasher::hash_one`: the hash of one value under the
/// random keys of the state.
#[verifier::external_body]
fn random_word(state: &RandomState, seed: u64) -> (r: u64) {
    std::hash::BuildHasher::hash_one(state, seed)
}

fn hex_digit_str(d: u8) -> (r: &'static str)
    requires
        d < 16,
    ensures
        r@ == seq![hex_digit_char(d as int)],
{
    proof {
        reveal_strlit("0");
        reveal_strlit("1");
        reveal_strlit("2");
        reveal_strlit("3");
        reveal_strlit("4");
        reveal_strlit("5");
        reveal_strlit("6");
        reveal_strlit("7");
        reveal_strlit("8");
        reveal_strlit("9");
        reveal_strlit("a");
        reveal_strlit("b");
        reveal_strlit("c");
        reveal_strlit("d");
        reveal_strlit("e");
        reveal_strlit("f");
    }
    match d {
        0 => "0",
        1 => "1",
        2 => "2",
        3 => "3",
        4 => "4",
        5 => "5",
        6 => "6",
        7 => "7",
        8 => "8",
        9 => "9",
        10 => "a",
        11 => "b",
        12 => "c",
        13 => "d",
        14 => "e",
        _ => "f",
    }
}

proof fn lemma_hex_digit(d: int)
    requires
        0 <= d < 16,
    ensures
        is_hex_digit(hex_digit_char(d)),
{
    let digits = seq!['0', '1', '2', '3', '4', '5', '6', '7', '8', '9', 'a', 'b', 'c', 'd', 'e', 'f'];
    assert(digits[d] == hex_digit_char(d));
    assert(forall|k: int| 0 <= k < 16 ==> is_hex_digit(#[trigger] digits[k]));
}

/// Writes thirty-two hexadecimal digits as a UUID, with its four dashes.
pub fn uuid_text(nibbles: &Vec<u8>) -> (r: String)
    requires
        nibbles@.len() == UUID_DIGITS,
        forall|k: int| 0 <= k < nibbles@.len() ==> #[trigger] nibbles@[k] < 16,
    ensures
        r@ == uuid_of(nibbles@),
{
    let mut s = String::new();
    let mut i: usize = 0;
    let mut k: usize = 0;
    while i < UUID_LEN
        invariant
            nibbles@.len() == UUID_DIGITS,
            forall|k: int| 0 <= k < nibbles@.len() ==> #[trigger] nibbles@[k] < 16,
            i <= UUID_LEN,
            k == i - dashes_before(i as int),
            s@ =~= uuid_of(nibbles@).subrange(0, i as int),
        decreases UUID_LEN - i,
    {
        let ghost whole = uuid_of(nibbles@);
        proof {
            reveal_strlit("-");
        }
        if i == 8 || i == 13 || i == 18 || i == 23 {
            s.append("-");
            assert(whole[i as int] == '-');
        } else {
            assert(k < UUID_DIGITS);
            s.append(hex_digit_str(nibbles[k]));
            assert(whole[i as int] == hex_digit_char(nibbles@[k as int] as int));
            k = k + 1;
        }
        assert(whole.subrange(0, i + 1) =~= whole.subrange(0, i as int).push(whole[i as int]));
        i = i + 1;
    }
    s
}

/// The thirty-two hexadecimal digits of two words, low digit first.
fn nibbles_of(high: u64, low: u64) -> (r: Vec<u8>)
    ensures
        r@.len() == UUID_DIGITS,
        forall|k: int| 0 <= k < r@.len() ==> #[trigger] r@[k] < 16,
{
    let mut r: Vec<u8> = Vec::new();
    let mut words = vec![high, low];
    let mut w: usize = 0;
    while w < 2
        invariant
            words@.len() == 2,
            w <= 2,
            r@.len() == 16 * w,
            forall|k: int| 0 <= k < r@.len() ==> #[trigger] r@[k] < 16,
        decreases 2 - w,
    {
        let mut word = words[w];
        let mut j: usize = 0;
        while j < 16
            invariant
                j <= 16,
                r@.len() == 16 * w + j,
                forall|k: int| 0 <= k < r@.len() ==> #[trigger] r@[k] < 16,
            decreases 16 - j,
        {
            r.push((word % 16) as u8);
            word = word / 16;
            j = j + 1;
        }
        w = w + 1;
    }
    r
}

impl Id {
    /// A new identifier, drawn at random, in the shape of a UUID.
    pub fn generate_unique_identifier() -> (r: Id)
        ensures
            is_uuid_text(r@),
    {
        let state = fresh_random_state();
        let high = random_word(&state, 0);
        let low = random_word(&state, 1);
        let nibbles = nibbles_of(high, low);
        let text = uuid_text(&nibbles);
        proof {
            assert forall|i: int| 0 <= i < UUID_LEN && !is_dash_position(i) implies is_hex_digit(
                #[trigger] text@[i],
            ) by {
                let d = nibbles@[i - dashes_before(i)] as int;
                assert(0 <= i - dashes_before(i) < UUID_DIGITS);
                assert(0 <= d < 16);
                lemma_hex_digit(d);
            }
        }
        Id { id: text }
    }

    pub fn from(id: String) -> (r: Result<Id, InvalidIdError>)
        ensures
            r is Ok <==> is_valid_id(id@),
            r matches Ok(i) ==> i@ == id@,
    {
        match Self::ensure_is_valid_id(&id) {
            Ok(()) => Ok(Id { id }),
            Err(e) => Err(e),
        }
    }

    fn ensure_is_valid_id(id: &String) -> (r: Result<(), InvalidIdError>)
        ensures
            r is Ok <==> is_valid_id(id@),
    {
        if !is_found(ID_FORMAT, id.as_str()) {
            Err(InvalidIdError {})
        } else {
            Ok(())
        }
    }

    /// The identifier as text.
    pub fn to_string(&self) -> (r: String)
        ensures
            r@ == self@,
    {
        self.id.clone()
    }

    /// The same identifier, in a value of its own.
    pub fn duplicate(&self) -> (r: Id)
        ensures
            r@ == self@,
    {
        Id { id: self.id.clone() }
    }
}

impl PartialEq for Id {
    fn eq(&self, other: &Id) -> (r: bool) {
        self.id == other.id
    }
}

impl Eq for Id {
}

impl vstd::std_specs::cmp::PartialEqSpecImpl for Id {
    open spec fn obeys_eq_spec() -> bool {
        true
    }

    open spec fn eq_spec(&self, other: &Id) -> bool {
        self@ == other@
    }
}

} // verus!
