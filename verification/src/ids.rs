//! Fresh primary keys: random UUIDs in their hyphenated string form.

use vstd::prelude::*;

verus! {

/// A lowercase hexadecimal digit.
pub open spec fn is_lower_hex_digit(c: char) -> bool {
    ('0' <= c && c <= '9') || ('a' <= c && c <= 'f')
}

/// What a hyphenated UUID holds at position `i`: a `-` at 8, 13, 18
/// and 23, a lowercase hexadecimal digit everywhere else.
pub open spec fn uuid_char_ok(i: int, c: char) -> bool {
    if i == 8 || i == 13 || i == 18 || i == 23 {
        c == '-'
    } else {
        is_lower_hex_digit(c)
    }
}

/// The shape of a hyphenated UUID string: 36 characters, each as
/// `uuid_char_ok` asks.
pub open spec fn is_hyphenated_uuid(s: Seq<char>) -> bool {
    s.len() == 36 && forall|i: int| 0 <= i < 36 ==> uuid_char_ok(i, #[trigger] s[i])
}

/// Relies on uuid::Uuid::new_v4 and its `Display` form: the hyphenated
/// lowercase encoding, 36 characters with `-` at positions 8, 13, 18
/// and 23. The value is random; nothing relates one call to the next.
#[verifier::external_body]
pub(crate) fn fresh_id() -> (id: String)
    ensures
        is_hyphenated_uuid(id@),
{
    uuid::Uuid::new_v4().to_string()
}

/// Decides whether a string has the shape of a hyphenated UUID.
pub fn is_uuid_string(s: &str) -> (ok: bool)
    ensures
        ok == is_hyphenated_uuid(s@),
{
    let n = s.unicode_len();
    if n != 36 {
        return false;
    }
    let mut i: usize = 0;
    while i < 36
        invariant
            s@.len() == 36,
            i <= 36,
            forall|j: int| 0 <= j < i ==> uuid_char_ok(j, #[trigger] s@[j]),
        decreases 36 - i,
    {
        let c = s.get_char(i);
        let hyphen = i == 8 || i == 13 || i == 18 || i == 23;
        if hyphen {
            if c != '-' {
                return false;
            }
        } else {
            let v = c as u32;
            let digit = 48 <= v && v <= 57;
            let lower_hex = 97 <= v && v <= 102;
            if !digit && !lower_hex {
                proof {
                    assert(!is_lower_hex_digit(c));
                }
                return false;
            }
        }
        i += 1;
    }
    true
}

} // verus!
