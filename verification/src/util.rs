//! Buffer utilities: unique identifiers and textual serialization of
//! arrays into script statements.

use vstd::prelude::*;
use vstd::string::StringExecFns;

verus! {

/// The single decimal digit `d` as a one-character sequence.
pub open spec fn digit_str(d: nat) -> Seq<char> {
    if d == 0 {
        "0"@
    } else if d == 1 {
        "1"@
    } else if d == 2 {
        "2"@
    } else if d == 3 {
        "3"@
    } else if d == 4 {
        "4"@
    } else if d == 5 {
        "5"@
    } else if d == 6 {
        "6"@
    } else if d == 7 {
        "7"@
    } else if d == 8 {
        "8"@
    } else {
        "9"@
    }
}

/// The decimal digits of `n`, most significant first.
pub open spec fn dec_of(n: nat) -> Seq<char>
    decreases n,
{
    if n < 10 {
        digit_str(n)
    } else {
        dec_of(n / 10) + digit_str(n % 10)
    }
}

fn digit_literal(d: usize) -> (r: &'static str)
    requires
        d < 10,
    ensures
        r@ == digit_str(d as nat),
{
    match d {
        0 => "0",
        1 => "1",
        2 => "2",
        3 => "3",
        4 => "4",
        5 => "5",
        6 => "6",
        7 => "7",
        8 => "8",
        _ => "9",
    }
}

/// Renders a count in decimal.
pub fn usize_to_decimal(n: usize) -> (r: String)
    ensures
        r@ == dec_of(n as nat),
    decreases n,
{
    if n < 10 {
        let mut s = String::new();
        s.append(digit_literal(n));
        proof {
            assert(s@ =~= dec_of(n as nat));
        }
        s
    } else {
        let mut s = usize_to_decimal(n / 10);
        s.append(digit_literal(n % 10));
        proof {
            assert(s@ =~= dec_of(n as nat));
        }
        s
    }
}

/// The width, in bytes, of one character under UTF-8.
pub open spec fn utf8_len_of_char(c: char) -> nat {
    if (c as u32) < 0x80 {
        1
    } else if (c as u32) < 0x800 {
        2
    } else if (c as u32) < 0x10000 {
        3
    } else {
        4
    }
}

/// The length, in bytes, of a character sequence encoded as UTF-8.
pub open spec fn utf8_len(s: Seq<char>) -> nat
    decreases s.len(),
{
    if s.len() == 0 {
        0
    } else {
        utf8_len(s.drop_last()) + utf8_len_of_char(s.last())
    }
}

/// Relies on str::len: the length of the string in bytes, which for the
/// UTF-8 text a `str` holds is the sum of the per-character encoded widths.
#[verifier::external_body]
fn byte_length(s: &str) -> (r: usize)
    ensures
        r == utf8_len(s@),
{
    s.len()
}

/// The unique identifier derived from a buffer and a key:
/// the key, an underscore, and the buffer's length in bytes, in decimal.
pub open spec fn uid_of(buffer: Seq<char>, key: Seq<char>) -> Seq<char> {
    key + "_"@ + dec_of(utf8_len(buffer))
}

/// Generates a unique identifier: key + "_" + the buffer's byte length.
pub fn generate_uid(buffer: &str, key: &str) -> (r: String)
    ensures
        r@ == uid_of(buffer@, key@),
{
    let n = byte_length(buffer);
    let mut s = String::new();
    s.append(key);
    s.append("_");
    let d = usize_to_decimal(n);
    s.append(d.as_str());
    proof {
        assert(s@ =~= uid_of(buffer@, key@));
    }
    s
}

/// `s` wrapped in single quotes.
pub open spec fn quoted(s: Seq<char>) -> Seq<char> {
    "'"@ + s + "'"@
}

/// The entries of a list: each value quoted, separated by commas.
pub open spec fn list_body(vals: Seq<Seq<char>>) -> Seq<char>
    decreases vals.len(),
{
    if vals.len() == 0 {
        Seq::empty()
    } else if vals.len() == 1 {
        quoted(vals[0])
    } else {
        list_body(vals.drop_last()) + ","@ + quoted(vals.last())
    }
}

proof fn lemma_list_body_snoc(vals: Seq<Seq<char>>, i: int)
    requires
        0 <= i < vals.len(),
    ensures
        i == 0 ==> list_body(vals.subrange(0, 1)) == quoted(vals[0]),
        i > 0 ==> list_body(vals.subrange(0, i + 1)) == list_body(vals.subrange(0, i)) + ","@
            + quoted(vals[i]),
{
    let s = vals.subrange(0, i + 1);
    if i == 0 {
        assert(s.len() == 1);
        assert(s[0] == vals[0]);
    } else {
        assert(s.len() == i + 1);
        assert(s.drop_last() =~= vals.subrange(0, i));
        assert(s.last() == vals[i]);
    }
}

/// Converts an array of value strings to a string representing a Python list.
pub fn array2list(values: &Vec<String>) -> (r: String)
    ensures
        r@ == "["@ + list_body(values.deep_view()) + "]"@,
{
    let ghost vals = values.deep_view();
    let mut result = String::new();
    result.append("[");
    let mut i: usize = 0;
    proof {
        assert(vals.subrange(0, 0) =~= Seq::<Seq<char>>::empty());
        assert(result@ =~= "["@ + list_body(vals.subrange(0, 0)));
    }
    while i < values.len()
        invariant
            i <= values@.len(),
            vals == values.deep_view(),
            vals.len() == values@.len(),
            result@ == "["@ + list_body(vals.subrange(0, i as int)),
        decreases values@.len() - i,
    {
        if i > 0 {
            result.append(",");
        }
        result.append("'");
        result.append(values[i].as_str());
        result.append("'");
        proof {
            assert(vals[i as int] == values@[i as int]@);
            lemma_list_body_snoc(vals, i as int);
            assert(result@ =~= "["@ + list_body(vals.subrange(0, i + 1)));
        }
        i += 1;
    }
    proof {
        assert(vals.subrange(0, vals.len() as int) =~= vals);
    }
    result.append("]");
    result
}

/// The values of an array joined for a script statement: each value
/// followed by a comma.
pub open spec fn joined(vals: Seq<Seq<char>>) -> Seq<char>
    decreases vals.len(),
{
    if vals.len() == 0 {
        Seq::empty()
    } else {
        joined(vals.drop_last()) + vals.last() + ","@
    }
}

/// The statement that an array write appends to a buffer: the identifier,
/// an array constructor around the joined values, and a newline.
pub open spec fn array_stmt(buffer: Seq<char>, name: Seq<char>, vals: Seq<Seq<char>>) -> Seq<
    char,
> {
    uid_of(buffer, name) + "=np.array(["@ + joined(vals) + "],dtype=float)\n"@
}

proof fn lemma_joined_snoc(vals: Seq<Seq<char>>, i: int)
    requires
        0 <= i < vals.len(),
    ensures
        joined(vals.subrange(0, i + 1)) == joined(vals.subrange(0, i)) + vals[i] + ","@,
{
    let s = vals.subrange(0, i + 1);
    assert(s.drop_last() =~= vals.subrange(0, i));
    assert(s.last() == vals[i]);
}

/// Writes the array of value strings to the buffer and returns the
/// identifier under which the array was written.
pub fn write_array(buffer: &mut String, name: &str, values: &Vec<String>) -> (uid: String)
    ensures
        uid@ == uid_of(old(buffer)@, name@),
        final(buffer)@ == old(buffer)@ + array_stmt(old(buffer)@, name@, values.deep_view()),
{
    let ghost vals = values.deep_view();
    let ghost buf0 = buffer@;
    let uid = generate_uid(buffer.as_str(), name);
    buffer.append(uid.as_str());
    buffer.append("=np.array([");
    let mut i: usize = 0;
    proof {
        assert(vals.subrange(0, 0) =~= Seq::<Seq<char>>::empty());
        assert(buffer@ =~= buf0 + uid_of(buf0, name@) + "=np.array(["@ + joined(
            vals.subrange(0, 0),
        ));
    }
    while i < values.len()
        invariant
            i <= values@.len(),
            vals == values.deep_view(),
            vals.len() == values@.len(),
            uid@ == uid_of(buf0, name@),
            buffer@ == buf0 + uid_of(buf0, name@) + "=np.array(["@ + joined(
                vals.subrange(0, i as int),
            ),
        decreases values@.len() - i,
    {
        buffer.append(values[i].as_str());
        buffer.append(",");
        proof {
            assert(vals[i as int] == values@[i as int]@);
            lemma_joined_snoc(vals, i as int);
            assert(buffer@ =~= buf0 + uid_of(buf0, name@) + "=np.array(["@ + joined(
                vals.subrange(0, i + 1),
            ));
        }
        i += 1;
    }
    buffer.append("],dtype=float)\n");
    proof {
        assert(vals.subrange(0, vals.len() as int) =~= vals);
        assert(buffer@ =~= buf0 + array_stmt(buf0, name@, vals));
    }
    uid
}

/// Writes two arrays to the buffer and returns the identifier of each.
pub fn write_arrays(
    buffer: &mut String,
    name_x: &str,
    name_y: &str,
    values_x: &Vec<String>,
    values_y: &Vec<String>,
) -> (uids: (String, String))
    ensures
        ({
            let b1 = old(buffer)@ + array_stmt(old(buffer)@, name_x@, values_x.deep_view());
            &&& uids.0@ == uid_of(old(buffer)@, name_x@)
            &&& uids.1@ == uid_of(b1, name_y@)
            &&& final(buffer)@ == b1 + array_stmt(b1, name_y@, values_y.deep_view())
        }),
{
    let uid_x = write_array(buffer, name_x, values_x);
    let uid_y = write_array(buffer, name_y, values_y);
    (uid_x, uid_y)
}

} // verus!
