//! Text helpers: decimal numbers, substring search, D-Bus object paths and
//! the lossy decoding of SSID bytes.
use vstd::prelude::*;
use vstd::utf8::{decode_utf8, valid_utf8};
use crate::error::NmError;

verus! {

/// The character of a decimal digit.
pub open spec fn digit_char(d: nat) -> char {
    if d == 0 {
        '0'
    } else if d == 1 {
        '1'
    } else if d == 2 {
        '2'
    } else if d == 3 {
        '3'
    } else if d == 4 {
        '4'
    } else if d == 5 {
        '5'
    } else if d == 6 {
        '6'
    } else if d == 7 {
        '7'
    } else if d == 8 {
        '8'
    } else {
        '9'
    }
}

/// The decimal representation of `n`, without leading zeros (`0` is "0").
pub open spec fn decimal(n: nat) -> Seq<char>
    decreases n,
{
    if n < 10 {
        seq![digit_char(n)]
    } else {
        decimal(n / 10) + seq![digit_char(n % 10)]
    }
}

fn digit_str(d: u64) -> (r: &'static str)
    requires
        d < 10,
    ensures
        r@ == seq![digit_char(d as nat)],
{
    proof {
        reveal_strlit("0");
        reveal_strlit("1");
        reveal_strlit("2");
        reveal_strlit("3");
        reveal_strlit("4");
        reveal_strlit("5");
        reveal_strlit("6");
        reveal_strlit("7");
        reveal_strlit("8");
        reveal_strlit("9");
    }
    if d == 0 {
        "0"
    } else if d == 1 {
        "1"
    } else if d == 2 {
        "2"
    } else if d == 3 {
        "3"
    } else if d == 4 {
        "4"
    } else if d == 5 {
        "5"
    } else if d == 6 {
        "6"
    } else if d == 7 {
        "7"
    } else if d == 8 {
        "8"
    } else {
        "9"
    }
}

/// Writes `n` in decimal, as `format!("{}", n)` does.
pub fn decimal_string(n: u64) -> (r: String)
    ensures
        r@ == decimal(n as nat),
{
    let mut r = String::from_str(digit_str(n % 10));
    let mut m: u64 = n / 10;
    assert(n < 10 ==> r@ == decimal(n as nat));
    while m > 0
        invariant
            m > 0 ==> decimal(n as nat) == decimal(m as nat) + r@,
            m == 0 ==> decimal(n as nat) == r@,
        decreases m,
    {
        let ghost old_r = r@;
        let d = digit_str(m % 10);
        r = String::from_str(d).concat(r.as_str());
        assert(decimal(m as nat) == (if m < 10 {
            seq![digit_char(m as nat)]
        } else {
            decimal((m / 10) as nat) + seq![digit_char((m % 10) as nat)]
        }));
        if m >= 10 {
            assert(decimal(n as nat) == decimal((m / 10) as nat) + r@);
        } else {
            assert(decimal(n as nat) == r@);
        }
        m = m / 10;
    }
    r
}

/// `needle` occurs in `hay` as a run of consecutive characters.
pub open spec fn contains_chars(hay: Seq<char>, needle: Seq<char>) -> bool {
    exists|i: int| 0 <= i && i + needle.len() <= hay.len() && #[trigger] hay.subrange(i, i + needle.len()) == needle
}

/// Substring search, as `str::contains` with a `&str` pattern.
pub fn str_contains(hay: &str, needle: &str) -> (r: bool)
    ensures
        r == contains_chars(hay@, needle@),
{
    let h = hay.unicode_len();
    let n = needle.unicode_len();
    if n > h {
        assert forall|i: int| 0 <= i && i + needle@.len() <= hay@.len() implies #[trigger] hay@.subrange(i, i + needle@.len()) != needle@ by {}
        return false;
    }
    let mut i: usize = 0;
    while i <= h - n
        invariant
            h == hay@.len(),
            n == needle@.len(),
            n <= h,
            i <= h - n + 1,
            forall|k: int| 0 <= k < i ==> #[trigger] hay@.subrange(k, k + n) != needle@,
        decreases h - n + 1 - i,
    {
        let mut j: usize = 0;
        let mut same = true;
        while j < n
            invariant
                h == hay@.len(),
                n == needle@.len(),
                i + n <= h,
                j <= n,
                same == (forall|t: int| 0 <= t < j ==> hay@[i + t] == needle@[t]),
            decreases n - j,
        {
            if hay.get_char(i + j) != needle.get_char(j) {
                same = false;
            }
            j = j + 1;
        }
        if same {
            assert(hay@.subrange(i as int, i + n) =~= needle@);
            return true;
        }
        assert(hay@.subrange(i as int, i + n) != needle@) by {
            let t = choose|t: int| 0 <= t < n && hay@[i + t] != needle@[t];
            assert(hay@.subrange(i as int, i + n)[t] == hay@[i + t]);
        }
        i = i + 1;
    }
    false
}

/// A D-Bus object path of NetworkManager, where the root path "/" stands for "none".
pub open spec fn object_path_option(path: Seq<char>) -> Option<Seq<char>> {
    if path == "/"@ {
        None
    } else {
        Some(path)
    }
}

/// Reads an object-path property: "/" means that nothing is referenced.
pub fn optional_object_path(path: &str) -> (r: Option<String>)
    ensures
        r is None <==> object_path_option(path@) is None,
        r matches Some(p) ==> object_path_option(path@) == Some(p@),
{
    proof {
        reveal_strlit("/");
    }
    if path.unicode_len() == 1 && path.get_char(0) == '/' {
        assert(path@ =~= "/"@);
        None
    } else {
        assert(path@ != "/"@);
        Some(String::from_str(path))
    }
}

/// A character that may stand in an element of a D-Bus object path: an ASCII
/// letter or digit, or `_`.
pub open spec fn path_element_char(c: char) -> bool {
    ('a' <= c && c <= 'z') || ('A' <= c && c <= 'Z') || ('0' <= c && c <= '9') || c == '_'
}

/// A D-Bus object path: `/` alone, or elements of letters, digits and `_`,
/// each after a `/`, with no empty element and no `/` at the end.
pub open spec fn valid_object_path(path: Seq<char>) -> bool {
    &&& path.len() >= 1
    &&& path[0] == '/'
    &&& path.len() > 1 ==> path[path.len() - 1] != '/'
    &&& forall|i: int| 0 <= i < path.len() ==> path[i] == '/' || path_element_char(#[trigger] path[i])
    &&& forall|i: int| 0 <= i < path.len() - 1 ==> !(#[trigger] path[i] == '/' && path[i + 1] == '/')
}

/// The reason zvariant gives for refusing an object path.
pub open spec fn invalid_object_path_reason() -> Seq<char> {
    "Invalid object path"@
}

/// Calls `zvariant::ObjectPath::try_from`, which accepts exactly the paths of
/// `valid_object_path` (the rules of its `validate`) and refuses any other
/// with `Error::InvalidObjectPath`, whose text this returns.
#[verifier::external_body]
fn parse_object_path(path: &str) -> (r: Result<(), String>)
    ensures
        r is Ok <==> valid_object_path(path@),
        r matches Err(reason) ==> reason@ == invalid_object_path_reason(),
{
    match zvariant::ObjectPath::try_from(path) {
        Ok(_) => Ok(()),
        Err(e) => Err(e.to_string()),
    }
}

/// The error for a refused object path of the kind `what`.
pub open spec fn invalid_path_error_text(what: Seq<char>) -> Seq<char> {
    "invalid "@ + what + " path: "@ + invalid_object_path_reason()
}

/// Checks an object path of the kind `what` ("device", "AP", ...) before it
/// is sent to NetworkManager. A refused path gives a property error
/// `invalid {what} path: {reason}`.
pub fn check_object_path(path: &str, what: &str) -> (r: Result<(), NmError>)
    ensures
        r is Ok <==> valid_object_path(path@),
        r matches Err(e) ==> e matches NmError::Property(m) && m@ == invalid_path_error_text(what@),
{
    match parse_object_path(path) {
        Ok(()) => Ok(()),
        Err(reason) => {
            let message = String::from_str("invalid ").concat(what).concat(" path: ").concat(
                reason.as_str(),
            );
            Err(NmError::Property(message))
        },
    }
}

/// The text that `String::from_utf8_lossy` makes of a byte string.
pub uninterp spec fn utf8_lossy(bytes: Seq<u8>) -> Seq<char>;

/// Calls `String::from_utf8_lossy`. The contract names its result
/// `utf8_lossy(bytes)` and states what its documentation gives: valid UTF-8 is
/// decoded unchanged, and the text is empty exactly when the bytes are (each
/// invalid sequence becomes U+FFFD). How invalid sequences are grouped is not stated.
#[verifier::external_body]
pub(crate) fn decode_utf8_lossy(bytes: &[u8]) -> (r: String)
    ensures
        r@ == utf8_lossy(bytes@),
        valid_utf8(bytes@) ==> r@ == decode_utf8(bytes@),
        r@.len() == 0 <==> bytes@.len() == 0,
{
    String::from_utf8_lossy(bytes).into_owned()
}

} // verus!

verus! {

/// The text of an optional string.
pub open spec fn opt_text(o: Option<String>) -> Option<Seq<char>> {
    match o {
        Some(s) => Some(s@),
        None => None,
    }
}

} // verus!
