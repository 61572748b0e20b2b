//! Names for the runtime: the parts of an action path, and the names under
//! which action sets and actions are created.
//!
//! The runtime takes names of at most 63 characters made of lowercase
//! letters, digits, `-`, `_` and `.`. A name with other characters has them
//! replaced by `_`; a name that is empty or too long is replaced by an
//! alias made from a hash of the name, so that the same name always gets
//! the same alias.

use crate::runtime::Hand;
use crate::strings::chars_of;
use crate::strings::concat;
use crate::strings::starts_with;
use crate::strings::starts_with_seq;
use vstd::prelude::*;
use vstd::utf8::encode_utf8;
use vstd::string::StrSliceExecFns;
use vstd::string::StringExecFns;

verus! {

/// The longest name that the runtime takes, in characters.
pub const MAX_NAME_LENGTH: usize = 63;

/// The longest localized name that is handed on unclipped, in bytes.
pub const MAX_LOCALIZED_BYTES: usize = 127;

/// The number of characters that a clipped localized name keeps.
pub const CLIPPED_LOCALIZED_LENGTH: usize = 31;

/// The first index from `from` on at which `s` holds `c`, or the length of
/// `s` if there is none.
pub open spec fn index_of(s: Seq<char>, c: char, from: int) -> int
    decreases s.len() - from,
{
    if from < 0 || from >= s.len() {
        s.len() as int
    } else if s[from] == c {
        from
    } else {
        index_of(s, c, from + 1)
    }
}

/// The index behind the last `c` in the first `end` characters of `s`, or
/// 0 if there is none.
pub open spec fn after_last(s: Seq<char>, c: char, end: int) -> int
    decreases end,
{
    if end <= 0 || end > s.len() {
        0
    } else if s[end - 1] == c {
        end
    } else {
        after_last(s, c, end - 1)
    }
}

/// Where the name of the action set ends in an action path: at the third
/// `/` of a path that begins with `/` and has two components that are not
/// empty in front of that `/`. `None` for any other path.
pub open spec fn set_end(path: Seq<char>) -> Option<int> {
    let second = index_of(path, '/', 1);
    let third = index_of(path, '/', second + 1);
    if path.len() > 0 && path[0] == '/' && 1 < second < path.len() && second + 1 < third
        < path.len() {
        Some(third)
    } else {
        None
    }
}

/// The name of the set that an action path belongs to (`/actions/main` for
/// `/actions/main/in/jump`), if the path has the form of an action path.
pub open spec fn set_name_of(path: Seq<char>) -> Option<Seq<char>> {
    match set_end(path) {
        Some(end) => Some(path.subrange(0, end)),
        None => None,
    }
}

/// The last component of a path: what follows its last `/`.
pub open spec fn leaf_of(path: Seq<char>) -> Seq<char> {
    path.subrange(after_last(path, '/', path.len() as int), path.len() as int)
}

fn find_char(s: &Vec<char>, c: char, from: usize) -> (r: usize)
    ensures
        r == index_of(s@, c, from as int),
        from <= s.len() ==> from <= r <= s.len(),
        from > s.len() ==> r == s.len(),
{
    if from >= s.len() {
        return s.len();
    }
    let mut i: usize = from;
    while i < s.len()
        invariant
            from <= i <= s.len(),
            index_of(s@, c, from as int) == index_of(s@, c, i as int),
        decreases s.len() - i,
    {
        if s[i] == c {
            return i;
        }
        i += 1;
    }
    i
}

fn find_after_last(s: &Vec<char>, c: char) -> (r: usize)
    ensures
        r == after_last(s@, c, s@.len() as int),
        r <= s.len(),
{
    let mut end: usize = s.len();
    while end > 0
        invariant
            end <= s.len(),
            after_last(s@, c, s@.len() as int) == after_last(s@, c, end as int),
        decreases end,
    {
        if s[end - 1] == c {
            return end;
        }
        end -= 1;
    }
    0
}

/// Reads the name of the set that an action path belongs to.
pub fn action_set_name(path: &str) -> (r: Option<String>)
    ensures
        r.is_some() == set_name_of(path@).is_some(),
        r.is_some() ==> r.unwrap()@ == set_name_of(path@).unwrap(),
{
    let chars = chars_of(path);
    let n: usize = chars.len();
    if n == 0 || chars[0] != '/' {
        return None;
    }
    let second: usize = find_char(&chars, '/', 1);
    if !(1 < second && second < n) {
        return None;
    }
    let third: usize = find_char(&chars, '/', second + 1);
    if !(second + 1 < third && third < n) {
        return None;
    }
    Some(String::from_str(path.substring_char(0, third)))
}

/// Reads the last component of a path.
pub fn leaf_name(path: &str) -> (r: String)
    ensures
        r@ == leaf_of(path@),
{
    let chars = chars_of(path);
    let start: usize = find_after_last(&chars, '/');
    String::from_str(path.substring_char(start, chars.len()))
}

/// The hand that a path under `/user/hand/left` or `/user/hand/right`
/// belongs to.
pub open spec fn hand_of(path: Seq<char>) -> Option<Hand> {
    if starts_with_seq(path, "/user/hand/left"@) {
        Some(Hand::Left)
    } else if starts_with_seq(path, "/user/hand/right"@) {
        Some(Hand::Right)
    } else {
        None
    }
}

/// Reads the hand that a path belongs to.
pub fn parse_hand_from_path(path: &str) -> (r: Option<Hand>)
    ensures
        r == hand_of(path@),
{
    if starts_with(path, "/user/hand/left") {
        Some(Hand::Left)
    } else if starts_with(path, "/user/hand/right") {
        Some(Hand::Right)
    } else {
        None
    }
}

/// The prefix that names the hand of a path, if it has one.
pub fn get_hand_prefix(path: &str) -> (r: Option<&'static str>)
    ensures
        r.is_some() == hand_of(path@).is_some(),
        hand_of(path@) == Some(Hand::Left) ==> r == Some("/user/hand/left"),
        hand_of(path@) == Some(Hand::Right) ==> r == Some("/user/hand/right"),
{
    if starts_with(path, "/user/hand/left") {
        Some("/user/hand/left")
    } else if starts_with(path, "/user/hand/right") {
        Some("/user/hand/right")
    } else {
        None
    }
}

/// True for the characters that the runtime takes in a name.
pub open spec fn allowed_char(c: char) -> bool {
    ('a' <= c && c <= 'z') || ('0' <= c && c <= '9') || c == '-' || c == '_'
}

/// `name` with every character that the runtime does not take replaced by
/// `_`.
pub open spec fn cleaned(name: Seq<char>) -> Seq<char> {
    name.map_values(|c: char| if allowed_char(c) { c } else { '_' })
}

/// The offset basis of the hash.
pub const HASH_BASIS: u64 = 0xcbf2_9ce4_8422_2325;

/// The prime of the hash.
pub const HASH_PRIME: u64 = 0x0000_0100_0000_01b3;

/// The hash of the first `n` characters of `name`: for each character in
/// turn, the hash so far is combined with the number of the character by
/// exclusive or and then multiplied by the prime, dropping what does not
/// fit 64 bits.
pub open spec fn name_hash(name: Seq<char>, n: int) -> u64
    decreases n,
{
    if n <= 0 || n > name.len() {
        HASH_BASIS
    } else {
        (((name_hash(name, n - 1) ^ (name[n - 1] as u64)) as int * HASH_PRIME as int)
            % 0x1_0000_0000_0000_0000) as u64
    }
}

/// The sixteen hexadecimal digits of `h`, from the digit `from` on (digit
/// 0 is the most significant).
pub open spec fn hex_digits(h: u64, from: int) -> Seq<char>
    decreases 16 - from,
{
    if from < 0 || from >= 16 {
        Seq::empty()
    } else {
        seq!["0123456789abcdef"@[((h >> ((15 - from) * 4) as u64) & 0xf) as int]] + hex_digits(
            h,
            from + 1,
        )
    }
}

/// The alias of a name that the runtime cannot take: `xrizer-` followed by
/// the hash of the name in sixteen hexadecimal digits.
pub open spec fn alias_of(name: Seq<char>) -> Seq<char> {
    "xrizer-"@ + hex_digits(name_hash(name, name.len() as int), 0)
}

/// The name under which something called `name` is created in the
/// runtime.
pub open spec fn sanitized(name: Seq<char>) -> Seq<char> {
    if name.len() == 0 || name.len() > MAX_NAME_LENGTH {
        alias_of(name)
    } else {
        cleaned(name)
    }
}

fn is_allowed(c: char) -> (r: bool)
    ensures
        r == allowed_char(c),
{
    ('a' <= c && c <= 'z') || ('0' <= c && c <= '9') || c == '-' || c == '_'
}

fn hash_chars(chars: &Vec<char>) -> (r: u64)
    ensures
        r == name_hash(chars@, chars@.len() as int),
{
    let mut h: u64 = HASH_BASIS;
    let mut i: usize = 0;
    while i < chars.len()
        invariant
            i <= chars.len(),
            h == name_hash(chars@, i as int),
        decreases chars.len() - i,
    {
        let c: u64 = chars[i] as u64;
        h = (h ^ c).wrapping_mul(HASH_PRIME);
        i += 1;
    }
    h
}

fn alias(chars: &Vec<char>) -> (r: String)
    ensures
        r@ == alias_of(chars@),
{
    let h: u64 = hash_chars(chars);
    let digits = "0123456789abcdef";
    proof {
        reveal_strlit("0123456789abcdef");
    }
    let mut out = String::from_str("xrizer-");
    let mut i: usize = 0;
    assert(out@ + hex_digits(h, 0) == alias_of(chars@));
    while i < 16
        invariant
            i <= 16,
            digits@.len() == 16,
            digits@ == "0123456789abcdef"@,
            out@ + hex_digits(h, i as int) == alias_of(chars@),
        decreases 16 - i,
    {
        let shift: u64 = ((15 - i) * 4) as u64;
        let d: u64 = (h >> shift) & 0xf;
        assert(d < 16) by (bit_vector)
            requires
                d == (h >> shift) & 0xf,
        ;
        let ghost before = out@;
        out.append(digits.substring_char(d as usize, d as usize + 1));
        assert(digits@.subrange(d as int, d + 1) =~= seq![digits@[d as int]]);
        i += 1;
        assert(out@ + hex_digits(h, i as int) =~= before + hex_digits(h, i - 1));
    }
    assert(hex_digits(h, 16) =~= Seq::<char>::empty());
    assert(out@ + Seq::<char>::empty() =~= out@);
    out
}

/// Makes the name under which something called `name` is created in the
/// runtime.
pub fn sanitize_name(name: &str) -> (r: String)
    ensures
        r@ == sanitized(name@),
{
    let chars = chars_of(name);
    let n: usize = chars.len();
    if n == 0 || n > MAX_NAME_LENGTH {
        return alias(&chars);
    }
    let mut out = String::new();
    let mut i: usize = 0;
    while i < n
        invariant
            n == chars.len(),
            chars@ == name@,
            i <= n,
            out@ == cleaned(name@.subrange(0, i as int)),
        decreases n - i,
    {
        let ghost before = out@;
        if is_allowed(chars[i]) {
            out.append(name.substring_char(i, i + 1));
            assert(name@.subrange(i as int, i + 1) =~= seq![name@[i as int]]);
        } else {
            out.append("_");
            proof {
                reveal_strlit("_");
            }
            assert("_"@ =~= seq!['_']);
        }
        i += 1;
        assert(out@ =~= cleaned(name@.subrange(0, i as int)));
    }
    assert(name@.subrange(0, n as int) =~= name@);
    out
}

/// The localized name that is handed to the runtime: `name` itself while
/// it takes at most 127 bytes, else its first 31 characters.
pub open spec fn clipped(name: Seq<char>) -> Seq<char> {
    if encode_utf8(name).len() <= MAX_LOCALIZED_BYTES || name.len() <= CLIPPED_LOCALIZED_LENGTH {
        name
    } else {
        name.subrange(0, CLIPPED_LOCALIZED_LENGTH as int)
    }
}

/// Clips a localized name to what the runtime takes.
pub fn clip_localized_name(name: &str) -> (r: String)
    ensures
        r@ == clipped(name@),
{
    let bytes = name.as_bytes();
    assert(bytes@ == encode_utf8(name@));
    if bytes.len() <= MAX_LOCALIZED_BYTES {
        return String::from_str(name);
    }
    let n: usize = name.unicode_len();
    if n <= CLIPPED_LOCALIZED_LENGTH {
        return String::from_str(name);
    }
    String::from_str(name.substring_char(0, CLIPPED_LOCALIZED_LENGTH))
}

/// The key of an extra action: the name of the action set, `/`, the
/// cleaned last component of the action path, and the suffix of the extra
/// action.
pub open spec fn extra_action_key(set_name: Seq<char>, action_path: Seq<char>, suffix: Seq<char>)
    -> Seq<char> {
    set_name + "/"@ + cleaned(leaf_of(action_path)) + suffix
}

/// Makes the cleaned last component of an action path.
pub fn cleaned_name(action_path: &str) -> (r: String)
    ensures
        r@ == cleaned(leaf_of(action_path@)),
{
    let leaf = leaf_name(action_path);
    let chars = chars_of(leaf.as_str());
    let n: usize = chars.len();
    let mut out = String::new();
    let mut i: usize = 0;
    while i < n
        invariant
            n == chars.len(),
            chars@ == leaf@,
            i <= n,
            out@ == cleaned(leaf@.subrange(0, i as int)),
        decreases n - i,
    {
        if is_allowed(chars[i]) {
            out.append(leaf.as_str().substring_char(i, i + 1));
            assert(leaf@.subrange(i as int, i + 1) =~= seq![leaf@[i as int]]);
        } else {
            out.append("_");
            proof {
                reveal_strlit("_");
            }
            assert("_"@ =~= seq!['_']);
        }
        i += 1;
        assert(out@ =~= cleaned(leaf@.subrange(0, i as int)));
    }
    assert(leaf@.subrange(0, n as int) =~= leaf@);
    out
}

/// Makes the key of an extra action.
pub fn make_extra_action_key(set_name: &str, action_path: &str, suffix: &str) -> (r: String)
    ensures
        r@ == extra_action_key(set_name@, action_path@, suffix@),
{
    let mut out = concat(set_name, "/");
    let name = cleaned_name(action_path);
    out.append(name.as_str());
    out.append(suffix);
    out
}

} // verus!
