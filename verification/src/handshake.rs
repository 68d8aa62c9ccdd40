//! The handshake record that the launcher leaves for the entrypoint, the name
//! of the file that carries it, and its text form.
//!
//! The text form is one JSON object on one line, with the members `username`,
//! `uid` and `ostree_based_host` in that order and no white space. In the
//! user name, the quotation mark, the reverse solidus and the control
//! characters are escaped; every other character stands for itself.

use crate::error::{ErrorModel, ToolboxError};
use crate::text::{
    chars_of, decimal, digit_char, digit_of, holds_at, lower_hex, matches_at, push_char,
    push_decimal, push_lower_hex, push_signed_decimal, signed_decimal, string_of,
};
use vstd::prelude::*;
use vstd::string::*;

verus! {

/// What the launcher knows of the invoking user and the host.
#[derive(Debug, Clone, PartialEq, Eq)]
pub struct HandshakeState {
    pub username: String,
    pub uid: u32,
    pub ostree_based_host: bool,
}

/// Mathematical value of a [`HandshakeState`].
pub struct HandshakeModel {
    pub username: Seq<char>,
    pub uid: u32,
    pub ostree_based_host: bool,
}

impl View for HandshakeState {
    type V = HandshakeModel;

    open spec fn view(&self) -> HandshakeModel {
        HandshakeModel {
            username: self.username@,
            uid: self.uid,
            ostree_based_host: self.ostree_based_host,
        }
    }
}

/// The name of the handshake file of the launcher with the given process id,
/// made unique by a random number.
pub open spec fn statefile_name_of(pid: i32, random: u32) -> Seq<char> {
    "toolbox-data-"@ + signed_decimal(pid as int) + "-"@ + lower_hex(random as nat)
}

/// Builds the name of the handshake file from the launcher's process id and a
/// random number.
pub fn statefile_name(pid: i32, random: u32) -> (name: String)
    ensures
        name@ == statefile_name_of(pid, random),
{
    let mut name = String::from_str("toolbox-data-");
    push_signed_decimal(&mut name, pid);
    name.append("-");
    push_lower_hex(&mut name, random);
    name
}

/// How one character of a user name is written in the text form.
pub open spec fn escaped_char(c: char) -> Seq<char> {
    if c == '"' {
        seq!['\\', '"']
    } else if c == '\\' {
        seq!['\\', '\\']
    } else if c == '\u{8}' {
        seq!['\\', 'b']
    } else if c == '\u{c}' {
        seq!['\\', 'f']
    } else if c == '\n' {
        seq!['\\', 'n']
    } else if c == '\r' {
        seq!['\\', 'r']
    } else if c == '\t' {
        seq!['\\', 't']
    } else if (c as int) < 32 {
        seq!['\\', 'u', '0', '0', digit_of(c as int / 16), digit_of(c as int % 16)]
    } else {
        seq![c]
    }
}

/// How a user name is written between its quotation marks.
pub open spec fn escaped(s: Seq<char>) -> Seq<char>
    decreases s.len(),
{
    if s.len() == 0 {
        Seq::empty()
    } else {
        escaped_char(s[0]) + escaped(s.drop_first())
    }
}

/// The text before the user name.
pub open spec fn name_key() -> Seq<char> {
    "{\"username\":"@
}

/// The text between the user name and the UID.
pub open spec fn uid_key() -> Seq<char> {
    ",\"uid\":"@
}

/// The text between the UID and the host flag.
pub open spec fn host_key() -> Seq<char> {
    ",\"ostree_based_host\":"@
}

/// The text of the host flag, with the brace that closes the record.
pub open spec fn flag_text(b: bool) -> Seq<char> {
    if b {
        "true}"@
    } else {
        "false}"@
    }
}

/// The text form of a handshake record.
pub open spec fn encoding(m: HandshakeModel) -> Seq<char> {
    name_key() + seq!['"'] + escaped(m.username) + seq!['"'] + uid_key() + decimal(m.uid as nat)
        + host_key() + flag_text(m.ostree_based_host)
}

/// The record that a text is the text form of, if it is the text form of one.
pub open spec fn decoding(text: Seq<char>) -> Option<HandshakeModel> {
    if exists|m: HandshakeModel| encoding(m) == text {
        Some(choose|m: HandshakeModel| encoding(m) == text)
    } else {
        None
    }
}

/// Writing one more character of a name appends what that character is written as.
proof fn lemma_escaped_push(s: Seq<char>, c: char)
    ensures
        escaped(s.push(c)) == escaped(s) + escaped_char(c),
    decreases s.len(),
{
    if s.len() == 0 {
        assert(s.push(c).drop_first() =~= Seq::<char>::empty());
        assert(escaped(s.push(c).drop_first()) =~= Seq::<char>::empty());
        assert(escaped(s) =~= Seq::<char>::empty());
        assert(escaped(s.push(c)) =~= escaped(s) + escaped_char(c));
    } else {
        assert(s.push(c).drop_first() =~= s.drop_first().push(c));
        lemma_escaped_push(s.drop_first(), c);
        assert(escaped(s.push(c)) =~= escaped(s) + escaped_char(c));
    }
}

/// Appends one character of a user name as the text form writes it.
fn push_escaped_char(out: &mut String, c: char)
    ensures
        final(out)@ == old(out)@ + escaped_char(c),
{
    let code: u32 = c as u32;
    if c == '"' {
        out.append("\\\"");
        proof {
            reveal_strlit("\\\"");
            assert("\\\""@ =~= seq!['\\', '"']);
        }
    } else if c == '\\' {
        out.append("\\\\");
        proof {
            reveal_strlit("\\\\");
            assert("\\\\"@ =~= seq!['\\', '\\']);
        }
    } else if code == 8 {
        out.append("\\b");
        proof {
            reveal_strlit("\\b");
            assert("\\b"@ =~= seq!['\\', 'b']);
        }
    } else if code == 12 {
        out.append("\\f");
        proof {
            reveal_strlit("\\f");
            assert("\\f"@ =~= seq!['\\', 'f']);
        }
    } else if code == 10 {
        out.append("\\n");
        proof {
            reveal_strlit("\\n");
            assert("\\n"@ =~= seq!['\\', 'n']);
        }
    } else if code == 13 {
        out.append("\\r");
        proof {
            reveal_strlit("\\r");
            assert("\\r"@ =~= seq!['\\', 'r']);
        }
    } else if code == 9 {
        out.append("\\t");
        proof {
            reveal_strlit("\\t");
            assert("\\t"@ =~= seq!['\\', 't']);
        }
    } else if code < 32 {
        out.append("\\u00");
        push_char(out, digit_char((code / 16) as u8));
        push_char(out, digit_char((code % 16) as u8));
        proof {
            reveal_strlit("\\u00");
            assert("\\u00"@ =~= seq!['\\', 'u', '0', '0']);
            assert(final(out)@ =~= old(out)@ + escaped_char(c));
        }
    } else {
        push_char(out, c);
        assert(final(out)@ =~= old(out)@ + escaped_char(c));
    }
}

impl HandshakeState {
    /// The text form of the record.
    pub fn encode(&self) -> (text: String)
        ensures
            text@ == encoding(self@),
            decoding(text@) == Some(self@),
    {
        let name = chars_of(self.username.as_str());
        let mut text = String::from_str("{\"username\":");
        push_char(&mut text, '"');
        let ghost start = text@;
        let mut i: usize = 0;
        while i < name.len()
            invariant
                i <= name.len(),
                text@ == start + escaped(name@.take(i as int)),
            decreases name.len() - i,
        {
            push_escaped_char(&mut text, name[i]);
            proof {
                lemma_escaped_push(name@.take(i as int), name@[i as int]);
                assert(name@.take(i + 1) =~= name@.take(i as int).push(name@[i as int]));
                assert(text@ =~= start + escaped(name@.take(i + 1)));
            }
            i = i + 1;
        }
        assert(name@.take(name.len() as int) =~= name@);
        push_char(&mut text, '"');
        text.append(",\"uid\":");
        push_decimal(&mut text, self.uid);
        text.append(",\"ostree_based_host\":");
        if self.ostree_based_host {
            text.append("true}");
        } else {
            text.append("false}");
        }
        assert(text@ =~= encoding(self@));
        proof {
            decoding_inverts_encoding(self@);
        }
        text
    }
}

/// Whether a character is a decimal digit.
spec fn is_digit(c: char) -> bool {
    48 <= c as int <= 57
}

/// The value of a hexadecimal digit written in lower case.
spec fn hex_value(c: char) -> Option<int> {
    if is_digit(c) {
        Some(c as int - 48)
    } else if 97 <= c as int <= 102 {
        Some(c as int - 87)
    } else {
        None
    }
}

/// The number that a run of decimal digits writes.
spec fn digits_value(s: Seq<char>) -> nat
    decreases s.len(),
{
    if s.len() == 0 {
        0
    } else {
        (digits_value(s.drop_last()) * 10 + (s.last() as int - 48)) as nat
    }
}

/// The first position at or after `i` that holds no decimal digit.
spec fn digits_end(t: Seq<char>, i: int) -> int
    decreases t.len() - i,
{
    if 0 <= i < t.len() && is_digit(t[i]) {
        digits_end(t, i + 1)
    } else {
        i
    }
}

/// The character that the escape at position `i` stands for, and the number
/// of characters that the escape takes.
spec fn escape_at(t: Seq<char>, i: int) -> Option<(char, int)> {
    if i < 0 || i + 1 >= t.len() {
        None
    } else if t[i + 1] == '"' {
        Some(('"', 2int))
    } else if t[i + 1] == '\\' {
        Some(('\\', 2int))
    } else if t[i + 1] == 'b' {
        Some(('\u{8}', 2int))
    } else if t[i + 1] == 'f' {
        Some(('\u{c}', 2int))
    } else if t[i + 1] == 'n' {
        Some(('\n', 2int))
    } else if t[i + 1] == 'r' {
        Some(('\r', 2int))
    } else if t[i + 1] == 't' {
        Some(('\t', 2int))
    } else if t[i + 1] == 'u' && i + 5 < t.len() && t[i + 2] == '0' && t[i + 3] == '0'
        && hex_value(t[i + 4]) is Some && hex_value(t[i + 5]) is Some {
        Some(((hex_value(t[i + 4])->0 * 16 + hex_value(t[i + 5])->0) as char, 6int))
    } else {
        None
    }
}

/// The character written at position `i` inside quotation marks, and the
/// number of characters that it takes.
spec fn char_at(t: Seq<char>, i: int) -> Option<(char, int)> {
    if i < 0 || i >= t.len() {
        None
    } else if t[i] == '\\' {
        escape_at(t, i)
    } else {
        Some((t[i], 1int))
    }
}

/// The name written from position `i` up to the next quotation mark, and the
/// position after that mark.
spec fn scan_name(t: Seq<char>, i: int) -> Option<(Seq<char>, int)>
    decreases t.len() - i,
{
    if i < 0 || i >= t.len() {
        None
    } else if t[i] == '"' {
        Some((Seq::empty(), i + 1))
    } else {
        match char_at(t, i) {
            None => None,
            Some((c, w)) => if w < 1 {
                None
            } else {
                match scan_name(t, i + w) {
                    None => None,
                    Some((rest, end)) => Some((seq![c] + rest, end)),
                }
            },
        }
    }
}

/// A scanned name with `before` put in front of it.
spec fn prepend(before: Seq<char>, scanned: Option<(Seq<char>, int)>) -> Option<
    (Seq<char>, int),
> {
    match scanned {
        None => None,
        Some((rest, end)) => Some((before + rest, end)),
    }
}

/// The record that a text is read as, member by member. A text can be read
/// as a record without being the text form of it.
spec fn reading(t: Seq<char>) -> Option<HandshakeModel> {
    let a = name_key().len() as int;
    if !holds_at(t, 0, name_key()) || a >= t.len() || t[a] != '"' {
        None
    } else {
        match scan_name(t, a + 1) {
            None => None,
            Some((name, b)) => {
                let c = b + uid_key().len();
                let d = digits_end(t, c);
                if !holds_at(t, b, uid_key()) || d <= c || d > t.len() || digits_value(
                    t.subrange(c, d),
                ) > u32::MAX || !holds_at(t, d, host_key()) {
                    None
                } else {
                    let e = d + host_key().len();
                    if holds_at(t, e, flag_text(true)) && e + flag_text(true).len() == t.len() {
                        Some(
                            HandshakeModel {
                                username: name,
                                uid: digits_value(t.subrange(c, d)) as u32,
                                ostree_based_host: true,
                            },
                        )
                    } else if holds_at(t, e, flag_text(false)) && e + flag_text(false).len()
                        == t.len() {
                        Some(
                            HandshakeModel {
                                username: name,
                                uid: digits_value(t.subrange(c, d)) as u32,
                                ostree_based_host: false,
                            },
                        )
                    } else {
                        None
                    }
                }
            },
        }
    }
}

/// A written character is read back as itself.
proof fn lemma_char_read_back(t: Seq<char>, i: int, c: char)
    requires
        holds_at(t, i, escaped_char(c)),
    ensures
        c != '"' ==> t[i] != '"',
        char_at(t, i) == Some((c, escaped_char(c).len() as int)),
        escaped_char(c).len() >= 1,
{
    let e = escaped_char(c);
    let part = t.subrange(i, i + e.len());
    assert(part == e);
    assert(forall|k: int| 0 <= k < e.len() ==> t[i + k] == #[trigger] part[k]);
    assert(t[i] == part[0]);
    if c == '"' || c == '\\' || c == '\u{8}' || c == '\u{c}' || c == '\n' || c == '\r' || c
        == '\t' {
        assert(t[i + 1] == part[1]);
    } else if (c as int) < 32 {
        assert(t[i + 1] == part[1]);
        assert(t[i + 2] == part[2]);
        assert(t[i + 3] == part[3]);
        assert(t[i + 4] == part[4]);
        assert(t[i + 5] == part[5]);
        let hi = c as int / 16;
        let lo = c as int % 16;
        assert(hex_value(digit_of(hi)) == Some(hi));
        assert(hex_value(digit_of(lo)) == Some(lo));
        assert((hi * 16 + lo) as char == c);
    } else {
    }
}

/// A written name, followed by a quotation mark, is read back as itself.
proof fn lemma_name_read_back(t: Seq<char>, i: int, s: Seq<char>)
    requires
        holds_at(t, i, escaped(s).push('"')),
    ensures
        scan_name(t, i) == Some((s, i + escaped(s).len() + 1)),
    decreases s.len(),
{
    let whole = escaped(s).push('"');
    assert(t.subrange(i, i + whole.len()) == whole);
    if s.len() == 0 {
        assert(escaped(s) =~= Seq::<char>::empty());
        assert(t[i] == t.subrange(i, i + whole.len())[0]);
    } else {
        let c = s[0];
        let e = escaped_char(c);
        let rest = s.drop_first();
        assert(whole =~= e + escaped(rest).push('"'));
        assert(t.subrange(i, i + e.len()) =~= whole.subrange(0, e.len() as int));
        assert(whole.subrange(0, e.len() as int) =~= e);
        lemma_char_read_back(t, i, c);
        assert(t.subrange(i + e.len(), i + whole.len()) =~= whole.subrange(
            e.len() as int,
            whole.len() as int,
        ));
        assert(whole.subrange(e.len() as int, whole.len() as int) =~= escaped(rest).push('"'));
        lemma_name_read_back(t, i + e.len(), rest);
        assert(seq![c] + rest =~= s);
        if c == '"' {
            assert(t[i] == '\\');
        }
    }
}

/// A decimal numeral holds digits only, at least one, and writes its number.
proof fn lemma_decimal_read_back(n: nat)
    ensures
        decimal(n).len() >= 1,
        forall|k: int| 0 <= k < decimal(n).len() ==> is_digit(#[trigger] decimal(n)[k]),
        digits_value(decimal(n)) == n,
    decreases n,
{
    if n < 10 {
        assert(decimal(n).drop_last() =~= Seq::<char>::empty());
        assert(digits_value(decimal(n).drop_last()) == 0);
    } else {
        lemma_decimal_read_back(n / 10);
        assert(decimal(n).drop_last() =~= decimal(n / 10));
    }
}

/// A run of digits that starts at `i` ends where the first other character stands.
proof fn lemma_digits_end(t: Seq<char>, i: int, j: int)
    requires
        0 <= i <= j <= t.len(),
        forall|k: int| i <= k < j ==> is_digit(#[trigger] t[k]),
        j == t.len() || !is_digit(t[j]),
    ensures
        digits_end(t, i) == j,
    decreases j - i,
{
    if i < j {
        lemma_digits_end(t, i + 1, j);
    }
}

/// The text form of a record is read as that record.
proof fn lemma_reading_of_encoding(m: HandshakeModel)
    ensures
        reading(encoding(m)) == Some(m),
{
    let t = encoding(m);
    let quote = seq!['"'];
    let name = escaped(m.username);
    let number = decimal(m.uid as nat);
    let flag = flag_text(m.ostree_based_host);
    let a = name_key().len() as int;
    let b = a + 1 + name.len() + 1;
    let c = b + uid_key().len();
    let d = c + number.len();
    let e = d + host_key().len();
    reveal_strlit("true}");
    reveal_strlit("false}");
    reveal_strlit(",\"ostree_based_host\":");
    lemma_decimal_read_back(m.uid as nat);
    assert(t.len() == e + flag.len());
    assert(t.subrange(0, a) =~= name_key());
    assert(t[a] == '"');
    assert(t.subrange(a + 1, a + 1 + name.push('"').len()) =~= name.push('"'));
    lemma_name_read_back(t, a + 1, m.username);
    assert(t.subrange(b, c) =~= uid_key());
    assert(t.subrange(c, d) =~= number);
    assert(forall|k: int| c <= k < d ==> t[k] == number[k - c]);
    assert(t[d] == host_key()[0]);
    lemma_digits_end(t, c, d);
    assert(t.subrange(d, e) =~= host_key());
    assert(t.subrange(e, e + flag.len()) =~= flag);
    if m.ostree_based_host {
    } else {
        assert(t[e] == 'f');
        assert(!holds_at(t, e, flag_text(true))) by {
            if holds_at(t, e, flag_text(true)) {
                assert(t.subrange(e, e + 5)[0] == 't');
            }
        }
    }
}

/// Two records with the same text form are the same record.
pub proof fn encoding_is_injective(a: HandshakeModel, b: HandshakeModel)
    requires
        encoding(a) == encoding(b),
    ensures
        a == b,
{
    lemma_reading_of_encoding(a);
    lemma_reading_of_encoding(b);
}

/// Reading back the text form of a record yields that record, whatever the
/// user name, the UID and the host flag are.
pub proof fn decoding_inverts_encoding(m: HandshakeModel)
    ensures
        decoding(encoding(m)) == Some(m),
{
    let found = choose|x: HandshakeModel| encoding(x) == encoding(m);
    encoding_is_injective(found, m);
}

/// A text is read back as a record only if it is the text form of that record.
pub proof fn decoding_is_exact(text: Seq<char>, m: HandshakeModel)
    ensures
        decoding(text) == Some(m) <==> text == encoding(m),
{
    if text == encoding(m) {
        decoding_inverts_encoding(m);
    }
}

/// The value of a hexadecimal digit written in lower case.
fn hex_digit(c: char) -> (v: Option<u8>)
    ensures
        match hex_value(c) {
            Some(x) => v == Some(x as u8) && 0 <= x < 16,
            None => v is None,
        },
{
    let code: u32 = c as u32;
    if 48 <= code && code <= 57 {
        Some((code - 48) as u8)
    } else if 97 <= code && code <= 102 {
        Some((code - 87) as u8)
    } else {
        None
    }
}

/// The value of a decimal digit.
fn decimal_digit(c: char) -> (v: Option<u32>)
    ensures
        is_digit(c) ==> v == Some((c as int - 48) as u32) && c as int - 48 < 10,
        !is_digit(c) ==> v is None,
{
    let code: u32 = c as u32;
    if 48 <= code && code <= 57 {
        Some(code - 48)
    } else {
        None
    }
}

/// Reads the character written at position `i` inside quotation marks.
fn read_char(t: &Vec<char>, i: usize) -> (r: Option<(char, usize)>)
    requires
        i < t.len(),
    ensures
        match char_at(t@, i as int) {
            Some((c, w)) => r == Some((c, w as usize)) && 1 <= w && i + w <= t.len(),
            None => r is None,
        },
{
    if t[i] != '\\' {
        return Some((t[i], 1));
    }
    if t.len() - i < 2 {
        return None;
    }
    let kind = t[i + 1];
    if kind == '"' {
        Some(('"', 2))
    } else if kind == '\\' {
        Some(('\\', 2))
    } else if kind == 'b' {
        Some(('\u{8}', 2))
    } else if kind == 'f' {
        Some(('\u{c}', 2))
    } else if kind == 'n' {
        Some(('\n', 2))
    } else if kind == 'r' {
        Some(('\r', 2))
    } else if kind == 't' {
        Some(('\t', 2))
    } else if kind == 'u' && t.len() - i > 5 && t[i + 2] == '0' && t[i + 3] == '0' {
        match (hex_digit(t[i + 4]), hex_digit(t[i + 5])) {
            (Some(hi), Some(lo)) => Some(((hi * 16 + lo) as char, 6)),
            _ => None,
        }
    } else {
        None
    }
}

/// Reads the name written from position `i` up to the next quotation mark.
fn read_name(t: &Vec<char>, i: usize) -> (r: Option<(Vec<char>, usize)>)
    ensures
        match scan_name(t@, i as int) {
            Some((name, end)) => match r {
                Some((found, stop)) => found@ == name && stop == end && end <= t.len(),
                None => false,
            },
            None => r is None,
        },
{
    let mut name: Vec<char> = Vec::new();
    let mut j: usize = i;
    while j < t.len()
        invariant
            i <= j,
            scan_name(t@, i as int) == prepend(name@, scan_name(t@, j as int)),
        decreases t.len() - j,
    {
        if t[j] == '"' {
            assert(name@ + Seq::<char>::empty() =~= name@);
            return Some((name, j + 1));
        }
        match read_char(t, j) {
            None => {
                return None;
            },
            Some((c, w)) => {
                proof {
                    let ahead = scan_name(t@, j + w);
                    if ahead is Some {
                        let rest = ahead.unwrap().0;
                        assert(name@ + (seq![c] + rest) =~= name@.push(c) + rest);
                    }
                }
                name.push(c);
                j = j + w;
            },
        }
    }
    None
}

/// Reads the run of digits that starts at position `i`: the number it writes
/// and the position after it. A run that is empty or writes more than a UID
/// can hold is not read.
fn read_number(t: &Vec<char>, i: usize) -> (r: Option<(u32, usize)>)
    requires
        i <= t.len(),
    ensures
        ({
            let end = digits_end(t@, i as int);
            let value = digits_value(t@.subrange(i as int, end));
            if i < end <= t.len() && value <= u32::MAX {
                r == Some((value as u32, end as usize))
            } else {
                r is None
            }
        }),
{
    let mut j: usize = i;
    let mut value: u32 = 0;
    let mut fits: bool = true;
    loop
        invariant
            i <= j <= t.len(),
            digits_end(t@, i as int) == digits_end(t@, j as int),
            forall|k: int| i <= k < j ==> is_digit(#[trigger] t@[k]),
            fits ==> value == digits_value(t@.subrange(i as int, j as int)),
            !fits ==> digits_value(t@.subrange(i as int, j as int)) > u32::MAX,
        ensures
            j == t.len() || !is_digit(t@[j as int]),
        decreases t.len() - j,
    {
        if j >= t.len() {
            break ;
        }
        let digit: u32 = match decimal_digit(t[j]) {
            Some(digit) => digit,
            None => {
                break ;
            },
        };
        proof {
            let longer = t@.subrange(i as int, j + 1);
            assert(longer.drop_last() =~= t@.subrange(i as int, j as int));
            assert(longer.last() == t@[j as int]);
        }
        if fits && value <= (u32::MAX - digit) / 10 {
            value = value * 10 + digit;
        } else {
            fits = false;
        }
        j = j + 1;
    }
    if j > i && fits {
        Some((value, j))
    } else {
        None
    }
}

/// Reads a text as a record, member by member.
fn read(t: &Vec<char>) -> (r: Option<HandshakeState>)
    ensures
        match reading(t@) {
            Some(m) => r is Some && r->0@ == m,
            None => r is None,
        },
{
    let name_key = chars_of("{\"username\":");
    let uid_key = chars_of(",\"uid\":");
    let host_key = chars_of(",\"ostree_based_host\":");
    let yes = chars_of("true}");
    let no = chars_of("false}");
    let a = name_key.len();
    if !matches_at(t, 0, &name_key) || a >= t.len() || t[a] != '"' {
        return None;
    }
    let (name, b) = match read_name(t, a + 1) {
        None => {
            return None;
        },
        Some(found) => found,
    };
    if !matches_at(t, b, &uid_key) {
        return None;
    }
    let c = b + uid_key.len();
    let (uid, d) = match read_number(t, c) {
        None => {
            return None;
        },
        Some(found) => found,
    };
    if !matches_at(t, d, &host_key) {
        return None;
    }
    let e = d + host_key.len();
    let ostree_based_host = if matches_at(t, e, &yes) && t.len() - e == yes.len() {
        true
    } else if matches_at(t, e, &no) && t.len() - e == no.len() {
        false
    } else {
        return None;
    };
    Some(HandshakeState { username: string_of(&name), uid, ostree_based_host })
}

/// Reads a record back from its text form. A text that is not the text form
/// of a record is refused.
pub fn decode(text: &str) -> (r: Result<HandshakeState, ToolboxError>)
    ensures
        match decoding(text@) {
            Some(m) => r is Ok && r->Ok_0@ == m,
            None => r is Err && r->Err_0@ == ErrorModel::HandshakeParseError,
        },
{
    let t = chars_of(text);
    match read(&t) {
        None => {
            proof {
                assert forall|m: HandshakeModel| encoding(m) != text@ by {
                    lemma_reading_of_encoding(m);
                }
            }
            Err(ToolboxError::HandshakeParseError)
        },
        Some(state) => {
            let again = state.encode();
            let given = String::from_str(text);
            if again == given {
                proof {
                    decoding_is_exact(text@, state@);
                }
                Ok(state)
            } else {
                proof {
                    assert forall|m: HandshakeModel| encoding(m) != text@ by {
                        lemma_reading_of_encoding(m);
                    }
                }
                Err(ToolboxError::HandshakeParseError)
            }
        },
    }
}

} // verus!
