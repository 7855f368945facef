//! Parsing of Fastboot command lines: a verb, optionally followed by one
//! argument, already split on the first `:`.

use vstd::prelude::*;
use vstd::string::StringSliceAdditionalSpecFns;

verus! {

/// A command the device accepts, as produced by the parser.
#[derive(Clone, Debug)]
pub enum FastbootCmd {
    Getvar(String),
    Download(u32),
    Upload,
    Flash(String),
    Erase(String),
    Boot,
    Continue,
    Reboot,
    RebootBootloader,
}

/// Compare two string slices: true exactly when their character
/// sequences are equal. UTF-8 encoding is injective, so comparing the
/// byte encodings decides equality of the characters.
pub(crate) fn str_eq(a: &str, b: &str) -> (r: bool)
    ensures
        r == (a@ == b@),
{
    let ab = a.as_bytes();
    let bb = b.as_bytes();
    let n = ab.len();
    if n != bb.len() {
        proof {
            if a@ == b@ {
                assert(a.spec_bytes() =~= b.spec_bytes());
            }
        }
        return false;
    }
    let mut i: usize = 0;
    while i < n
        invariant
            i <= n,
            n == ab@.len(),
            n == bb@.len(),
            ab@ == a.spec_bytes(),
            bb@ == b.spec_bytes(),
            forall|j: int| 0 <= j < i ==> ab@[j] == bb@[j],
        decreases n - i,
    {
        if ab[i] != bb[i] {
            proof {
                if a@ == b@ {
                    assert(a.spec_bytes() =~= b.spec_bytes());
                }
            }
            return false;
        }
        i = i + 1;
    }
    proof {
        assert(a.spec_bytes() =~= b.spec_bytes());
        vstd::utf8::encode_utf8_decode_utf8(a@);
        vstd::utf8::encode_utf8_decode_utf8(b@);
    }
    true
}

/// Is `c` an ASCII hexadecimal digit?
pub open spec fn is_hex_digit(c: char) -> bool {
    (48 <= c as u32 && c as u32 <= 57)  // '0'..='9'
    || (97 <= c as u32 && c as u32 <= 102)  // 'a'..='f'
    || (65 <= c as u32 && c as u32 <= 70)  // 'A'..='F'
}

/// The numeric value of a hexadecimal digit.
pub open spec fn hex_digit_val(c: char) -> int {
    if 48 <= c as u32 && c as u32 <= 57 {
        c as u32 - 48
    } else if 97 <= c as u32 && c as u32 <= 102 {
        c as u32 - 87
    } else {
        c as u32 - 55
    }
}

/// The digit part of a hex numeral: an optional leading `+` is skipped.
pub open spec fn hex_digits_of(s: Seq<char>) -> Seq<char> {
    if s.len() > 0 && s[0] == '+' {
        s.skip(1)
    } else {
        s
    }
}

pub open spec fn all_hex_digits(s: Seq<char>) -> bool {
    forall|i: int| 0 <= i < s.len() ==> is_hex_digit(#[trigger] s[i])
}

/// The value of a sequence of hex digits, most significant first.
pub open spec fn hex_value(s: Seq<char>) -> int
    decreases s.len(),
{
    if s.len() == 0 {
        0
    } else {
        16 * hex_value(s.drop_last()) + hex_digit_val(s.last())
    }
}

/// Does `s` denote an unsigned 32-bit hexadecimal integer?
pub open spec fn valid_hex_u32(s: Seq<char>) -> bool {
    let d = hex_digits_of(s);
    d.len() > 0 && all_hex_digits(d) && hex_value(d) <= u32::MAX
}

/// The argument string's characters, if an argument was given.
pub open spec fn arg_view(param: Option<String>) -> Option<Seq<char>> {
    match param {
        Some(p) => Some(p@),
        None => None,
    }
}

/// When parsing succeeds: `download` needs a hex size, `getvar`, `flash`
/// and `erase` a non-empty argument, the remaining verbs nothing.
pub open spec fn spec_parse_ok(verb: Seq<char>, arg: Option<Seq<char>>) -> bool {
    if verb == "download"@ {
        arg matches Some(a) && valid_hex_u32(a)
    } else if verb == "getvar"@ || verb == "flash"@ || verb == "erase"@ {
        arg matches Some(a) && a.len() > 0
    } else {
        verb == "reboot"@ || verb == "boot"@ || verb == "continue"@ || verb == "upload"@
            || verb == "reboot-bootloader"@
    }
}

/// Which command a successful parse yields.
pub open spec fn spec_parsed_cmd(verb: Seq<char>, arg: Option<Seq<char>>, c: FastbootCmd) -> bool {
    match c {
        FastbootCmd::Getvar(n) => verb == "getvar"@ && arg == Some(n@),
        FastbootCmd::Download(size) => verb == "download"@ && (arg matches Some(a)
            && hex_value(hex_digits_of(a)) == size),
        FastbootCmd::Upload => verb == "upload"@,
        FastbootCmd::Flash(n) => verb == "flash"@ && arg == Some(n@),
        FastbootCmd::Erase(n) => verb == "erase"@ && arg == Some(n@),
        FastbootCmd::Boot => verb == "boot"@,
        FastbootCmd::Continue => verb == "continue"@,
        FastbootCmd::Reboot => verb == "reboot"@,
        FastbootCmd::RebootBootloader => verb == "reboot-bootloader"@,
    }
}

/// Which error message a failed parse yields.
pub open spec fn spec_parse_err(verb: Seq<char>, arg: Option<Seq<char>>) -> Seq<char> {
    if verb == "download"@ {
        if arg is None {
            "Missing size parameter"@
        } else {
            "Failed to parse size as u32"@
        }
    } else if verb == "getvar"@ || verb == "flash"@ || verb == "erase"@ {
        "Missing parameter"@
    } else {
        "Unknown command"@
    }
}

proof fn lemma_hex_value_nonneg(s: Seq<char>)
    requires
        all_hex_digits(s),
    ensures
        hex_value(s) >= 0,
    decreases s.len(),
{
    if s.len() > 0 {
        assert(all_hex_digits(s.drop_last()));
        lemma_hex_value_nonneg(s.drop_last());
    }
}

/// The value of a longer prefix of a hex numeral is never smaller.
proof fn lemma_hex_prefix_le(s: Seq<char>, k: int)
    requires
        0 <= k <= s.len(),
        all_hex_digits(s),
    ensures
        hex_value(s.take(k)) <= hex_value(s),
    decreases s.len() - k,
{
    if k < s.len() {
        assert(s.take(k + 1).drop_last() =~= s.take(k));
        assert(s.take(k + 1).last() == s[k]);
        assert(all_hex_digits(s.take(k)));
        lemma_hex_value_nonneg(s.take(k));
        assert(hex_value(s.take(k + 1)) == 16 * hex_value(s.take(k)) + hex_digit_val(s[k]));
        lemma_hex_prefix_le(s, k + 1);
    } else {
        assert(s.take(k) =~= s);
    }
}

/// Parse the digits of `s` as an unsigned 32-bit hexadecimal integer.
fn parse_hex_u32(s: &str) -> (r: Option<u32>)
    ensures
        r is Some <==> valid_hex_u32(s@),
        r matches Some(v) ==> v == hex_value(hex_digits_of(s@)),
{
    let n = s.unicode_len();
    if n == 0 {
        return None;
    }
    let first = s.get_char(0);
    let start: usize = if first == '+' {
        1
    } else {
        0
    };
    let ghost d: Seq<char> = hex_digits_of(s@);
    proof {
        assert(d =~= s@.skip(start as int));
    }
    if start >= n {
        assert(d.len() == 0);
        return None;
    }
    let mut val: u32 = 0;
    let mut i: usize = start;
    while i < n
        invariant
            start <= i <= n,
            n == s@.len(),
            start < n,
            d == s@.skip(start as int),
            d == hex_digits_of(s@),
            all_hex_digits(d.take(i - start)),
            val == hex_value(d.take(i - start)),
        decreases n - i,
    {
        let ghost k: int = i - start;
        let c = s.get_char(i);
        proof {
            assert(d[k] == s@[i as int]);
        }
        let u = c as u32;
        let dv: u32 = if 48 <= u && u <= 57 {
            u - 48
        } else if 97 <= u && u <= 102 {
            u - 87
        } else if 65 <= u && u <= 70 {
            u - 55
        } else {
            proof {
                assert(!is_hex_digit(d[k]));
            }
            return None;
        };
        assert(is_hex_digit(c) && dv == hex_digit_val(c));
        if val > 0x0fff_ffff {
            proof {
                if all_hex_digits(d) {
                    assert(d.take(k + 1).drop_last() =~= d.take(k));
                    assert(d.take(k + 1).last() == d[k]);
                    assert(hex_value(d.take(k + 1)) == 16 * hex_value(d.take(k)) + hex_digit_val(
                        d[k],
                    ));
                    lemma_hex_prefix_le(d, k + 1);
                    assert(hex_value(d) > u32::MAX);
                }
            }
            return None;
        }
        val = val * 16 + dv;
        i = i + 1;
        proof {
            assert(d.take(k + 1).drop_last() =~= d.take(k));
            assert(d.take(k + 1).last() == d[k]);
        }
    }
    proof {
        assert(d.take(n - start) =~= d);
    }
    Some(val)
}

/// Map a verb and optional argument to a typed command, or to a parse
/// error naming what was wrong. Pure: no I/O, no side effects.
pub fn parse(cmd: &str, param: Option<String>) -> (r: Result<FastbootCmd, &'static str>)
    ensures
        r is Ok <==> spec_parse_ok(cmd@, arg_view(param)),
        r matches Ok(c) ==> spec_parsed_cmd(cmd@, arg_view(param), c),
        r matches Err(e) ==> e@ == spec_parse_err(cmd@, arg_view(param)),
{
    if str_eq(cmd, "download") {
        match param {
            None => Err("Missing size parameter"),
            Some(p) => match parse_hex_u32(p.as_str()) {
                Some(size) => Ok(FastbootCmd::Download(size)),
                None => Err("Failed to parse size as u32"),
            },
        }
    } else if str_eq(cmd, "getvar") {
        match param {
            None => Err("Missing parameter"),
            Some(p) => if p.as_str().is_empty() {
                Err("Missing parameter")
            } else {
                Ok(FastbootCmd::Getvar(p))
            },
        }
    } else if str_eq(cmd, "flash") {
        match param {
            None => Err("Missing parameter"),
            Some(p) => if p.as_str().is_empty() {
                Err("Missing parameter")
            } else {
                Ok(FastbootCmd::Flash(p))
            },
        }
    } else if str_eq(cmd, "erase") {
        match param {
            None => Err("Missing parameter"),
            Some(p) => if p.as_str().is_empty() {
                Err("Missing parameter")
            } else {
                Ok(FastbootCmd::Erase(p))
            },
        }
    } else if str_eq(cmd, "reboot") {
        Ok(FastbootCmd::Reboot)
    } else if str_eq(cmd, "boot") {
        Ok(FastbootCmd::Boot)
    } else if str_eq(cmd, "continue") {
        Ok(FastbootCmd::Continue)
    } else if str_eq(cmd, "upload") {
        Ok(FastbootCmd::Upload)
    } else if str_eq(cmd, "reboot-bootloader") {
        Ok(FastbootCmd::RebootBootloader)
    } else {
        Err("Unknown command")
    }
}

/// The index of the first `:` in `s`, or `s.len()` if there is none.
pub open spec fn first_colon(s: Seq<char>) -> int
    decreases s.len(),
{
    if s.len() == 0 {
        0
    } else if s.first() == ':' {
        0
    } else {
        1 + first_colon(s.drop_first())
    }
}

/// The verb of a raw command line: everything before the first `:`.
pub open spec fn split_verb(s: Seq<char>) -> Seq<char> {
    s.take(first_colon(s))
}

/// The argument of a raw command line: everything after the first `:`,
/// kept as one opaque string, further `:` characters included; no `:`
/// at all means no argument.
pub open spec fn split_arg(s: Seq<char>) -> Option<Seq<char>> {
    if first_colon(s) < s.len() {
        Some(s.skip(first_colon(s) + 1))
    } else {
        None
    }
}

proof fn lemma_first_colon(s: Seq<char>)
    ensures
        0 <= first_colon(s) <= s.len(),
        forall|j: int| 0 <= j < first_colon(s) ==> s[j] != ':',
        first_colon(s) < s.len() ==> s[first_colon(s)] == ':',
    decreases s.len(),
{
    if s.len() > 0 && s.first() != ':' {
        lemma_first_colon(s.drop_first());
        assert forall|j: int| 0 <= j < first_colon(s) implies s[j] != ':' by {
            if j > 0 {
                assert(s.drop_first()[j - 1] != ':');
            }
        }
        if first_colon(s) < s.len() {
            assert(s.drop_first()[first_colon(s.drop_first())] == ':');
        }
    }
}

fn find_colon(line: &str) -> (i: usize)
    ensures
        i == first_colon(line@),
{
    let n = line.unicode_len();
    let mut i: usize = 0;
    while i < n
        invariant
            i <= n,
            n == line@.len(),
            forall|j: int| 0 <= j < i ==> line@[j] != ':',
        decreases n - i,
    {
        if line.get_char(i) == ':' {
            proof {
                lemma_first_colon(line@);
                if first_colon(line@) < i {
                    assert(line@[first_colon(line@)] != ':');
                }
            }
            return i;
        }
        i = i + 1;
    }
    proof {
        lemma_first_colon(line@);
        if first_colon(line@) < n {
            assert(line@[first_colon(line@)] != ':');
        }
    }
    i
}

/// Split a raw command line on the first `:` into a verb and at most
/// one argument, then parse it. A line without `:` is all verb.
pub fn parse_line(line: &str) -> (r: Result<FastbootCmd, &'static str>)
    ensures
        r is Ok <==> spec_parse_ok(split_verb(line@), split_arg(line@)),
        r matches Ok(c) ==> spec_parsed_cmd(split_verb(line@), split_arg(line@), c),
        r matches Err(e) ==> e@ == spec_parse_err(split_verb(line@), split_arg(line@)),
{
    let n = line.unicode_len();
    let i = find_colon(line);
    proof {
        lemma_first_colon(line@);
    }
    let verb = line.substring_char(0, i);
    assert(verb@ =~= split_verb(line@));
    if i < n {
        let argstr = line.substring_char(i + 1, n);
        assert(argstr@ =~= split_arg(line@).unwrap());
        parse(verb, Some(argstr.to_owned()))
    } else {
        parse(verb, None)
    }
}

} // verus!
