//! Utilities of the VirtualBox plugin: argument validation and
//! parsing of VBoxManage output.

use vstd::prelude::*;
use vstd::string::StrSliceExecFns;
use vstd::string::StringExecFns;
use crate::json::JsonMember;
use crate::json::JsonVal;
use crate::json::JsonValue;
use crate::vbox_error::VBoxError;
use crate::vbox_error::VBoxResult;

verus! {

broadcast use
    vstd::std_specs::vec::group_vec_axioms,
    vstd::seq::group_seq_axioms,
    vstd::seq_lib::group_seq_lib_default,
    vstd::string::group_string_axioms;

/// Marker struct carrying the utility functions.
pub struct VBoxUtils;

/// Characters VirtualBox does not accept in VM names.
pub open spec fn vm_name_char_ok(c: char) -> bool {
    c != '<' && c != '>' && c != ':' && c != '"' && c != '|' && c != '?' && c != '*'
}

/// A VM name is valid when it is non-empty, at most 255 characters,
/// and free of the reserved characters.
pub open spec fn vm_name_valid(s: Seq<char>) -> bool {
    0 < s.len() <= 255 && forall|i: int| 0 <= i < s.len() ==> vm_name_char_ok(s[i])
}

/// Memory sizes VirtualBox accepts: one megabyte up to one terabyte.
pub open spec fn memory_mb_valid(m: u32) -> bool {
    1 <= m <= 1048576
}

/// CPU counts VirtualBox accepts.
pub open spec fn cpu_count_valid(c: u32) -> bool {
    1 <= c <= 256
}

/// The VBoxManage network arguments for an adapter kind: bridged,
/// host-only and internal adapters get their own mode, anything else
/// falls back to NAT.
pub open spec fn spec_network_args(adapter: Seq<char>) -> Seq<Seq<char>> {
    if adapter == "Bridged"@ {
        seq!["--nic1"@, "bridged"@]
    } else if adapter == "Host-only"@ {
        seq!["--nic1"@, "hostonly"@]
    } else if adapter == "Internal"@ {
        seq!["--nic1"@, "intnet"@]
    } else {
        seq!["--nic1"@, "nat"@]
    }
}

impl VBoxUtils {
    /// Accepts exactly the valid VM names; rejects an empty name, a
    /// name over 255 characters, and a name with a reserved
    /// character, each with its own message.
    pub fn validate_vm_name(name: &str) -> (r: VBoxResult<()>)
        ensures
            r is Ok <==> vm_name_valid(name@),
            r matches Err(e) ==> (e matches VBoxError::InvalidArgument(m) && m@ == (if name@.len()
                == 0 {
                "VM name cannot be empty"@
            } else if name@.len() > 255 {
                "VM name too long (max 255 characters)"@
            } else {
                "VM name contains invalid characters"@
            })),
    {
        let n = name.unicode_len();
        if n == 0 {
            return Err(VBoxError::InvalidArgument(String::from_str("VM name cannot be empty")));
        }
        if n > 255 {
            return Err(
                VBoxError::InvalidArgument(String::from_str("VM name too long (max 255 characters)")),
            );
        }
        let mut i: usize = 0;
        while i < n
            invariant
                i <= n,
                0 < n <= 255,
                n == name@.len(),
                forall|j: int| 0 <= j < i ==> vm_name_char_ok(name@[j]),
            decreases n - i,
        {
            let c = name.get_char(i);
            if c == '<' || c == '>' || c == ':' || c == '"' || c == '|' || c == '?' || c == '*' {
                return Err(
                    VBoxError::InvalidArgument(
                        String::from_str("VM name contains invalid characters"),
                    ),
                );
            }
            i += 1;
        }
        Ok(())
    }

    /// Accepts exactly one megabyte up to one terabyte.
    pub fn validate_memory_mb(memory_mb: u32) -> (r: VBoxResult<()>)
        ensures
            r is Ok <==> memory_mb_valid(memory_mb),
            r matches Err(e) ==> (e matches VBoxError::InvalidArgument(m) && m@ == (if memory_mb
                < 1 {
                "Memory must be at least 1 MB"@
            } else {
                "Memory too large (max 1TB)"@
            })),
    {
        if memory_mb < 1 {
            return Err(VBoxError::InvalidArgument(String::from_str("Memory must be at least 1 MB")));
        }
        if memory_mb > 1024 * 1024 {
            return Err(VBoxError::InvalidArgument(String::from_str("Memory too large (max 1TB)")));
        }
        Ok(())
    }

    /// Accepts exactly one up to 256 CPUs.
    pub fn validate_cpu_count(cpu_count: u32) -> (r: VBoxResult<()>)
        ensures
            r is Ok <==> cpu_count_valid(cpu_count),
            r matches Err(e) ==> (e matches VBoxError::InvalidArgument(m) && m@ == (if cpu_count
                < 1 {
                "CPU count must be at least 1"@
            } else {
                "CPU count too large (max 256)"@
            })),
    {
        if cpu_count < 1 {
            return Err(
                VBoxError::InvalidArgument(String::from_str("CPU count must be at least 1")),
            );
        }
        if cpu_count > 256 {
            return Err(
                VBoxError::InvalidArgument(String::from_str("CPU count too large (max 256)")),
            );
        }
        Ok(())
    }

    /// The VBoxManage network arguments for an adapter kind.
    pub fn get_network_args(network_adapter: &str) -> (r: Vec<&'static str>)
        ensures
            r.deep_view() == spec_network_args(network_adapter@),
    {
        let mode = if crate::json::str_eq(network_adapter, "Bridged") {
            "bridged"
        } else if crate::json::str_eq(network_adapter, "Host-only") {
            "hostonly"
        } else if crate::json::str_eq(network_adapter, "Internal") {
            "intnet"
        } else {
            "nat"
        };
        let mut r: Vec<&'static str> = Vec::new();
        r.push("--nic1");
        r.push(mode);
        proof {
            assert(r.deep_view() =~= spec_network_args(network_adapter@));
        }
        r
    }
}

/// The numeric value of a decimal digit.
pub open spec fn digit_val(c: char) -> int {
    c as int - '0' as int
}

/// Whether every character is a decimal digit.
pub open spec fn all_digits(s: Seq<char>) -> bool {
    forall|i: int| 0 <= i < s.len() ==> '0' <= #[trigger] s[i] <= '9'
}

/// The value of a decimal digit string.
pub open spec fn dec_value(s: Seq<char>) -> int
    decreases s.len(),
{
    if s.len() == 0 {
        0
    } else {
        dec_value(s.drop_last()) * 10 + digit_val(s.last())
    }
}

/// What a decimal read of a string yields: the value of a non-empty
/// all-digit string that fits u64, nothing otherwise.
pub open spec fn spec_parse_u64(s: Seq<char>) -> Option<int> {
    if s.len() > 0 && all_digits(s) && dec_value(s) <= u64::MAX {
        Some(dec_value(s))
    } else {
        None
    }
}

/// The value of a digit string is non-negative and grows with the
/// string.
proof fn lemma_dec_value_bounds(s: Seq<char>)
    requires
        all_digits(s),
    ensures
        dec_value(s) >= 0,
    decreases s.len(),
{
    if s.len() > 0 {
        assert(all_digits(s.drop_last()));
        lemma_dec_value_bounds(s.drop_last());
        assert(digit_val(s.last()) >= 0);
    }
}

/// Extending a digit string cannot shrink its value.
proof fn lemma_dec_value_monotone(s: Seq<char>, i: int)
    requires
        all_digits(s),
        0 <= i <= s.len(),
    ensures
        dec_value(s.take(i)) <= dec_value(s),
    decreases s.len() - i,
{
    if i < s.len() {
        lemma_dec_value_monotone(s, i + 1);
        let t = s.take(i + 1);
        assert(t.drop_last() =~= s.take(i));
        assert(all_digits(t.drop_last()));
        lemma_dec_value_bounds(t.drop_last());
        assert(dec_value(t) == dec_value(s.take(i)) * 10 + digit_val(t.last()));
        assert(digit_val(t.last()) >= 0);
    } else {
        assert(s.take(i) =~= s);
    }
}

/// Reads a decimal u64, accepting exactly the non-empty all-digit
/// strings whose value fits.
pub fn parse_u64(s: &str) -> (r: Option<u64>)
    ensures
        match r {
            Some(v) => spec_parse_u64(s@) == Some(v as int),
            None => spec_parse_u64(s@) is None,
        },
{
    let n = s.unicode_len();
    if n == 0 {
        return None;
    }
    let mut acc: u64 = 0;
    let mut i: usize = 0;
    while i < n
        invariant
            i <= n,
            n == s@.len(),
            all_digits(s@.take(i as int)),
            acc as int == dec_value(s@.take(i as int)),
        decreases n - i,
    {
        let c = s.get_char(i);
        if !(c >= '0' && c <= '9') {
            proof {
                assert(!('0' <= s@[i as int] <= '9'));
                assert(!all_digits(s@));
            }
            return None;
        }
        let d: u64 = (c as u32 as u64) - ('0' as u32 as u64);
        proof {
            assert(s@.take(i as int + 1).drop_last() =~= s@.take(i as int));
            assert(s@.take(i as int + 1).last() == s@[i as int]);
            assert(all_digits(s@.take(i as int + 1)));
        }
        let big = match acc.checked_mul(10) {
            Some(x) => x,
            None => {
                proof {
                    assert(dec_value(s@.take(i as int + 1)) > u64::MAX);
                    assert(spec_parse_u64(s@) is None) by {
                        if all_digits(s@) {
                            lemma_dec_value_monotone(s@, i as int + 1);
                            assert(dec_value(s@) > u64::MAX);
                        }
                    }
                }
                return None;
            },
        };
        let next = match big.checked_add(d) {
            Some(x) => x,
            None => {
                proof {
                    assert(dec_value(s@.take(i as int + 1)) > u64::MAX);
                    assert(spec_parse_u64(s@) is None) by {
                        if all_digits(s@) {
                            lemma_dec_value_monotone(s@, i as int + 1);
                            assert(dec_value(s@) > u64::MAX);
                        }
                    }
                }
                return None;
            },
        };
        acc = next;
        i += 1;
    }
    proof {
        assert(s@.take(n as int) =~= s@);
    }
    Some(acc)
}

/// A whitespace character that trimming removes.
pub open spec fn is_blank(c: char) -> bool {
    c == ' ' || c == '\t' || c == '\r'
}

/// The string with leading whitespace removed.
pub open spec fn trim_front(s: Seq<char>) -> Seq<char>
    decreases s.len(),
{
    if s.len() > 0 && is_blank(s[0]) {
        trim_front(s.skip(1))
    } else {
        s
    }
}

/// The string with trailing whitespace removed.
pub open spec fn trim_back(s: Seq<char>) -> Seq<char>
    decreases s.len(),
{
    if s.len() > 0 && is_blank(s.last()) {
        trim_back(s.drop_last())
    } else {
        s
    }
}

/// The string with whitespace removed at both ends.
pub open spec fn spec_trim(s: Seq<char>) -> Seq<char> {
    trim_back(trim_front(s))
}

/// The string with leading double quotes removed.
pub open spec fn quotes_front(s: Seq<char>) -> Seq<char>
    decreases s.len(),
{
    if s.len() > 0 && s[0] == '"' {
        quotes_front(s.skip(1))
    } else {
        s
    }
}

/// The string with trailing double quotes removed.
pub open spec fn quotes_back(s: Seq<char>) -> Seq<char>
    decreases s.len(),
{
    if s.len() > 0 && s.last() == '"' {
        quotes_back(s.drop_last())
    } else {
        s
    }
}

/// The string with double quotes removed at both ends.
pub open spec fn spec_trim_quotes(s: Seq<char>) -> Seq<char> {
    quotes_back(quotes_front(s))
}

/// The index of the first occurrence of a character.
pub open spec fn first_index(s: Seq<char>, c: char) -> Option<int>
    decreases s.len(),
{
    if s.len() == 0 {
        None
    } else if s[0] == c {
        Some(0int)
    } else {
        match first_index(s.skip(1), c) {
            Some(i) => Some(i + 1),
            None => None,
        }
    }
}

proof fn lemma_first_index_at(s: Seq<char>, c: char, i: int)
    requires
        0 <= i < s.len(),
        s[i] == c,
        forall|j: int| 0 <= j < i ==> s[j] != c,
    ensures
        first_index(s, c) == Some(i),
    decreases i,
{
    if i > 0 {
        assert(forall|j: int| 0 <= j < i - 1 ==> s.skip(1)[j] != c);
        lemma_first_index_at(s.skip(1), c, i - 1);
    }
}

proof fn lemma_first_index_absent(s: Seq<char>, c: char)
    requires
        forall|j: int| 0 <= j < s.len() ==> s[j] != c,
    ensures
        first_index(s, c) is None,
    decreases s.len(),
{
    if s.len() > 0 {
        lemma_first_index_absent(s.skip(1), c);
    }
}

/// The first occurrence of a character, scanning left to right.
pub fn find_char(s: &str, c: char) -> (r: Option<usize>)
    ensures
        match r {
            Some(i) => first_index(s@, c) == Some(i as int) && i < s@.len() && s@[i as int] == c,
            None => first_index(s@, c) is None,
        },
{
    let n = s.unicode_len();
    let mut i: usize = 0;
    while i < n
        invariant
            i <= n,
            n == s@.len(),
            forall|j: int| 0 <= j < i ==> s@[j] != c,
        decreases n - i,
    {
        if s.get_char(i) == c {
            proof {
                lemma_first_index_at(s@, c, i as int);
            }
            return Some(i);
        }
        i += 1;
    }
    proof {
        lemma_first_index_absent(s@, c);
    }
    None
}

/// Whether trimming removes the character.
fn is_blank_char(c: char) -> (r: bool)
    ensures
        r == is_blank(c),
{
    c == ' ' || c == '\t' || c == '\r'
}

/// The string with whitespace removed at both ends.
pub fn trim(s: &str) -> (r: String)
    ensures
        r@ == spec_trim(s@),
{
    let n = s.unicode_len();
    proof {
        assert(s@.skip(0) =~= s@);
    }
    let mut a: usize = 0;
    while a < n && is_blank_char(s.get_char(a))
        invariant
            a <= n,
            n == s@.len(),
            trim_front(s@) == trim_front(s@.skip(a as int)),
        decreases n - a,
    {
        proof {
            assert(s@.skip(a as int)[0] == s@[a as int]);
            assert(s@.skip(a as int).skip(1) =~= s@.skip(a as int + 1));
        }
        a += 1;
    }
    proof {
        if a < n {
            assert(s@.skip(a as int)[0] == s@[a as int]);
        } else {
            assert(s@.skip(a as int).len() == 0);
        }
        assert(trim_front(s@) == s@.skip(a as int));
    }
    proof {
        assert(s@.skip(a as int) =~= s@.subrange(a as int, n as int));
    }
    let mut b: usize = n;
    while b > a && is_blank_char(s.get_char(b - 1))
        invariant
            a <= b <= n,
            n == s@.len(),
            trim_front(s@) == s@.skip(a as int),
            trim_back(s@.skip(a as int)) == trim_back(s@.subrange(a as int, b as int)),
        decreases b,
    {
        proof {
            assert(s@.subrange(a as int, b as int).last() == s@[b - 1]);
            assert(s@.subrange(a as int, b as int).drop_last() =~= s@.subrange(
                a as int,
                b as int - 1,
            ));
        }
        b -= 1;
    }
    proof {
        if b > a {
            assert(s@.subrange(a as int, b as int).last() == s@[b - 1]);
        } else {
            assert(s@.subrange(a as int, b as int).len() == 0);
        }
        assert(spec_trim(s@) == s@.subrange(a as int, b as int));
    }
    s.substring_char(a, b).to_owned()
}

/// Whether the character is a double quote.
fn is_quote_char(c: char) -> (r: bool)
    ensures
        r == (c == '"'),
{
    c == '"'
}

/// The string with double quotes removed at both ends.
pub fn trim_quotes(s: &str) -> (r: String)
    ensures
        r@ == spec_trim_quotes(s@),
{
    let n = s.unicode_len();
    proof {
        assert(s@.skip(0) =~= s@);
    }
    let mut a: usize = 0;
    while a < n && is_quote_char(s.get_char(a))
        invariant
            a <= n,
            n == s@.len(),
            quotes_front(s@) == quotes_front(s@.skip(a as int)),
        decreases n - a,
    {
        proof {
            assert(s@.skip(a as int)[0] == s@[a as int]);
            assert(s@.skip(a as int).skip(1) =~= s@.skip(a as int + 1));
        }
        a += 1;
    }
    proof {
        if a < n {
            assert(s@.skip(a as int)[0] == s@[a as int]);
        } else {
            assert(s@.skip(a as int).len() == 0);
        }
        assert(quotes_front(s@) == s@.skip(a as int));
    }
    proof {
        assert(s@.skip(a as int) =~= s@.subrange(a as int, n as int));
    }
    let mut b: usize = n;
    while b > a && is_quote_char(s.get_char(b - 1))
        invariant
            a <= b <= n,
            n == s@.len(),
            quotes_front(s@) == s@.skip(a as int),
            quotes_back(s@.skip(a as int)) == quotes_back(s@.subrange(a as int, b as int)),
        decreases b,
    {
        proof {
            assert(s@.subrange(a as int, b as int).last() == s@[b - 1]);
            assert(s@.subrange(a as int, b as int).drop_last() =~= s@.subrange(
                a as int,
                b as int - 1,
            ));
        }
        b -= 1;
    }
    proof {
        if b > a {
            assert(s@.subrange(a as int, b as int).last() == s@[b - 1]);
        } else {
            assert(s@.subrange(a as int, b as int).len() == 0);
        }
        assert(spec_trim_quotes(s@) == s@.subrange(a as int, b as int));
    }
    s.substring_char(a, b).to_owned()
}

/// Relies on String::push: appends one character to the string.
#[verifier::external_body]
fn push_char(s: &mut String, c: char)
    ensures
        final(s)@ == old(s)@.push(c),
{
    s.push(c);
}

/// The pieces of a string split at a separator, scanning left to
/// right; a string without the separator is one piece.
pub open spec fn split_acc(s: Seq<char>, sep: char) -> Seq<Seq<char>>
    decreases s.len(),
{
    if s.len() == 0 {
        seq![Seq::empty()]
    } else {
        let prev = split_acc(s.drop_last(), sep);
        if s.last() == sep {
            prev.push(Seq::empty())
        } else {
            prev.drop_last().push(prev.last().push(s.last()))
        }
    }
}

proof fn lemma_split_acc_nonempty(s: Seq<char>, sep: char)
    ensures
        split_acc(s, sep).len() > 0,
    decreases s.len(),
{
    if s.len() > 0 {
        lemma_split_acc_nonempty(s.drop_last(), sep);
    }
}

/// Splitting yields at most one piece per character, plus one.
proof fn lemma_split_acc_len(s: Seq<char>, sep: char)
    ensures
        split_acc(s, sep).len() <= s.len() + 1,
    decreases s.len(),
{
    if s.len() > 0 {
        lemma_split_acc_len(s.drop_last(), sep);
        lemma_split_acc_nonempty(s.drop_last(), sep);
    }
}

/// A text has at most one line per character, plus one.
pub proof fn lemma_spec_lines_len(s: Seq<char>)
    ensures
        spec_lines(s).len() <= s.len() + 1,
{
    if s.len() > 0 {
        lemma_split_acc_len(s, '\n');
        lemma_split_acc_nonempty(s, '\n');
    }
}

/// A line with one trailing carriage return removed.
pub open spec fn strip_cr(l: Seq<char>) -> Seq<char> {
    if l.len() > 0 && l.last() == '\r' {
        l.drop_last()
    } else {
        l
    }
}

/// The lines of a text: pieces between newlines, each with one
/// trailing carriage return removed, without a final empty line.
pub open spec fn spec_lines(s: Seq<char>) -> Seq<Seq<char>> {
    if s.len() == 0 {
        Seq::empty()
    } else {
        let parts = split_acc(s, '\n');
        let kept = if parts.last().len() == 0 {
            parts.drop_last()
        } else {
            parts
        };
        Seq::new(kept.len(), |i: int| strip_cr(kept[i]))
    }
}

/// Appends a character to the last piece.
fn append_to_last(parts: &mut Vec<String>, c: char)
    requires
        old(parts)@.len() > 0,
    ensures
        final(parts).deep_view() == old(parts).deep_view().drop_last().push(
            old(parts).deep_view().last().push(c),
        ),
{
    let ghost pre = parts.deep_view();
    let mut last = parts.pop().unwrap();
    push_char(&mut last, c);
    parts.push(last);
    proof {
        assert(parts.deep_view() =~= pre.drop_last().push(pre.last().push(c)));
    }
}

/// Splits a text into its lines.
pub fn split_lines(s: &str) -> (r: Vec<String>)
    ensures
        r.deep_view() == spec_lines(s@),
{
    let n = s.unicode_len();
    if n == 0 {
        let r: Vec<String> = Vec::new();
        proof {
            assert(r.deep_view() =~= spec_lines(s@));
        }
        return r;
    }
    let mut parts: Vec<String> = Vec::new();
    parts.push(String::new());
    proof {
        assert(s@.take(0) =~= Seq::<char>::empty());
        assert(parts.deep_view() =~= split_acc(s@.take(0), '\n'));
    }
    let mut i: usize = 0;
    while i < n
        invariant
            i <= n,
            n == s@.len(),
            parts@.len() > 0,
            parts.deep_view() == split_acc(s@.take(i as int), '\n'),
        decreases n - i,
    {
        let c = s.get_char(i);
        proof {
            assert(s@.take(i as int + 1).drop_last() =~= s@.take(i as int));
            assert(s@.take(i as int + 1).last() == s@[i as int]);
            lemma_split_acc_nonempty(s@.take(i as int), '\n');
        }
        if c == '\n' {
            parts.push(String::new());
            proof {
                assert(parts.deep_view() =~= split_acc(s@.take(i as int + 1), '\n'));
            }
        } else {
            append_to_last(&mut parts, c);
            proof {
                assert(parts.deep_view() =~= split_acc(s@.take(i as int + 1), '\n'));
            }
        }
        i += 1;
    }
    proof {
        assert(s@.take(n as int) =~= s@);
        lemma_split_acc_nonempty(s@, '\n');
    }
    let last_len = parts[parts.len() - 1].as_str().unicode_len();
    if last_len == 0 {
        let _ = parts.pop();
    }
    let ghost kept = parts.deep_view();
    let mut out: Vec<String> = Vec::new();
    let total = parts.len();
    let mut k: usize = 0;
    while k < total
        invariant
            k <= total,
            total == parts@.len(),
            kept == parts.deep_view(),
            out.deep_view().len() == k,
            forall|j: int| 0 <= j < k ==> #[trigger] out.deep_view()[j] == strip_cr(kept[j]),
        decreases total - k,
    {
        let piece = &parts[k];
        let m = piece.as_str().unicode_len();
        let stripped = if m > 0 && piece.as_str().get_char(m - 1) == '\r' {
            piece.as_str().substring_char(0, m - 1).to_owned()
        } else {
            piece.clone()
        };
        proof {
            assert(piece@.subrange(0, m as int - 1) =~= piece@.drop_last() || m == 0 || piece@[m
                - 1] != '\r');
        }
        let ghost pre_out = out.deep_view();
        out.push(stripped);
        proof {
            assert(out.deep_view() =~= pre_out.push(strip_cr(kept[k as int])));
        }
        k += 1;
    }
    proof {
        assert(out.deep_view() =~= spec_lines(s@));
    }
    out
}

/// The view of an optional text.
pub open spec fn opt_text(o: Option<String>) -> Option<Seq<char>> {
    match o {
        Some(s) => Some(s@),
        None => None,
    }
}

/// The view of an optional number.
pub open spec fn opt_num(o: Option<i64>) -> Option<int> {
    match o {
        Some(v) => Some(v as int),
        None => None,
    }
}

/// An optional string-valued field.
pub open spec fn opt_str_field(name: Seq<char>, v: Option<Seq<char>>) -> Seq<(Seq<char>, JsonVal)> {
    match v {
        Some(x) => seq![(name, JsonVal::Str(x))],
        None => Seq::empty(),
    }
}

/// An optional number-valued field.
pub open spec fn opt_int_field(name: Seq<char>, v: Option<int>) -> Seq<(Seq<char>, JsonVal)> {
    match v {
        Some(x) => seq![(name, JsonVal::Int(x))],
        None => Seq::empty(),
    }
}

/// What one `key=value` line contributes to the collected VM facts:
/// the `name`, `VMState`, `memory` and `cpus` keys update their slot,
/// a later line overriding an earlier one; anything else is ignored.
/// A memory or CPU value must be a decimal that fits a signed 64-bit
/// integer.
pub open spec fn vm_info_line(
    acc: (Option<Seq<char>>, Option<Seq<char>>, Option<int>, Option<int>),
    line: Seq<char>,
) -> (Option<Seq<char>>, Option<Seq<char>>, Option<int>, Option<int>) {
    match first_index(line, '=') {
        None => acc,
        Some(ix) => {
            let key = spec_trim(line.take(ix));
            let value = spec_trim_quotes(line.skip(ix + 1));
            if key == "name"@ {
                (Some(value), acc.1, acc.2, acc.3)
            } else if key == "VMState"@ {
                (acc.0, Some(value), acc.2, acc.3)
            } else if key == "memory"@ {
                match spec_parse_u64(value) {
                    Some(v) => if v <= i64::MAX {
                        (acc.0, acc.1, Some(v), acc.3)
                    } else {
                        acc
                    },
                    None => acc,
                }
            } else if key == "cpus"@ {
                match spec_parse_u64(value) {
                    Some(v) => if v <= i64::MAX {
                        (acc.0, acc.1, acc.2, Some(v))
                    } else {
                        acc
                    },
                    None => acc,
                }
            } else {
                acc
            }
        },
    }
}

/// The VM facts collected over all lines, in order.
pub open spec fn vm_info_fold(lines: Seq<Seq<char>>) -> (
    Option<Seq<char>>,
    Option<Seq<char>>,
    Option<int>,
    Option<int>,
)
    decreases lines.len(),
{
    if lines.len() == 0 {
        (None, None, None, None)
    } else {
        vm_info_line(vm_info_fold(lines.drop_last()), lines.last())
    }
}

/// The VM description built from machine-readable VBoxManage output:
/// an object with the recognized fields in name order and the given
/// VM id.
pub open spec fn spec_vm_info(output: Seq<char>, vm_id: Seq<char>) -> JsonVal {
    let acc = vm_info_fold(spec_lines(output));
    JsonVal::Obj(
        opt_int_field("cpu_count"@, acc.3) + opt_int_field("memory_mb"@, acc.2) + opt_str_field(
            "name"@,
            acc.0,
        ) + opt_str_field("status"@, acc.1) + seq![("vm_id"@, JsonVal::Str(vm_id))],
    )
}

/// Appends one field to an object under construction.
pub fn push_field(fields: &mut Vec<JsonMember>, name: &str, value: JsonValue)
    ensures
        crate::json::obj_view(final(fields)@) == crate::json::obj_view(old(fields)@).push(
            (name@, value@),
        ),
{
    let ghost pre = fields@;
    let ghost gv = value@;
    fields.push(JsonMember::new(name.to_owned(), value));
    proof {
        crate::json::obj_view_len(pre);
        crate::json::obj_view_len(fields@);
        assert forall|j: int| 0 <= j < fields@.len() implies #[trigger] crate::json::obj_view(
            fields@,
        )[j] == crate::json::obj_view(pre).push((name@, gv))[j] by {
            crate::json::obj_view_index(fields@, j);
            if j < pre.len() {
                crate::json::obj_view_index(pre, j);
            }
        }
        assert(crate::json::obj_view(fields@) =~= crate::json::obj_view(pre).push((name@, gv)));
    }
}

impl VBoxUtils {
    /// Reads the machine-readable output of a VM info query into a
    /// JSON object: the recognized `key=value` lines become the
    /// `name`, `status`, `memory_mb` and `cpu_count` fields, in name
    /// order, and the given VM id becomes `vm_id`.
    pub fn parse_vm_info(output: &str, vm_id: &str) -> (r: JsonValue)
        ensures
            r@ == spec_vm_info(output@, vm_id@),
    {
        let lines = split_lines(output);
        let ghost glines = spec_lines(output@);
        let mut name: Option<String> = None;
        let mut status: Option<String> = None;
        let mut memory: Option<i64> = None;
        let mut cpus: Option<i64> = None;
        proof {
            assert(glines.take(0) =~= Seq::<Seq<char>>::empty());
        }
        let total = lines.len();
        let mut i: usize = 0;
        while i < total
            invariant
                i <= total,
                total == lines@.len(),
                lines.deep_view() == glines,
                ({
                    let acc = vm_info_fold(glines.take(i as int));
                    opt_text(name) == acc.0 && opt_text(status) == acc.1 && opt_num(memory)
                        == acc.2 && opt_num(cpus) == acc.3
                }),
            decreases total - i,
        {
            let line = &lines[i];
            proof {
                assert(glines.take(i as int + 1).drop_last() =~= glines.take(i as int));
                assert(glines.take(i as int + 1).last() == glines[i as int]);
                assert(glines[i as int] == lines@[i as int]@);
            }
            match find_char(line.as_str(), '=') {
                None => {},
                Some(ix) => {
                    let llen = line.as_str().unicode_len();
                    let key = trim(line.as_str().substring_char(0, ix));
                    let value = trim_quotes(line.as_str().substring_char(ix + 1, llen));
                    proof {
                        assert(line@.subrange(0, ix as int) =~= line@.take(ix as int));
                        assert(line@.subrange(ix as int + 1, llen as int) =~= line@.skip(
                            ix as int + 1,
                        ));
                    }
                    if crate::json::str_eq(key.as_str(), "name") {
                        name = Some(value);
                    } else if crate::json::str_eq(key.as_str(), "VMState") {
                        status = Some(value);
                    } else if crate::json::str_eq(key.as_str(), "memory") {
                        match parse_u64(value.as_str()) {
                            Some(v) => {
                                if v <= 9223372036854775807u64 {
                                    memory = Some(v as i64);
                                }
                            },
                            None => {},
                        }
                    } else if crate::json::str_eq(key.as_str(), "cpus") {
                        match parse_u64(value.as_str()) {
                            Some(v) => {
                                if v <= 9223372036854775807u64 {
                                    cpus = Some(v as i64);
                                }
                            },
                            None => {},
                        }
                    }
                },
            }
            i += 1;
        }
        proof {
            assert(glines.take(total as int) =~= glines);
        }
        let mut fields: Vec<JsonMember> = Vec::new();
        match cpus {
            Some(v) => push_field(&mut fields, "cpu_count", JsonValue::Int(v)),
            None => {},
        }
        match memory {
            Some(v) => push_field(&mut fields, "memory_mb", JsonValue::Int(v)),
            None => {},
        }
        match name {
            Some(v) => push_field(&mut fields, "name", JsonValue::Str(v)),
            None => {},
        }
        match status {
            Some(v) => push_field(&mut fields, "status", JsonValue::Str(v)),
            None => {},
        }
        push_field(&mut fields, "vm_id", JsonValue::Str(vm_id.to_owned()));
        proof {
            assert(crate::json::obj_view(fields@) =~= spec_vm_info(output@, vm_id@)->Obj_0);
        }
        JsonValue::Obj(fields)
    }
}

/// The number of leading whitespace characters.
pub open spec fn blank_prefix(s: Seq<char>) -> int
    decreases s.len(),
{
    if s.len() > 0 && is_blank(s[0]) {
        1 + blank_prefix(s.skip(1))
    } else {
        0
    }
}

/// What one line of a VM listing names: a quoted VM name, then at
/// least one whitespace character, then a brace-enclosed id. A line
/// of any other shape names nothing. Text before the first quote or
/// after the closing brace is ignored.
pub open spec fn vm_list_entry(line: Seq<char>) -> Option<(Seq<char>, Seq<char>)> {
    match first_index(line, '"') {
        None => None,
        Some(p) => {
            let rest = line.skip(p + 1);
            match first_index(rest, '"') {
                None => None,
                Some(q) => if q == 0 {
                    None
                } else {
                    let vm_name = rest.take(q);
                    let after = rest.skip(q + 1);
                    let w = blank_prefix(after);
                    if w == 0 {
                        None
                    } else {
                        let body = after.skip(w);
                        if body.len() == 0 || body[0] != '{' {
                            None
                        } else {
                            let inner = body.skip(1);
                            match first_index(inner, '}') {
                                Some(b) => if b == 0 {
                                    None
                                } else {
                                    Some((vm_name, inner.take(b)))
                                },
                                None => None,
                            }
                        }
                    }
                },
            }
        },
    }
}

/// The object describing one listed VM: its name doubles as its id,
/// and the state is not known from a bare listing.
pub open spec fn vm_entry_obj(vm_name: Seq<char>, uuid: Seq<char>) -> JsonVal {
    JsonVal::Obj(
        seq![
            ("name"@, JsonVal::Str(vm_name)),
            ("status"@, JsonVal::Str("unknown"@)),
            ("uuid"@, JsonVal::Str(uuid)),
            ("vm_id"@, JsonVal::Str(vm_name)),
        ],
    )
}

/// The entries named by all lines, in order.
pub open spec fn vm_list_fold(lines: Seq<Seq<char>>) -> Seq<JsonVal>
    decreases lines.len(),
{
    if lines.len() == 0 {
        Seq::empty()
    } else {
        let prev = vm_list_fold(lines.drop_last());
        match vm_list_entry(lines.last()) {
            Some(entry) => prev.push(vm_entry_obj(entry.0, entry.1)),
            None => prev,
        }
    }
}

/// The VM descriptions named by a VM listing.
pub open spec fn spec_vm_list(output: Seq<char>) -> Seq<JsonVal> {
    vm_list_fold(spec_lines(output))
}

/// Reads one listing line; `None` for a line that names no VM.
fn parse_vm_line(line: &str) -> (r: Option<(String, String)>)
    ensures
        match r {
            Some(entry) => vm_list_entry(line@) == Some((entry.0@, entry.1@)),
            None => vm_list_entry(line@) is None,
        },
{
    let n = line.unicode_len();
    let p = match find_char(line, '"') {
        Some(p) => p,
        None => { return None },
    };
    let rest = line.substring_char(p + 1, n);
    proof {
        assert(rest@ =~= line@.skip(p as int + 1));
    }
    let m = rest.unicode_len();
    let q = match find_char(rest, '"') {
        Some(q) => q,
        None => { return None },
    };
    if q == 0 {
        return None;
    }
    let vm_name = rest.substring_char(0, q).to_owned();
    proof {
        assert(vm_name@ =~= rest@.take(q as int));
    }
    let after = rest.substring_char(q + 1, m);
    proof {
        assert(after@ =~= rest@.skip(q as int + 1));
        assert(after@.skip(0) =~= after@);
    }
    let alen = after.unicode_len();
    let mut w: usize = 0;
    while w < alen && is_blank_char(after.get_char(w))
        invariant
            w <= alen,
            alen == after@.len(),
            blank_prefix(after@) == w + blank_prefix(after@.skip(w as int)),
        decreases alen - w,
    {
        proof {
            assert(after@.skip(w as int)[0] == after@[w as int]);
            assert(after@.skip(w as int).skip(1) =~= after@.skip(w as int + 1));
        }
        w += 1;
    }
    proof {
        if w < alen {
            assert(after@.skip(w as int)[0] == after@[w as int]);
        } else {
            assert(after@.skip(w as int).len() == 0);
        }
        assert(blank_prefix(after@) == w);
    }
    if w == 0 {
        return None;
    }
    if w >= alen {
        proof {
            assert(after@.skip(w as int).len() == 0);
        }
        return None;
    }
    if !(after.get_char(w) == '{') {
        proof {
            assert(after@.skip(w as int)[0] == after@[w as int]);
        }
        return None;
    }
    let inner = after.substring_char(w + 1, alen);
    proof {
        assert(after@.skip(w as int)[0] == after@[w as int]);
        assert(inner@ =~= after@.skip(w as int).skip(1));
    }
    let b = match find_char(inner, '}') {
        Some(b) => b,
        None => { return None },
    };
    if b == 0 {
        return None;
    }
    let uuid = inner.substring_char(0, b).to_owned();
    proof {
        assert(uuid@ =~= inner@.take(b as int));
    }
    Some((vm_name, uuid))
}

impl VBoxUtils {
    /// Reads a VM listing into one JSON object per listed VM: each
    /// line naming a quoted VM name and a brace-enclosed id yields an
    /// entry; other lines are skipped. The listing itself cannot
    /// fail.
    pub fn parse_vm_list(output: &str) -> (r: VBoxResult<Vec<JsonValue>>)
        ensures
            r matches Ok(vms) && vms.deep_view() == spec_vm_list(output@),
    {
        let lines = split_lines(output);
        let ghost glines = spec_lines(output@);
        let mut vms: Vec<JsonValue> = Vec::new();
        proof {
            assert(glines.take(0) =~= Seq::<Seq<char>>::empty());
        }
        let total = lines.len();
        let mut i: usize = 0;
        while i < total
            invariant
                i <= total,
                total == lines@.len(),
                lines.deep_view() == glines,
                vms.deep_view() == vm_list_fold(glines.take(i as int)),
            decreases total - i,
        {
            proof {
                assert(glines.take(i as int + 1).drop_last() =~= glines.take(i as int));
                assert(glines.take(i as int + 1).last() == glines[i as int]);
                assert(glines[i as int] == lines@[i as int]@);
            }
            let ghost pre = vms.deep_view();
            match parse_vm_line(lines[i].as_str()) {
                Some(entry) => {
                    let ghost gname = entry.0@;
                    let ghost guuid = entry.1@;
                    let mut fields: Vec<JsonMember> = Vec::new();
                    push_field(&mut fields, "name", JsonValue::Str(entry.0.clone()));
                    push_field(&mut fields, "status", JsonValue::Str(String::from_str("unknown")));
                    push_field(&mut fields, "uuid", JsonValue::Str(entry.1));
                    push_field(&mut fields, "vm_id", JsonValue::Str(entry.0));
                    proof {
                        assert(crate::json::obj_view(fields@) =~= vm_entry_obj(
                            gname,
                            guuid,
                        )->Obj_0);
                    }
                    vms.push(JsonValue::Obj(fields));
                    proof {
                        assert(vms.deep_view() =~= vm_list_fold(glines.take(i as int + 1)));
                    }
                },
                None => {},
            }
            i += 1;
        }
        proof {
            assert(glines.take(total as int) =~= glines);
        }
        Ok(vms)
    }
}

/// The message a VM name rejection carries.
pub open spec fn vm_name_err_text(s: Seq<char>) -> Seq<char> {
    if s.len() == 0 {
        "VM name cannot be empty"@
    } else if s.len() > 255 {
        "VM name too long (max 255 characters)"@
    } else {
        "VM name contains invalid characters"@
    }
}

/// The message a memory rejection carries.
pub open spec fn memory_err_text(m: u32) -> Seq<char> {
    if m < 1 {
        "Memory must be at least 1 MB"@
    } else {
        "Memory too large (max 1TB)"@
    }
}

/// The message a CPU count rejection carries.
pub open spec fn cpu_err_text(c: u32) -> Seq<char> {
    if c < 1 {
        "CPU count must be at least 1"@
    } else {
        "CPU count too large (max 256)"@
    }
}

/// The decimal digit character for a value below ten.
pub open spec fn digit_char(d: int) -> char {
    if d == 0 { '0' }
    else if d == 1 { '1' }
    else if d == 2 { '2' }
    else if d == 3 { '3' }
    else if d == 4 { '4' }
    else if d == 5 { '5' }
    else if d == 6 { '6' }
    else if d == 7 { '7' }
    else if d == 8 { '8' }
    else { '9' }
}

/// The decimal rendering of a non-negative value.
pub open spec fn spec_dec(v: int) -> Seq<char>
    decreases v,
{
    if v < 10 {
        seq![digit_char(v)]
    } else {
        spec_dec(v / 10).push(digit_char(v % 10))
    }
}

/// Renders a value in decimal.
pub fn u64_to_string(v: u64) -> (r: String)
    ensures
        r@ == spec_dec(v as int),
    decreases v,
{
    if v < 10 {
        let d: u8 = v as u8;
        let c: char = match d {
            0 => '0',
            1 => '1',
            2 => '2',
            3 => '3',
            4 => '4',
            5 => '5',
            6 => '6',
            7 => '7',
            8 => '8',
            _ => '9',
        };
        let mut s = String::new();
        push_char(&mut s, c);
        proof {
            assert(s@ =~= spec_dec(v as int));
        }
        s
    } else {
        let mut s = u64_to_string(v / 10);
        let d: u8 = (v % 10) as u8;
        let c: char = match d {
            0 => '0',
            1 => '1',
            2 => '2',
            3 => '3',
            4 => '4',
            5 => '5',
            6 => '6',
            7 => '7',
            8 => '8',
            _ => '9',
        };
        push_char(&mut s, c);
        s
    }
}

} // verus!
