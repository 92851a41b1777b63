//! The command interpreter of the debugger: a command line is split at its spaces into a
//! command and up to two arguments (hexadecimal numbers), and the debugger's breakpoints and
//! watches are kept. What a command asks of the emulator or of the terminal is returned as an
//! `Action` for the front end to carry out.

use vstd::prelude::*;

verus! {

/// The value of a hexadecimal digit, if `c` is one (`0`-`9`, `a`-`f`, `A`-`F`).
pub open spec fn hex_digit(c: u8) -> Option<nat> {
    if 0x30 <= c <= 0x39 {
        Some((c - 0x30) as nat)
    } else if 0x61 <= c <= 0x66 {
        Some((c - 0x61 + 10) as nat)
    } else if 0x41 <= c <= 0x46 {
        Some((c - 0x41 + 10) as nat)
    } else {
        None
    }
}

/// The value of a string of hexadecimal digits, if all of them are.
pub open spec fn hex_digits(s: Seq<u8>) -> Option<nat>
    decreases s.len(),
{
    if s.len() == 0 {
        Some(0)
    } else {
        match (hex_digits(s.drop_last()), hex_digit(s.last())) {
            (Some(v), Some(d)) => Some(v * 16 + d),
            _ => None,
        }
    }
}

/// A number in hexadecimal, as std's `from_str_radix` with radix 16 reads it into a type whose
/// largest value is `max`: an optional `+` and at least one digit, and a value up to `max`.
pub open spec fn hex_number(s: Seq<u8>, max: nat) -> Option<nat> {
    let digits = if s.len() > 0 && s[0] == 0x2B { s.drop_first() } else { s };
    if digits.len() == 0 {
        None
    } else {
        match hex_digits(digits) {
            Some(v) => if v <= max { Some(v) } else { None },
            None => None,
        }
    }
}

fn digit_value(c: u8) -> (r: Option<u8>)
    ensures
        match hex_digit(c) {
            Some(d) => r == Some(d as u8),
            None => r is None,
        },
{
    if c >= 0x30 && c <= 0x39 {
        Some(c - 0x30)
    } else if c >= 0x61 && c <= 0x66 {
        Some(c - 0x61 + 10)
    } else if c >= 0x41 && c <= 0x46 {
        Some(c - 0x41 + 10)
    } else {
        None
    }
}

/// Digits whose value passed `max` stay past it however many digits follow.
proof fn lemma_hex_digits_grow(s: Seq<u8>, n: int)
    requires
        0 <= n <= s.len(),
        hex_digits(s) is Some,
    ensures
        hex_digits(s.take(n)) is Some,
        hex_digits(s.take(n))->0 <= hex_digits(s)->0,
    decreases s.len(),
{
    if n < s.len() {
        assert(s.drop_last().take(n) =~= s.take(n));
        lemma_hex_digits_grow(s.drop_last(), n);
    } else {
        assert(s.take(n) =~= s);
    }
}

/// Reads a hexadecimal number of at most `max` (65535 at most) from `s[start..end]`.
fn parse_hex(s: &[u8], start: usize, end: usize, max: u32) -> (r: Option<u32>)
    requires
        start <= end <= s@.len(),
        max <= 0xFFFF,
    ensures
        match hex_number(s@.subrange(start as int, end as int), max as nat) {
            Some(v) => r == Some(v as u32),
            None => r is None,
        },
{
    let ghost t = s@.subrange(start as int, end as int);
    let mut i = start;
    if i < end && s[i] == 0x2B {
        i = i + 1;
    }
    let ghost digits = s@.subrange(i as int, end as int);
    proof {
        if t.len() > 0 && t[0] == 0x2B {
            assert(t.drop_first() =~= digits);
        } else {
            assert(t =~= digits);
        }
    }
    if i == end {
        return None;
    }
    let first = i;
    let mut value: u32 = 0;
    while i < end
        invariant
            first <= i <= end <= s@.len(),
            digits == s@.subrange(first as int, end as int),
            digits.len() > 0,
            t == s@.subrange(start as int, end as int),
            t.len() > 0 && t[0] == 0x2B ==> t.drop_first() == digits,
            !(t.len() > 0 && t[0] == 0x2B) ==> t == digits,
            max <= 0xFFFF,
            value <= max,
            hex_digits(s@.subrange(first as int, i as int)) == Some(value as nat),
        decreases end - i,
    {
        let d = digit_value(s[i]);
        let ghost prefix = s@.subrange(first as int, i as int + 1);
        assert(prefix.drop_last() =~= s@.subrange(first as int, i as int));
        assert(prefix.last() == s@[i as int]);
        match d {
            None => {
                proof {
                    assert(hex_digits(prefix) is None);
                    if hex_digits(digits) is Some {
                        assert(digits.take(prefix.len() as int) =~= prefix);
                        lemma_hex_digits_grow(digits, prefix.len() as int);
                    }
                }
                return None;
            },
            Some(d) => {
                let next = value * 16 + d as u32;
                if next > max {
                    proof {
                        assert(hex_digits(prefix) == Some(next as nat));
                        if hex_digits(digits) is Some {
                            assert(digits.take(prefix.len() as int) =~= prefix);
                            lemma_hex_digits_grow(digits, prefix.len() as int);
                        }
                    }
                    return None;
                }
                value = next;
            },
        }
        i = i + 1;
    }
    Some(value)
}

/// A hexadecimal byte, as `u8::from_str_radix(arg, 16)` reads it.
pub fn to_value(arg: &[u8]) -> (r: Option<u8>)
    ensures
        match hex_number(arg@, 0xFF) {
            Some(v) => r == Some(v as u8),
            None => r is None,
        },
{
    assert(arg@.subrange(0, arg@.len() as int) =~= arg@);
    match parse_hex(arg, 0, arg.len(), 0xFF) {
        Some(v) => Some(v as u8),
        None => None,
    }
}

/// A hexadecimal address, as `u16::from_str_radix(arg, 16)` reads it.
pub fn to_address(arg: &[u8]) -> (r: Option<u16>)
    ensures
        match hex_number(arg@, 0xFFFF) {
            Some(v) => r == Some(v as u16),
            None => r is None,
        },
{
    assert(arg@.subrange(0, arg@.len() as int) =~= arg@);
    match parse_hex(arg, 0, arg.len(), 0xFFFF) {
        Some(v) => Some(v as u16),
        None => None,
    }
}

/// A command line split at every space, as `str::split(' ')` splits it: `n` spaces give
/// `n + 1` pieces, some of them possibly empty.
pub open spec fn split_spaces(s: Seq<u8>) -> Seq<Seq<u8>>
    decreases s.len(),
{
    if s.len() == 0 {
        seq![Seq::empty()]
    } else {
        let p = split_spaces(s.drop_last());
        if s.last() == 0x20 {
            p.push(Seq::empty())
        } else {
            p.update(p.len() - 1, p.last().push(s.last()))
        }
    }
}

proof fn lemma_split_nonempty(s: Seq<u8>)
    ensures
        split_spaces(s).len() >= 1,
    decreases s.len(),
{
    if s.len() > 0 {
        lemma_split_nonempty(s.drop_last());
    }
}

/// The pieces of `s` that the bounds `b` select.
pub open spec fn pieces_of(s: Seq<u8>, b: Seq<(usize, usize)>) -> Seq<Seq<u8>> {
    Seq::new(b.len(), |k: int| s.subrange(b[k].0 as int, b[k].1 as int))
}

/// Where the pieces of `s` (split at its spaces) start and end.
pub fn split_bounds(s: &[u8]) -> (r: Vec<(usize, usize)>)
    ensures
        forall|k: int| 0 <= k < r@.len() ==> (#[trigger] r@[k]).0 <= r@[k].1 <= s@.len(),
        pieces_of(s@, r@) == split_spaces(s@),
{
    let mut bounds: Vec<(usize, usize)> = Vec::new();
    let mut start: usize = 0;
    let mut i: usize = 0;
    proof {
        assert(s@.take(0) =~= Seq::<u8>::empty());
        assert(pieces_of(s@, bounds@).push(s@.subrange(0, 0)) =~= split_spaces(s@.take(0)));
    }
    while i < s.len()
        invariant
            start <= i <= s@.len(),
            forall|k: int| 0 <= k < bounds@.len() ==> (#[trigger] bounds@[k]).0 <= bounds@[k].1 <= s@.len(),
            pieces_of(s@, bounds@).push(s@.subrange(start as int, i as int)) == split_spaces(s@.take(i as int)),
        decreases s@.len() - i,
    {
        let ghost before = split_spaces(s@.take(i as int));
        assert(s@.take(i as int + 1).drop_last() =~= s@.take(i as int));
        assert(s@.take(i as int + 1).last() == s@[i as int]);
        if s[i] == 0x20 {
            let ghost old_b = bounds@;
            let ghost old_start = start;
            bounds.push((start, i));
            start = i + 1;
            assert(pieces_of(s@, bounds@) =~= pieces_of(s@, old_b).push(s@.subrange(old_start as int, i as int)));
            assert(s@.subrange(start as int, i as int + 1) =~= Seq::<u8>::empty());
            assert(pieces_of(s@, bounds@).push(s@.subrange(start as int, i as int + 1)) =~= before.push(Seq::empty()));
        } else {
            assert(s@.subrange(start as int, i as int + 1) =~= s@.subrange(start as int, i as int).push(s@[i as int]));
            assert(pieces_of(s@, bounds@).push(s@.subrange(start as int, i as int + 1)) =~= before.update(before.len() - 1,
                before.last().push(s@[i as int])));
        }
        i = i + 1;
    }
    let ghost old_b = bounds@;
    bounds.push((start, i));
    assert(pieces_of(s@, bounds@) =~= pieces_of(s@, old_b).push(s@.subrange(start as int, i as int)));
    assert(s@.take(s@.len() as int) =~= s@);
    assert(pieces_of(s@, bounds@) =~= split_spaces(s@));
    bounds
}

/// Whether `s[start..end]` spells `word`.
fn piece_is(s: &[u8], start: usize, end: usize, word: &[u8]) -> (r: bool)
    requires
        start <= end <= s@.len(),
    ensures
        r == (s@.subrange(start as int, end as int) == word@),
{
    if end - start != word.len() {
        return false;
    }
    let mut k: usize = 0;
    while k < word.len()
        invariant
            start <= end <= s@.len(),
            end - start == word@.len(),
            k <= word@.len(),
            forall|j: int| 0 <= j < k ==> s@[start + j] == #[trigger] word@[j],
        decreases word@.len() - k,
    {
        if s[start + k] != word[k] {
            assert(s@.subrange(start as int, end as int)[k as int] != word@[k as int]);
            return false;
        }
        k = k + 1;
    }
    assert(s@.subrange(start as int, end as int) =~= word@);
    true
}

/// A command of the debugger.
#[derive(PartialEq, Eq, Structural, Debug, Clone, Copy)]
pub enum Command {
    /// `l`, `list`: list the breakpoints.
    List,
    /// `clear`: remove all breakpoints.
    Clear,
    /// `c`, `continue`: run on.
    Continue,
    /// `d`: run on, still printing each instruction.
    Display,
    /// `s`, `step`: run one instruction.
    Step,
    /// `q`, `quit`.
    Quit,
    /// `h`, `help`.
    Help,
    /// `bo [u8]`: break on an opcode.
    BreakOp(u8),
    /// `ba [u16]`: break at an address.
    BreakAddress(u16),
    /// `bm [u16]`: break when memory at an address is accessed.
    BreakMemory(u16),
    /// `p cpu`: print the registers.
    PrintCpu,
    /// `p`, `print [u16]`: print memory.
    Print(u16),
    /// `po [u16]`: print the opcode at an address.
    PrintOp(u16),
    /// `w`, `watch [u16]`: print an address each time the debugger breaks.
    Watch(u16),
    /// `s`, `set [u16] [u8]`: write memory.
    SetMemory(u16, u8),
}

/// The command of a line of one piece.
pub open spec fn unary_command(p: Seq<u8>) -> Option<Command> {
    if p == seq![0x6Cu8] || p == seq![0x6Cu8, 0x69u8, 0x73u8, 0x74u8] {
        Some(Command::List)
    } else
    if p == seq![0x63u8, 0x6Cu8, 0x65u8, 0x61u8, 0x72u8] {
        Some(Command::Clear)
    } else
    if p == seq![0x63u8] || p == seq![0x63u8, 0x6Fu8, 0x6Eu8, 0x74u8, 0x69u8, 0x6Eu8, 0x75u8, 0x65u8] {
        Some(Command::Continue)
    } else
    if p == seq![0x64u8] {
        Some(Command::Display)
    } else
    if p == seq![0x73u8] || p == seq![0x73u8, 0x74u8, 0x65u8, 0x70u8] {
        Some(Command::Step)
    } else
    if p == seq![0x71u8] || p == seq![0x71u8, 0x75u8, 0x69u8, 0x74u8] {
        Some(Command::Quit)
    } else
    if p == seq![0x68u8] || p == seq![0x68u8, 0x65u8, 0x6Cu8, 0x70u8] {
        Some(Command::Help)
    } else {
        None
    }
}

/// The command of a line of two pieces.
pub open spec fn binary_command(p: Seq<u8>, arg: Seq<u8>) -> Option<Command> {
    let byte = hex_number(arg, 0xFF);
    let address = hex_number(arg, 0xFFFF);
    if p == seq![0x62u8, 0x6Fu8] {
        if byte is Some { Some(Command::BreakOp(byte->0 as u8)) } else { None }
    } else if p == seq![0x62u8, 0x61u8] {
        if address is Some { Some(Command::BreakAddress(address->0 as u16)) } else { None }
    } else if p == seq![0x62u8, 0x6Du8] {
        if address is Some { Some(Command::BreakMemory(address->0 as u16)) } else { None }
    } else if p == seq![0x70u8] || p == seq![0x70u8, 0x72u8, 0x69u8, 0x6Eu8, 0x74u8] {
        if arg == seq![0x63u8, 0x70u8, 0x75u8] {
            Some(Command::PrintCpu)
        } else if address is Some {
            Some(Command::Print(address->0 as u16))
        } else {
            None
        }
    } else if p == seq![0x70u8, 0x6Fu8] {
        if address is Some { Some(Command::PrintOp(address->0 as u16)) } else { None }
    } else if p == seq![0x77u8] || p == seq![0x77u8, 0x61u8, 0x74u8, 0x63u8, 0x68u8] {
        if address is Some { Some(Command::Watch(address->0 as u16)) } else { None }
    } else {
        None
    }
}

/// The command of a line of three pieces.
pub open spec fn trinary_command(p: Seq<u8>, arg1: Seq<u8>, arg2: Seq<u8>) -> Option<Command> {
    let address = hex_number(arg1, 0xFFFF);
    let value = hex_number(arg2, 0xFF);
    if (p == seq![0x73u8] || p == seq![0x73u8, 0x65u8, 0x74u8]) && address is Some && value is Some {
        Some(Command::SetMemory(address->0 as u16, value->0 as u8))
    } else {
        None
    }
}

/// The command of a line: its pieces are the command and its arguments; lines of more than
/// three pieces, unknown commands and bad numbers have none.
pub open spec fn parse_spec(line: Seq<u8>) -> Option<Command> {
    let p = split_spaces(line);
    if p.len() == 1 {
        unary_command(p[0])
    } else if p.len() == 2 {
        binary_command(p[0], p[1])
    } else if p.len() == 3 {
        trinary_command(p[0], p[1], p[2])
    } else {
        None
    }
}

/// Whether `s[start..end]` spells one of two words.
fn piece_is_either(s: &[u8], start: usize, end: usize, a: Vec<u8>, b: Vec<u8>) -> (r: bool)
    requires
        start <= end <= s@.len(),
    ensures
        r == (s@.subrange(start as int, end as int) == a@ || s@.subrange(start as int, end as int) == b@),
{
    piece_is(s, start, end, a.as_slice()) || piece_is(s, start, end, b.as_slice())
}


/// The command of `s[a..b]`, a line of one piece.
fn unary_of(s: &[u8], a: usize, b: usize) -> (r: Option<Command>)
    requires
        a <= b <= s@.len(),
    ensures
        r == unary_command(s@.subrange(a as int, b as int)),
{
    let ghost p = s@.subrange(a as int, b as int);
    let w_l = vec![0x6Cu8];
    let w_list = vec![0x6Cu8, 0x69u8, 0x73u8, 0x74u8];
    let w_clear = vec![0x63u8, 0x6Cu8, 0x65u8, 0x61u8, 0x72u8];
    let w_c = vec![0x63u8];
    let w_continue = vec![0x63u8, 0x6Fu8, 0x6Eu8, 0x74u8, 0x69u8, 0x6Eu8, 0x75u8, 0x65u8];
    let w_d = vec![0x64u8];
    let w_s = vec![0x73u8];
    let w_step = vec![0x73u8, 0x74u8, 0x65u8, 0x70u8];
    let w_q = vec![0x71u8];
    let w_quit = vec![0x71u8, 0x75u8, 0x69u8, 0x74u8];
    let w_h = vec![0x68u8];
    let w_help = vec![0x68u8, 0x65u8, 0x6Cu8, 0x70u8];
    assert(w_l@ =~= seq![0x6Cu8]);
    assert(w_list@ =~= seq![0x6Cu8, 0x69u8, 0x73u8, 0x74u8]);
    assert(w_clear@ =~= seq![0x63u8, 0x6Cu8, 0x65u8, 0x61u8, 0x72u8]);
    assert(w_c@ =~= seq![0x63u8]);
    assert(w_continue@ =~= seq![0x63u8, 0x6Fu8, 0x6Eu8, 0x74u8, 0x69u8, 0x6Eu8, 0x75u8, 0x65u8]);
    assert(w_d@ =~= seq![0x64u8]);
    assert(w_s@ =~= seq![0x73u8]);
    assert(w_step@ =~= seq![0x73u8, 0x74u8, 0x65u8, 0x70u8]);
    assert(w_q@ =~= seq![0x71u8]);
    assert(w_quit@ =~= seq![0x71u8, 0x75u8, 0x69u8, 0x74u8]);
    assert(w_h@ =~= seq![0x68u8]);
    assert(w_help@ =~= seq![0x68u8, 0x65u8, 0x6Cu8, 0x70u8]);
    if piece_is_either(s, a, b, w_l, w_list) {
        Some(Command::List)
    } else if piece_is(s, a, b, w_clear.as_slice()) {
        Some(Command::Clear)
    } else if piece_is_either(s, a, b, w_c, w_continue) {
        Some(Command::Continue)
    } else if piece_is(s, a, b, w_d.as_slice()) {
        Some(Command::Display)
    } else if piece_is_either(s, a, b, w_s, w_step) {
        Some(Command::Step)
    } else if piece_is_either(s, a, b, w_q, w_quit) {
        Some(Command::Quit)
    } else if piece_is_either(s, a, b, w_h, w_help) {
        Some(Command::Help)
    } else {
        None
    }
}

/// The command of a line of two pieces, `s[a0..b0]` and `s[a1..b1]`.
fn binary_of(s: &[u8], a0: usize, b0: usize, a1: usize, b1: usize) -> (r: Option<Command>)
    requires
        a0 <= b0 <= s@.len(),
        a1 <= b1 <= s@.len(),
    ensures
        r == binary_command(s@.subrange(a0 as int, b0 as int), s@.subrange(a1 as int, b1 as int)),
{
    let w_bo = vec![0x62u8, 0x6Fu8];
    let w_ba = vec![0x62u8, 0x61u8];
    let w_bm = vec![0x62u8, 0x6Du8];
    let w_p = vec![0x70u8];
    let w_print = vec![0x70u8, 0x72u8, 0x69u8, 0x6Eu8, 0x74u8];
    let w_cpu = vec![0x63u8, 0x70u8, 0x75u8];
    let w_po = vec![0x70u8, 0x6Fu8];
    let w_w = vec![0x77u8];
    let w_watch = vec![0x77u8, 0x61u8, 0x74u8, 0x63u8, 0x68u8];
    assert(w_bo@ =~= seq![0x62u8, 0x6Fu8]);
    assert(w_ba@ =~= seq![0x62u8, 0x61u8]);
    assert(w_bm@ =~= seq![0x62u8, 0x6Du8]);
    assert(w_p@ =~= seq![0x70u8]);
    assert(w_print@ =~= seq![0x70u8, 0x72u8, 0x69u8, 0x6Eu8, 0x74u8]);
    assert(w_cpu@ =~= seq![0x63u8, 0x70u8, 0x75u8]);
    assert(w_po@ =~= seq![0x70u8, 0x6Fu8]);
    assert(w_w@ =~= seq![0x77u8]);
    assert(w_watch@ =~= seq![0x77u8, 0x61u8, 0x74u8, 0x63u8, 0x68u8]);
    let byte = parse_hex(s, a1, b1, 0xFF);
    let address = parse_hex(s, a1, b1, 0xFFFF);
    if piece_is(s, a0, b0, w_bo.as_slice()) {
        match byte {
            Some(v) => Some(Command::BreakOp(v as u8)),
            None => None,
        }
    } else if piece_is(s, a0, b0, w_ba.as_slice()) {
        match address {
            Some(v) => Some(Command::BreakAddress(v as u16)),
            None => None,
        }
    } else if piece_is(s, a0, b0, w_bm.as_slice()) {
        match address {
            Some(v) => Some(Command::BreakMemory(v as u16)),
            None => None,
        }
    } else if piece_is_either(s, a0, b0, w_p, w_print) {
        if piece_is(s, a1, b1, w_cpu.as_slice()) {
            Some(Command::PrintCpu)
        } else {
            match address {
                Some(v) => Some(Command::Print(v as u16)),
                None => None,
            }
        }
    } else if piece_is(s, a0, b0, w_po.as_slice()) {
        match address {
            Some(v) => Some(Command::PrintOp(v as u16)),
            None => None,
        }
    } else if piece_is_either(s, a0, b0, w_w, w_watch) {
        match address {
            Some(v) => Some(Command::Watch(v as u16)),
            None => None,
        }
    } else {
        None
    }
}

/// The command of a line of three pieces, `s[a0..b0]`, `s[a1..b1]` and `s[a2..b2]`.
fn trinary_of(s: &[u8], a0: usize, b0: usize, a1: usize, b1: usize, a2: usize, b2: usize) -> (r:
    Option<Command>)
    requires
        a0 <= b0 <= s@.len(),
        a1 <= b1 <= s@.len(),
        a2 <= b2 <= s@.len(),
    ensures
        r == trinary_command(
            s@.subrange(a0 as int, b0 as int),
            s@.subrange(a1 as int, b1 as int),
            s@.subrange(a2 as int, b2 as int),
        ),
{
    let w_s = vec![0x73u8];
    let w_set = vec![0x73u8, 0x65u8, 0x74u8];
    assert(w_s@ =~= seq![0x73u8]);
    assert(w_set@ =~= seq![0x73u8, 0x65u8, 0x74u8]);
    if piece_is_either(s, a0, b0, w_s, w_set) {
        let address = parse_hex(s, a1, b1, 0xFFFF);
        let value = parse_hex(s, a2, b2, 0xFF);
        match (address, value) {
            (Some(a), Some(v)) => Some(Command::SetMemory(a as u16, v as u8)),
            _ => None,
        }
    } else {
        None
    }
}

/// Reads a command line: it is split at every space, and its first piece names the command.
pub fn parse_command(line: &[u8]) -> (r: Option<Command>)
    ensures
        r == parse_spec(line@),
{
    let b = split_bounds(line);
    let ghost p = split_spaces(line@);
    assert(pieces_of(line@, b@) == p);
    assert(b@.len() == p.len());
    if b.len() == 1 {
        assert(p[0] == line@.subrange(b@[0].0 as int, b@[0].1 as int));
        unary_of(line, b[0].0, b[0].1)
    } else if b.len() == 2 {
        assert(p[0] == line@.subrange(b@[0].0 as int, b@[0].1 as int));
        assert(p[1] == line@.subrange(b@[1].0 as int, b@[1].1 as int));
        binary_of(line, b[0].0, b[0].1, b[1].0, b[1].1)
    } else if b.len() == 3 {
        assert(p[0] == line@.subrange(b@[0].0 as int, b@[0].1 as int));
        assert(p[1] == line@.subrange(b@[1].0 as int, b@[1].1 as int));
        assert(p[2] == line@.subrange(b@[2].0 as int, b@[2].1 as int));
        trinary_of(line, b[0].0, b[0].1, b[1].0, b[1].1, b[2].0, b[2].1)
    } else {
        None
    }
}


/// The set of values that a list holds.
pub open spec fn members<T>(v: Seq<T>) -> Set<T> {
    Set::new(|x: T| v.contains(x))
}

/// Whether the commands `c`, `continue`, `d` and `s`/`step` hand control back to the emulator.
pub open spec fn resumes(c: Command) -> bool {
    c is Continue || c is Display || c is Step
}

fn has_address(v: &Vec<u16>, x: u16) -> (r: bool)
    ensures
        r == v@.contains(x),
{
    let mut i: usize = 0;
    while i < v.len()
        invariant
            i <= v@.len(),
            forall|j: int| 0 <= j < i ==> v@[j] != x,
        decreases v@.len() - i,
    {
        if v[i] == x {
            return true;
        }
        i = i + 1;
    }
    false
}

fn has_op(v: &Vec<u8>, x: u8) -> (r: bool)
    ensures
        r == v@.contains(x),
{
    let mut i: usize = 0;
    while i < v.len()
        invariant
            i <= v@.len(),
            forall|j: int| 0 <= j < i ==> v@[j] != x,
        decreases v@.len() - i,
    {
        if v[i] == x {
            return true;
        }
        i = i + 1;
    }
    false
}

proof fn lemma_push_members<T>(v: Seq<T>, x: T)
    ensures
        members(v.push(x)) == members(v).insert(x),
{
    assert forall|y: T| members(v.push(x)).contains(y) <==> members(v).insert(x).contains(y) by {
        if v.contains(y) {
            let j = choose|j: int| 0 <= j < v.len() && v[j] == y;
            assert(v.push(x)[j] == y);
        }
        if y == x {
            assert(v.push(x)[v.len() as int] == y);
        }
        if v.push(x).contains(y) && y != x {
            let j = choose|j: int| 0 <= j < v.push(x).len() && v.push(x)[j] == y;
            assert(v[j] == y);
        }
    }
    assert(members(v.push(x)) =~= members(v).insert(x));
}

/// The state of the debugger: whether it stops before each instruction, its breakpoints on
/// addresses and on opcodes, its watched addresses, and the last command line typed.
pub struct Debugger {
    pub stepping: bool,
    pub address_breakpoints: Vec<u16>,
    pub op_breakpoints: Vec<u8>,
    pub last_command: Vec<u8>,
    pub watches: Vec<u16>,
}

impl Debugger {
    /// Each list holds a value at most once.
    pub open spec fn wf(&self) -> bool {
        &&& self.address_breakpoints@.no_duplicates()
        &&& self.op_breakpoints@.no_duplicates()
        &&& self.watches@.no_duplicates()
    }

    /// A debugger that runs freely, with no breakpoint, no watch, and `s` as last command.
    pub fn new() -> (d: Debugger)
        ensures
            d.wf(),
            !d.stepping,
            d.address_breakpoints@ == Seq::<u16>::empty(),
            d.op_breakpoints@ == Seq::<u8>::empty(),
            d.watches@ == Seq::<u16>::empty(),
            d.last_command@ == seq![0x73u8],
    {
        let last = vec![0x73u8];
        assert(last@ =~= seq![0x73u8]);
        Debugger {
            stepping: false,
            address_breakpoints: Vec::new(),
            op_breakpoints: Vec::new(),
            last_command: last,
            watches: Vec::new(),
        }
    }

    /// Adds a breakpoint on an address.
    pub fn add_address_breakpoint(&mut self, address: u16)
        requires
            old(self).wf(),
        ensures
            final(self).wf(),
            members(final(self).address_breakpoints@) == members(old(self).address_breakpoints@).insert(address),
            final(self).op_breakpoints == old(self).op_breakpoints,
            final(self).watches == old(self).watches,
            final(self).stepping == old(self).stepping,
            final(self).last_command == old(self).last_command,
    {
        proof { lemma_push_members(self.address_breakpoints@, address); }
        if !has_address(&self.address_breakpoints, address) {
            self.address_breakpoints.push(address);
        } else {
            assert(members(self.address_breakpoints@).insert(address) =~= members(self.address_breakpoints@));
        }
    }

    /// Adds a breakpoint on an opcode.
    pub fn add_op_breakpoint(&mut self, op: u8)
        requires
            old(self).wf(),
        ensures
            final(self).wf(),
            members(final(self).op_breakpoints@) == members(old(self).op_breakpoints@).insert(op),
            final(self).address_breakpoints == old(self).address_breakpoints,
            final(self).watches == old(self).watches,
            final(self).stepping == old(self).stepping,
            final(self).last_command == old(self).last_command,
    {
        proof { lemma_push_members(self.op_breakpoints@, op); }
        if !has_op(&self.op_breakpoints, op) {
            self.op_breakpoints.push(op);
        } else {
            assert(members(self.op_breakpoints@).insert(op) =~= members(self.op_breakpoints@));
        }
    }

    /// Adds an address to the watch list.
    pub fn add_watch(&mut self, address: u16)
        requires
            old(self).wf(),
        ensures
            final(self).wf(),
            members(final(self).watches@) == members(old(self).watches@).insert(address),
            final(self).address_breakpoints == old(self).address_breakpoints,
            final(self).op_breakpoints == old(self).op_breakpoints,
            final(self).stepping == old(self).stepping,
            final(self).last_command == old(self).last_command,
    {
        proof { lemma_push_members(self.watches@, address); }
        if !has_address(&self.watches, address) {
            self.watches.push(address);
        } else {
            assert(members(self.watches@).insert(address) =~= members(self.watches@));
        }
    }
}


/// What a command does to the debugger's state `d0`, giving `d1`: `clear` empties the
/// breakpoints, `bo`, `ba` and `w` add to their lists, `c` and `d` stop the stepping, and nothing
/// else changes.
pub open spec fn command_effect(d0: Debugger, d1: Debugger, c: Command) -> bool {
    &&& d1.last_command == d0.last_command
    &&& d1.stepping == (if c is Continue || c is Display { false } else { d0.stepping })
    &&& members(d1.address_breakpoints@) == match c {
        Command::Clear => Set::empty(),
        Command::BreakAddress(a) => members(d0.address_breakpoints@).insert(a),
        _ => members(d0.address_breakpoints@),
    }
    &&& members(d1.op_breakpoints@) == match c {
        Command::Clear => Set::empty(),
        Command::BreakOp(op) => members(d0.op_breakpoints@).insert(op),
        _ => members(d0.op_breakpoints@),
    }
    &&& members(d1.watches@) == match c {
        Command::Watch(a) => members(d0.watches@).insert(a),
        _ => members(d0.watches@),
    }
}

/// A line without its line-feed and carriage-return bytes.
pub open spec fn strip_line_ends(s: Seq<u8>) -> Seq<u8>
    decreases s.len(),
{
    if s.len() == 0 {
        Seq::empty()
    } else {
        let p = strip_line_ends(s.drop_last());
        if s.last() == 0x0A || s.last() == 0x0D {
            p
        } else {
            p.push(s.last())
        }
    }
}

impl Debugger {
    /// Carries out the part of a command that concerns the debugger itself, and says whether
    /// the emulator may run on. The rest (printing, memory, the emulator's own watch, quitting)
    /// is left to the caller, which knows the command.
    pub fn apply(&mut self, c: Command) -> (resume: bool)
        requires
            old(self).wf(),
        ensures
            final(self).wf(),
            resume == resumes(c),
            command_effect(*old(self), *final(self), c),
    {
        match c {
            Command::Clear => {
                self.op_breakpoints.clear();
                self.address_breakpoints.clear();
                assert(members(self.op_breakpoints@) =~= Set::empty());
                assert(members(self.address_breakpoints@) =~= Set::empty());
                false
            },
            Command::Continue => {
                self.stepping = false;
                true
            },
            Command::Display => {
                self.stepping = false;
                true
            },
            Command::Step => true,
            Command::BreakOp(op) => {
                self.add_op_breakpoint(op);
                false
            },
            Command::BreakAddress(a) => {
                self.add_address_breakpoint(a);
                false
            },
            Command::Watch(a) => {
                self.add_watch(a);
                false
            },
            _ => false,
        }
    }

    /// Reads a command line and carries it out as `apply` does, giving the command and whether
    /// the emulator may run on; `None` (and no change) for a line that is not understood.
    pub fn exec(&mut self, line: &[u8]) -> (r: Option<(Command, bool)>)
        requires
            old(self).wf(),
        ensures
            final(self).wf(),
            r is None <==> parse_spec(line@) is None,
            r is None ==> *final(self) == *old(self),
            r matches Some((c, resume)) ==> parse_spec(line@) == Some(c) && resume == resumes(c)
                && command_effect(*old(self), *final(self), c),
    {
        match parse_command(line) {
            Some(cmd) => {
                let resume = self.apply(cmd);
                Some((cmd, resume))
            },
            None => None,
        }
    }

    /// Whether the instruction at `pc`, of opcode `op`, is a breakpoint (by address, by opcode,
    /// or because the emulator saw a watched memory access); if so, the debugger steps from
    /// now on.
    pub fn check_breakpoints(&mut self, pc: u16, op: u8, memory_hit: bool) -> (hit: bool)
        requires
            old(self).wf(),
        ensures
            final(self).wf(),
            hit == (old(self).address_breakpoints@.contains(pc) || old(self).op_breakpoints@.contains(op)
                || memory_hit),
            final(self).stepping == (old(self).stepping || hit),
            final(self).address_breakpoints == old(self).address_breakpoints,
            final(self).op_breakpoints == old(self).op_breakpoints,
            final(self).watches == old(self).watches,
            final(self).last_command == old(self).last_command,
    {
        let hit = has_address(&self.address_breakpoints, pc) || has_op(&self.op_breakpoints, op)
            || memory_hit;
        if hit {
            self.stepping = true;
        }
        hit
    }

    /// Stops the emulator: the debugger steps from now on.
    pub fn breakpoint(&mut self)
        ensures
            final(self).stepping,
            final(self).address_breakpoints == old(self).address_breakpoints,
            final(self).op_breakpoints == old(self).op_breakpoints,
            final(self).watches == old(self).watches,
            final(self).last_command == old(self).last_command,
    {
        self.stepping = true;
    }

    /// The command line to run for a line typed at the prompt: the line without its line ends,
    /// which becomes the last command, or the last command again if nothing else was typed.
    pub fn next_line(&mut self, input: &[u8]) -> (line: Vec<u8>)
        ensures
            strip_line_ends(input@).len() > 0 ==> line@ == strip_line_ends(input@)
                && final(self).last_command@ == line@,
            strip_line_ends(input@).len() == 0 ==> line@ == old(self).last_command@
                && final(self).last_command == old(self).last_command,
            final(self).stepping == old(self).stepping,
            final(self).address_breakpoints == old(self).address_breakpoints,
            final(self).op_breakpoints == old(self).op_breakpoints,
            final(self).watches == old(self).watches,
    {
        let mut stripped: Vec<u8> = Vec::new();
        let mut i: usize = 0;
        while i < input.len()
            invariant
                i <= input@.len(),
                stripped@ == strip_line_ends(input@.take(i as int)),
            decreases input@.len() - i,
        {
            assert(input@.take(i as int + 1).drop_last() =~= input@.take(i as int));
            if input[i] != 0x0A && input[i] != 0x0D {
                stripped.push(input[i]);
            }
            i = i + 1;
        }
        assert(input@.take(input@.len() as int) =~= input@);
        if stripped.len() > 0 {
            let mut copy: Vec<u8> = Vec::new();
            let mut k: usize = 0;
            while k < stripped.len()
                invariant
                    k <= stripped@.len(),
                    copy@ == stripped@.take(k as int),
                decreases stripped@.len() - k,
            {
                copy.push(stripped[k]);
                k = k + 1;
                assert(copy@ =~= stripped@.take(k as int));
            }
            assert(stripped@.take(stripped@.len() as int) =~= stripped@);
            self.last_command = copy;
            stripped
        } else {
            let mut copy: Vec<u8> = Vec::new();
            let mut k: usize = 0;
            while k < self.last_command.len()
                invariant
                    k <= self.last_command@.len(),
                    copy@ == self.last_command@.take(k as int),
                decreases self.last_command@.len() - k,
            {
                copy.push(self.last_command[k]);
                k = k + 1;
                assert(copy@ =~= self.last_command@.take(k as int));
            }
            assert(self.last_command@.take(self.last_command@.len() as int) =~= self.last_command@);
            copy
        }
    }
}

} // verus!
