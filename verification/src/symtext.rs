//! The text of a symbol: its packed characters, or its name, falling back to
//! hexadecimal digits.

use vstd::prelude::*;
use crate::abi::{spec_utf8, utf8_text, ValueView};
use crate::layout::spec_uuid_text;
use crate::canon::{spec_sym_name, sym_name, Symbol};

verus! {

/// The hexadecimal digits, lower case.
pub open spec fn hex_chars() -> Seq<char> {
    seq!['0', '1', '2', '3', '4', '5', '6', '7', '8', '9', 'a', 'b', 'c', 'd', 'e', 'f']
}

/// `n` in hexadecimal, lower case, no leading zeros.
pub open spec fn hex_text(n: nat) -> Seq<char>
    decreases n,
{
    if n < 16 {
        seq![hex_chars()[n as int]]
    } else {
        hex_text(n / 16).push(hex_chars()[(n % 16) as int])
    }
}

/// `s` with zeros in front up to `width` characters.
pub open spec fn zero_pad(s: Seq<char>, width: nat) -> Seq<char> {
    if s.len() >= width {
        s
    } else {
        Seq::new((width - s.len()) as nat, |i: int| '0') + s
    }
}

/// The non-zero bytes of a symbol's three packed characters, high first.
pub open spec fn symbol_bytes(code: u32) -> Seq<u8> {
    let c1 = ((code >> 16u32) & 0xffu32) as u8;
    let c2 = ((code >> 8u32) & 0xffu32) as u8;
    let c3 = (code & 0xffu32) as u8;
    (if c1 != 0 {
        seq![c1]
    } else {
        Seq::empty()
    }) + (if c2 != 0 {
        seq![c2]
    } else {
        Seq::empty()
    }) + (if c3 != 0 {
        seq![c3]
    } else {
        Seq::empty()
    })
}

/// The text of a symbol: its packed characters when they are UTF-8, else
/// its code in hexadecimal.
pub open spec fn spec_symbol_string(code: u32) -> Seq<char> {
    match spec_utf8(symbol_bytes(code)) {
        Some(s) => s,
        None => hex_text(code as nat),
    }
}

/// How a symbol is shown: its well-known name, else `0x` and its code in at
/// least six hexadecimal digits.
pub open spec fn spec_symbol_display(code: u32) -> Seq<char> {
    if spec_sym_name(code).len() == 0 {
        seq!['0', 'x'] + zero_pad(hex_text(code as nat), 6)
    } else {
        spec_sym_name(code)
    }
}

fn hex_digit_str(d: u32) -> (s: &'static str)
    requires
        d < 16,
    ensures
        s@ == seq![hex_chars()[d as int]],
{
    proof {
        reveal_strlit("0");
        assert("0"@ =~= seq!['0']);
        reveal_strlit("1");
        assert("1"@ =~= seq!['1']);
        reveal_strlit("2");
        assert("2"@ =~= seq!['2']);
        reveal_strlit("3");
        assert("3"@ =~= seq!['3']);
        reveal_strlit("4");
        assert("4"@ =~= seq!['4']);
        reveal_strlit("5");
        assert("5"@ =~= seq!['5']);
        reveal_strlit("6");
        assert("6"@ =~= seq!['6']);
        reveal_strlit("7");
        assert("7"@ =~= seq!['7']);
        reveal_strlit("8");
        assert("8"@ =~= seq!['8']);
        reveal_strlit("9");
        assert("9"@ =~= seq!['9']);
        reveal_strlit("a");
        assert("a"@ =~= seq!['a']);
        reveal_strlit("b");
        assert("b"@ =~= seq!['b']);
        reveal_strlit("c");
        assert("c"@ =~= seq!['c']);
        reveal_strlit("d");
        assert("d"@ =~= seq!['d']);
        reveal_strlit("e");
        assert("e"@ =~= seq!['e']);
        reveal_strlit("f");
        assert("f"@ =~= seq!['f']);
    }
    match d {
        0 => "0",
        1 => "1",
        2 => "2",
        3 => "3",
        4 => "4",
        5 => "5",
        6 => "6",
        7 => "7",
        8 => "8",
        9 => "9",
        10 => "a",
        11 => "b",
        12 => "c",
        13 => "d",
        14 => "e",
        _ => "f",
    }
}

fn append_hex(out: &mut String, n: u32)
    ensures
        final(out)@ == old(out)@ + hex_text(n as nat),
    decreases n,
{
    if n >= 16 {
        append_hex(out, n / 16);
    }
    out.append(hex_digit_str(n % 16));
    proof {
        if n >= 16 {
            assert((n / 16) as nat == (n as nat) / 16);
        }
    }
}

/// The text of a symbol (its packed characters, else hexadecimal).
pub fn symbol_string(sym: Symbol) -> (s: String)
    ensures
        s@ == spec_symbol_string(sym.0),
{
    let val = sym.0;
    let c1 = ((val >> 16u32) & 0xffu32) as u8;
    let c2 = ((val >> 8u32) & 0xffu32) as u8;
    let c3 = (val & 0xffu32) as u8;
    let mut bytes: Vec<u8> = Vec::new();
    if c1 != 0 {
        bytes.push(c1);
    }
    if c2 != 0 {
        bytes.push(c2);
    }
    if c3 != 0 {
        bytes.push(c3);
    }
    proof {
        assert(bytes@ =~= symbol_bytes(val));
    }
    match utf8_text(bytes.as_slice()) {
        Some(s) => s,
        None => {
            let mut s = String::new();
            append_hex(&mut s, val);
            proof {
                assert(s@ =~= hex_text(val as nat));
            }
            s
        },
    }
}

/// How a symbol is shown (its name, else `0x` and six or more hex digits).
pub fn symbol_display(sym: Symbol) -> (s: String)
    ensures
        s@ == spec_symbol_display(sym.0),
{
    let name = sym_name(sym);
    if name.unicode_len() != 0 {
        return String::from_str(name);
    }
    let mut digits = String::new();
    append_hex(&mut digits, sym.0);
    proof {
        assert(digits@ =~= hex_text(sym.0 as nat));
        reveal_strlit("0x");
        assert("0x"@ =~= seq!['0', 'x']);
        reveal_strlit("0");
        assert("0"@ =~= seq!['0']);
    }
    let n = digits.as_str().unicode_len();
    let mut s = String::from_str("0x");
    let mut k: usize = n;
    while k < 6
        invariant
            n == hex_text(sym.0 as nat).len(),
            n <= k <= 6 || (n > 6 && k == n),
            s@ == seq!['0', 'x'] + Seq::new((k - n) as nat, |i: int| '0'),
        decreases 6 - k,
    {
        s.append("0");
        proof {
            reveal_strlit("0");
            assert("0"@ =~= seq!['0']);
            assert(s@ =~= seq!['0', 'x'] + Seq::new((k + 1 - n) as nat, |i: int| '0'));
        }
        k = k + 1;
    }
    s.append(digits.as_str());
    proof {
        if n >= 6 {
            assert(Seq::new((k - n) as nat, |i: int| '0') =~= Seq::<char>::empty());
            assert(s@ =~= seq!['0', 'x'] + hex_text(sym.0 as nat));
        } else {
            assert(k == 6);
            assert(s@ =~= seq!['0', 'x'] + zero_pad(hex_text(sym.0 as nat), 6));
        }
    }
    s
}

/// `n` in decimal, no leading zeros.
pub open spec fn dec_text(n: nat) -> Seq<char>
    decreases n,
{
    if n < 10 {
        seq![hex_chars()[n as int]]
    } else {
        dec_text(n / 10).push(hex_chars()[(n % 10) as int])
    }
}

/// Append `n` in decimal.
pub fn append_dec(out: &mut String, n: u64)
    ensures
        final(out)@ == old(out)@ + dec_text(n as nat),
    decreases n,
{
    if n >= 10 {
        append_dec(out, n / 10);
    }
    let d = (n % 10) as u32;
    out.append(hex_digit_str(d));
    proof {
        if n >= 10 {
            assert((n / 10) as nat == (n as nat) / 10);
        }
    }
}

/// A signed number in decimal, with `-` in front when negative.
pub open spec fn signed_text(n: i64) -> Seq<char> {
    if n < 0 {
        seq!['-'] + dec_text((-n) as nat)
    } else {
        dec_text(n as nat)
    }
}

/// Append a signed number in decimal.
pub fn append_signed(out: &mut String, n: i64)
    ensures
        final(out)@ == old(out)@ + signed_text(n),
{
    if n < 0 {
        proof {
            reveal_strlit("-");
            assert("-"@ =~= seq!['-']);
        }
        out.append("-");
        let m: u64 = ((-(n + 1)) as u64) + 1;
        let ghost mid = out@;
        append_dec(out, m);
        proof {
            assert(m as nat == (-n) as nat);
            assert(out@ =~= old(out)@ + signed_text(n));
        }
    } else {
        append_dec(out, n as u64);
    }
}

/// How a symbol shows inside a value: by its name, or as its code in decimal.
pub open spec fn sym_text(code: u32, names: bool) -> Seq<char> {
    if names {
        spec_symbol_display(code)
    } else {
        dec_text(code as nat)
    }
}

/// Append how a symbol shows inside a value.
pub fn append_sym(out: &mut String, sym: Symbol, names: bool)
    ensures
        final(out)@ == old(out)@ + sym_text(sym.0, names),
{
    if names {
        let t = symbol_display(sym);
        out.append(t.as_str());
    } else {
        append_dec(out, sym.0 as u64);
    }
}

/// The keys of a map in increasing order.
pub open spec fn sorted_keys<V>(m: Map<u32, V>) -> Seq<u32> {
    choose|s: Seq<u32>| crate::symset::strictly_increasing(s) && s.to_set() == m.dom()
}

/// Two increasing sequences with the same members are the same.
pub proof fn lemma_increasing_unique(a: Seq<u32>, b: Seq<u32>)
    requires
        crate::symset::strictly_increasing(a),
        crate::symset::strictly_increasing(b),
        a.to_set() == b.to_set(),
    ensures
        a == b,
    decreases a.len(),
{
    if a.len() == 0 {
        if b.len() > 0 {
            assert(b.to_set().contains(b[0]));
        }
    } else {
        assert(a.to_set().contains(a[0]));
        assert(b.to_set().contains(a[0]));
        assert(b.len() > 0);
        assert(b.to_set().contains(b[0]));
        assert(a.to_set().contains(b[0]));
        let i = choose|i: int| 0 <= i < b.len() && b[i] == a[0];
        let j = choose|j: int| 0 <= j < a.len() && a[j] == b[0];
        if i > 0 {
            assert(b[0] < b[i]);
            if j > 0 {
                assert(a[0] < a[j]);
            }
        }
        assert(a[0] == b[0]);
        let ra = a.drop_first();
        let rb = b.drop_first();
        assert(ra.to_set() =~= rb.to_set()) by {
            assert forall|x: u32| ra.to_set().contains(x) implies rb.to_set().contains(x) by {
                let k = choose|k: int| 0 <= k < ra.len() && ra[k] == x;
                assert(a[k + 1] == x);
                assert(a[0] < x);
                assert(b.to_set().contains(x));
                let l = choose|l: int| 0 <= l < b.len() && b[l] == x;
                assert(l != 0);
                assert(rb[l - 1] == x);
            }
            assert forall|x: u32| rb.to_set().contains(x) implies ra.to_set().contains(x) by {
                let k = choose|k: int| 0 <= k < rb.len() && rb[k] == x;
                assert(b[k + 1] == x);
                assert(b[0] < x);
                assert(a.to_set().contains(x));
                let l = choose|l: int| 0 <= l < a.len() && a[l] == x;
                assert(l != 0);
                assert(ra[l - 1] == x);
            }
        }
        lemma_increasing_unique(ra, rb);
        assert(a =~= seq![a[0]] + ra);
        assert(b =~= seq![b[0]] + rb);
    }
}

/// The text of a value: `null`, booleans and numbers as usual, byte strings
/// and blobs by their length, symbols as `sym_text`, identifiers hyphenated,
/// text in double quotes, maps as `{k: v, ...}` in increasing key order and
/// lists as `[v, ...]`.
pub open spec fn value_text(v: ValueView, names: bool) -> Seq<char>
    decreases v, 0nat,
{
    match v {
        ValueView::Null => seq!['n', 'u', 'l', 'l'],
        ValueView::Bool(b) => if b {
            seq!['t', 'r', 'u', 'e']
        } else {
            seq!['f', 'a', 'l', 's', 'e']
        },
        ValueView::U64(n) => dec_text(n as nat),
        ValueView::I64(n) => signed_text(n),
        ValueView::Bytes(b) => seq!['b', 'y', 't', 'e', 's', '('] + dec_text(b.len()) + seq![')'],
        ValueView::Blob(b) => seq!['b', 'l', 'o', 'b', '('] + dec_text(b.len()) + seq![')'],
        ValueView::Symbol(s) => sym_text(s, names),
        ValueView::Uuid(u) => spec_uuid_text(u),
        ValueView::Text(t) => seq!['"'] + t + seq!['"'],
        ValueView::Dict(m) => seq!['{'] + dict_text(m, sorted_keys(m), names) + seq!['}'],
        ValueView::List(items) => seq!['['] + list_text(items, names) + seq![']'],
    }
}

/// The items of a list, each as `value_text`, separated by `, `.
pub open spec fn list_text(items: Seq<ValueView>, names: bool) -> Seq<char>
    decreases items, items.len(),
{
    if items.len() == 0 {
        Seq::empty()
    } else if items.len() == 1 {
        value_text(items[0], names)
    } else {
        list_text(items.subrange(0, items.len() - 1), names) + seq![',', ' '] + value_text(items[items.len() - 1], names)
    }
}

/// The entries of a map under the given keys, each as `k: v`, separated by `, `.
pub open spec fn dict_text(m: Map<u32, ValueView>, keys: Seq<u32>, names: bool) -> Seq<char>
    decreases m, keys.len(),
{
    if keys.len() == 0 {
        Seq::empty()
    } else {
        let k = keys.last();
        let entry = if m.dom().finite() && m.dom().contains(k) {
            proof {
                vstd::map::axiom_map_index_decreases_finite(m, k);
            }
            sym_text(k, names) + seq![':', ' '] + value_text(m[k], names)
        } else {
            Seq::empty()
        };
        if keys.len() == 1 {
            entry
        } else {
            dict_text(m, keys.drop_last(), names) + seq![',', ' '] + entry
        }
    }
}

} // verus!
