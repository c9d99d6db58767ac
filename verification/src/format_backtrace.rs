//! Reducing a captured backtrace to its interesting middle.
//!
//! A raw backtrace starts with the panic machinery's own frames and ends
//! with the runtime's startup frames.  The standard library brackets the
//! interesting part between two marker symbols; this module models a
//! backtrace as a list of items — a symbol name or, where no symbol was
//! resolved, a bare address — and cuts the list down to the frames
//! between the markers, dropping the panic plumbing itself.
//!
//! Whether a marker occurs in a symbol is decided on the demangled form
//! of its name, obtained from the `backtrace` crate.

use std::fmt::Write;

use vstd::prelude::*;
use vstd::string::StringSliceAdditionalSpecFns;

verus! {

/// One backtrace entry: the raw bytes of a symbol name, or the frame's
/// symbol address where no name was resolved.
#[derive(Debug, PartialEq, Eq)]
pub enum BacktraceItem {
    Name(Vec<u8>),
    Addr(usize),
}

/// The demangled, human-readable form (as UTF-8 bytes) of a raw symbol
/// name; a function of the raw bytes alone.
pub uninterp spec fn demangled(name: Seq<u8>) -> Seq<u8>;

/// Relies on the `Display` of `backtrace::SymbolName` in its alternate
/// form: it demangles the raw symbol bytes, deterministically, without
/// the trailing hash; the buffer only collects what it prints.
#[verifier::external_body]
fn demangle_symbol(name: &[u8]) -> (r: Vec<u8>)
    ensures
        r@ == demangled(name@),
{
    let mut buf: smallstr::SmallString<[u8; 1024]> = smallstr::SmallString::new();
    let _ = write!(buf, "{:#}", backtrace::SymbolName::new(name));
    buf.as_str().as_bytes().to_vec()
}

/// Whether `needle` occurs as a contiguous run of bytes in `haystack`.
pub open spec fn contains_seq(haystack: Seq<u8>, needle: Seq<u8>) -> bool {
    exists|i: int|
        0 <= i && i + needle.len() <= haystack.len() && #[trigger] haystack.subrange(
            i,
            i + needle.len(),
        ) == needle
}

/// Byte-string search: does `needle` occur contiguously in `haystack`?
fn bytes_contain(haystack: &Vec<u8>, needle: &[u8]) -> (r: bool)
    ensures
        r == contains_seq(haystack@, needle@),
{
    let hl: usize = haystack.len();
    let nl: usize = needle.len();
    if nl > hl {
        return false;
    }
    let mut i: usize = 0;
    while i <= hl - nl
        invariant
            nl <= hl,
            hl == haystack@.len(),
            nl == needle@.len(),
            forall|k: int|
                0 <= k < i ==> #[trigger] haystack@.subrange(k, k + needle@.len()) != needle@,
        decreases hl - nl - i + 1,
    {
        let mut j: usize = 0;
        let mut ok: bool = true;
        while ok && j < nl
            invariant
                j <= nl,
                i + nl <= hl,
                hl == haystack@.len(),
                nl == needle@.len(),
                ok ==> forall|m: int| 0 <= m < j ==> haystack@[i + m] == #[trigger] needle@[m],
                !ok ==> exists|m: int| 0 <= m < nl && haystack@[i + m] != #[trigger] needle@[m],
            decreases nl - j + (if ok {
                1int
            } else {
                0int
            }),
        {
            if haystack[i + j] != *vstd::slice::slice_index_get(needle, j) {
                ok = false;
            } else {
                j += 1;
            }
        }
        if ok {
            proof {
                assert(haystack@.subrange(i as int, i + needle@.len()) =~= needle@);
            }
            return true;
        }
        proof {
            let m = choose|m: int| 0 <= m < nl && haystack@[i + m] != needle@[m];
            assert(haystack@.subrange(i as int, i + needle@.len())[m] == haystack@[i + m]);
        }
        i += 1;
    }
    proof {
        assert(forall|k: int|
            0 <= k && k + needle@.len() <= haystack@.len() ==> #[trigger] haystack@.subrange(
                k,
                k + needle@.len(),
            ) != needle@);
    }
    false
}

/// Whether the item is a symbol name whose demangled form contains the
/// given byte string.
pub open spec fn name_contains(item: BacktraceItem, needle: Seq<u8>) -> bool {
    match item {
        BacktraceItem::Name(name) => contains_seq(demangled(name@), needle),
        BacktraceItem::Addr(_) => false,
    }
}

/// Decides [`name_contains`] for an item: an address never matches, a
/// name matches when its demangled form contains `s`.
pub fn item_name_contains(item: &BacktraceItem, s: &str) -> (r: bool)
    ensures
        r == name_contains(*item, s.spec_bytes()),
{
    match item {
        BacktraceItem::Name(name) => {
            let demangled_name = demangle_symbol(name.as_slice());
            bytes_contain(&demangled_name, s.as_bytes())
        },
        BacktraceItem::Addr(_) => false,
    }
}

/// The marker closing the panic machinery's own frames.
pub open spec fn end_marker() -> Seq<u8> {
    "__rust_end_short_backtrace".spec_bytes()
}

/// The marker opening the runtime's startup frames.
pub open spec fn start_marker() -> Seq<u8> {
    "__rust_begin_short_backtrace".spec_bytes()
}

/// An item is an end marker when its demangled name mentions the symbol
/// the standard library plants at the bottom of the panic machinery.
pub open spec fn is_end_item(item: BacktraceItem) -> bool {
    name_contains(item, end_marker())
}

/// An item is a start marker when its demangled name mentions the symbol
/// the standard library plants at the top of the program's own frames.
pub open spec fn is_start_item(item: BacktraceItem) -> bool {
    name_contains(item, start_marker())
}

/// Decides whether the item closes the panic machinery's frames.
pub fn item_is_end(item: &BacktraceItem) -> (r: bool)
    ensures
        r == is_end_item(*item),
{
    item_name_contains(item, "__rust_end_short_backtrace")
}

/// Decides whether the item opens the runtime's startup frames.
pub fn item_is_start(item: &BacktraceItem) -> (r: bool)
    ensures
        r == is_start_item(*item),
{
    item_name_contains(item, "__rust_begin_short_backtrace")
}

/// The byte of the lowercase hexadecimal digit with value `d`.
pub open spec fn hex_digit(d: nat) -> u8 {
    if d < 10 {
        (0x30 + d) as u8
    } else {
        (0x57 + d) as u8
    }
}

/// The lowercase hexadecimal digits of `n`, most significant first, with
/// no leading zeros (a single zero digit for zero itself).
pub open spec fn hex_bytes(n: nat) -> Seq<u8>
    decreases n,
{
    if n < 16 {
        seq![hex_digit(n)]
    } else {
        hex_bytes(n / 16).push(hex_digit(n % 16))
    }
}

/// How an item reads: a symbol as its demangled name, a bare address as
/// `0x` followed by its hexadecimal digits.
pub open spec fn item_display(item: BacktraceItem) -> Seq<u8> {
    match item {
        BacktraceItem::Name(name) => demangled(name@),
        BacktraceItem::Addr(addr) => seq![0x30u8, 0x78u8] + hex_bytes(addr as nat),
    }
}

/// Formats `n` in lowercase hexadecimal.
fn hex_of_usize(n: usize) -> (r: Vec<u8>)
    ensures
        r@ == hex_bytes(n as nat),
{
    let mut digits: Vec<u8> = Vec::new();
    let ghost mut acc: Seq<u8> = Seq::empty();
    let mut m: usize = n;
    let mut first: bool = true;
    while first || m > 0
        invariant
            first ==> m == n && digits@.len() == 0 && acc.len() == 0,
            !first ==> {
                &&& (if m > 0 {
                    hex_bytes(n as nat) == hex_bytes(m as nat) + acc
                } else {
                    hex_bytes(n as nat) == acc
                })
                &&& acc.len() >= 1
            },
            digits@.len() == acc.len(),
            forall|j: int| 0 <= j < acc.len() ==> acc[j] == digits@[acc.len() - 1 - j],
        decreases m + (if first {
            1int
        } else {
            0int
        }),
    {
        let d: usize = m % 16;
        let byte: u8 = if d < 10 {
            0x30 + (d as u8)
        } else {
            0x57 + (d as u8)
        };
        proof {
            assert(byte == hex_digit((m % 16) as nat));
            if m >= 16 {
                assert(hex_bytes(m as nat) == hex_bytes((m as nat) / 16).push(
                    hex_digit((m as nat) % 16),
                ));
                assert(hex_bytes((m as nat) / 16).push(hex_digit((m as nat) % 16)) + acc
                    =~= hex_bytes((m as nat) / 16) + (seq![hex_digit((m as nat) % 16)] + acc));
            } else {
                assert(hex_bytes(m as nat) == seq![hex_digit(m as nat)]);
                assert(seq![hex_digit(m as nat)] + acc =~= seq![hex_digit(m as nat)] + acc);
            }
        }
        digits.push(byte);
        proof {
            acc = seq![byte] + acc;
        }
        m = m / 16;
        first = false;
    }
    let mut out: Vec<u8> = Vec::new();
    let len: usize = digits.len();
    let mut idx: usize = 0;
    while idx < len
        invariant
            idx <= len,
            len == digits@.len(),
            digits@.len() == acc.len(),
            forall|j: int| 0 <= j < acc.len() ==> acc[j] == digits@[acc.len() - 1 - j],
            out@.len() == idx,
            forall|j: int| 0 <= j < idx ==> out@[j] == acc[j],
        decreases len - idx,
    {
        out.push(digits[len - 1 - idx]);
        idx += 1;
    }
    proof {
        assert(out@ =~= acc);
    }
    out
}

/// Renders one item for display: the demangled symbol name, or the
/// address in `0x`-prefixed hexadecimal.
pub fn item_display_bytes(item: &BacktraceItem) -> (r: Vec<u8>)
    ensures
        r@ == item_display(*item),
{
    match item {
        BacktraceItem::Name(name) => demangle_symbol(name.as_slice()),
        BacktraceItem::Addr(addr) => {
            let mut out: Vec<u8> = Vec::new();
            out.push(0x30);
            out.push(0x78);
            let digits = hex_of_usize(*addr);
            let ghost prefix = out@;
            let mut k: usize = 0;
            let dlen: usize = digits.len();
            while k < dlen
                invariant
                    k <= dlen,
                    dlen == digits@.len(),
                    prefix == seq![0x30u8, 0x78u8],
                    out@ == prefix + digits@.subrange(0, k as int),
                decreases dlen - k,
            {
                proof {
                    assert(prefix + digits@.subrange(0, k + 1) =~= (prefix + digits@.subrange(
                        0,
                        k as int,
                    )).push(digits@[k as int]));
                }
                out.push(digits[k]);
                k += 1;
            }
            proof {
                assert(digits@.subrange(0, dlen as int) =~= digits@);
            }
            out
        },
    }
}

/// The panic entry point's own frame, dropped from the output.
pub open spec fn unwind_marker() -> Seq<u8> {
    "rust_begin_unwind".spec_bytes()
}

/// The panic formatting frame, dropped from the output.
pub open spec fn panic_fmt_marker() -> Seq<u8> {
    "core::panicking::panic_fmt".spec_bytes()
}

/// An item is noise when it names the panic machinery itself.
pub open spec fn is_noise_item(item: BacktraceItem) -> bool {
    name_contains(item, unwind_marker()) || name_contains(item, panic_fmt_marker())
}

/// What follows the first end marker, or nothing when no item is an end
/// marker.
pub open spec fn tail_after_end(s: Seq<BacktraceItem>) -> Option<Seq<BacktraceItem>>
    decreases s.len(),
{
    if s.len() == 0 {
        None
    } else if is_end_item(s[0]) {
        Some(s.drop_first())
    } else {
        tail_after_end(s.drop_first())
    }
}

/// Everything after the first end marker; the whole list where no end
/// marker was found, so that an unrecognized trace is shown in full.
pub open spec fn short_source(s: Seq<BacktraceItem>) -> Seq<BacktraceItem> {
    match tail_after_end(s) {
        Some(t) => t,
        None => s,
    }
}

/// The prefix strictly before the first start marker.
pub open spec fn take_until_start(s: Seq<BacktraceItem>) -> Seq<BacktraceItem>
    decreases s.len(),
{
    if s.len() == 0 {
        s
    } else if is_start_item(s[0]) {
        Seq::empty()
    } else {
        seq![s[0]] + take_until_start(s.drop_first())
    }
}

/// The list with the panic machinery's own frames removed.
pub open spec fn drop_noise(s: Seq<BacktraceItem>) -> Seq<BacktraceItem> {
    s.filter(|item: BacktraceItem| !is_noise_item(item))
}

/// The short form of a backtrace: the items after the first end marker
/// and before the first start marker, with the panic machinery's own
/// frames dropped.
pub open spec fn short_backtrace(s: Seq<BacktraceItem>) -> Seq<BacktraceItem> {
    drop_noise(take_until_start(short_source(s)))
}

proof fn lemma_tail_after_end_none(s: Seq<BacktraceItem>)
    requires
        forall|k: int| 0 <= k < s.len() ==> !is_end_item(#[trigger] s[k]),
    ensures
        tail_after_end(s) is None,
    decreases s.len(),
{
    if s.len() != 0 {
        assert(forall|k: int|
            0 <= k < s.drop_first().len() ==> !is_end_item(#[trigger] s.drop_first()[k])) by {
            assert(forall|k: int|
                0 <= k < s.drop_first().len() ==> #[trigger] s.drop_first()[k] == s[k + 1]);
        }
        lemma_tail_after_end_none(s.drop_first());
    }
}

proof fn lemma_tail_after_end_at(s: Seq<BacktraceItem>, i: int)
    requires
        0 <= i < s.len(),
        is_end_item(s[i]),
        forall|k: int| 0 <= k < i ==> !is_end_item(#[trigger] s[k]),
    ensures
        tail_after_end(s) == Some(s.subrange(i + 1, s.len() as int)),
    decreases i,
{
    if i == 0 {
        assert(s.drop_first() =~= s.subrange(1, s.len() as int));
    } else {
        assert(forall|k: int|
            0 <= k < i - 1 ==> !is_end_item(#[trigger] s.drop_first()[k])) by {
            assert(forall|k: int|
                0 <= k < s.drop_first().len() ==> #[trigger] s.drop_first()[k] == s[k + 1]);
        }
        assert(s.drop_first()[i - 1] == s[i]);
        lemma_tail_after_end_at(s.drop_first(), i - 1);
        assert(s.drop_first().subrange(i, s.drop_first().len() as int) =~= s.subrange(
            i + 1,
            s.len() as int,
        ));
    }
}

proof fn lemma_take_until_start_none(s: Seq<BacktraceItem>)
    requires
        forall|k: int| 0 <= k < s.len() ==> !is_start_item(#[trigger] s[k]),
    ensures
        take_until_start(s) == s,
    decreases s.len(),
{
    if s.len() != 0 {
        assert(forall|k: int|
            0 <= k < s.drop_first().len() ==> !is_start_item(#[trigger] s.drop_first()[k])) by {
            assert(forall|k: int|
                0 <= k < s.drop_first().len() ==> #[trigger] s.drop_first()[k] == s[k + 1]);
        }
        lemma_take_until_start_none(s.drop_first());
        assert(seq![s[0]] + s.drop_first() =~= s);
    }
}

proof fn lemma_take_until_start_at(s: Seq<BacktraceItem>, i: int)
    requires
        0 <= i < s.len(),
        is_start_item(s[i]),
        forall|k: int| 0 <= k < i ==> !is_start_item(#[trigger] s[k]),
    ensures
        take_until_start(s) == s.subrange(0, i),
    decreases i,
{
    if i == 0 {
        assert(take_until_start(s) =~= s.subrange(0, 0));
    } else {
        assert(forall|k: int|
            0 <= k < i - 1 ==> !is_start_item(#[trigger] s.drop_first()[k])) by {
            assert(forall|k: int|
                0 <= k < s.drop_first().len() ==> #[trigger] s.drop_first()[k] == s[k + 1]);
        }
        assert(s.drop_first()[i - 1] == s[i]);
        lemma_take_until_start_at(s.drop_first(), i - 1);
        assert(s.drop_first().subrange(0, i - 1) =~= s.subrange(1, i));
        assert(seq![s[0]] + s.subrange(1, i) =~= s.subrange(0, i));
    }
}

proof fn lemma_drop_noise_push(s: Seq<BacktraceItem>, item: BacktraceItem)
    ensures
        drop_noise(s.push(item)) == if is_noise_item(item) {
            drop_noise(s)
        } else {
            drop_noise(s).push(item)
        },
{
    reveal(Seq::filter);
    assert(s.push(item).drop_last() =~= s);
    assert(s.push(item).last() == item);
}

/// The items of one backtrace frame: one entry per resolved symbol name,
/// or the frame's bare symbol address when no name was resolved.
pub fn frame_items(symbol_names: Vec<Vec<u8>>, symbol_address: usize) -> (r: Vec<BacktraceItem>)
    ensures
        symbol_names@.len() == 0 ==> r@ == seq![BacktraceItem::Addr(symbol_address)],
        symbol_names@.len() > 0 ==> r@ == symbol_names@.map_values(
            |name: Vec<u8>| BacktraceItem::Name(name),
        ),
{
    let ghost orig = symbol_names@;
    let total: usize = symbol_names.len();
    proof {
        assert(orig.len() == total);
    }
    if symbol_names.len() == 0 {
        let mut out: Vec<BacktraceItem> = Vec::new();
        out.push(BacktraceItem::Addr(symbol_address));
        proof {
            assert(out@ =~= seq![BacktraceItem::Addr(symbol_address)]);
        }
        return out;
    }
    let mut names = symbol_names;
    let mut out: Vec<BacktraceItem> = Vec::new();
    let mut k: usize = 0;
    while names.len() > 0
        invariant
            orig.len() <= usize::MAX,
            k + names@.len() == orig.len(),
            names@ == orig.subrange(k as int, orig.len() as int),
            out@ == orig.subrange(0, k as int).map_values(|name: Vec<u8>| BacktraceItem::Name(name)),
        decreases names@.len(),
    {
        let name = names.remove(0);
        proof {
            assert(orig.subrange(k as int, orig.len() as int).remove(0) =~= orig.subrange(
                k + 1,
                orig.len() as int,
            ));
            assert(orig.subrange(0, k + 1) =~= orig.subrange(0, k as int).push(orig[k as int]));
        }
        out.push(BacktraceItem::Name(name));
        k += 1;
    }
    proof {
        assert(orig.subrange(0, orig.len() as int) =~= orig);
    }
    out
}

/// Cuts a backtrace down to its short form: skips everything up to and
/// including the first end marker (keeping the whole list when there is
/// none), stops before the first start marker, and drops the panic
/// machinery's own frames.
pub fn short_backtrace_items(items: Vec<BacktraceItem>) -> (r: Vec<BacktraceItem>)
    ensures
        r@ == short_backtrace(items@),
{
    let ghost orig = items@;
    let total: usize = items.len();
    proof {
        assert(orig.len() == total);
    }
    let mut idx: usize = 0;
    let mut found: bool = false;
    while !found && idx < items.len()
        invariant
            orig.len() <= usize::MAX,
            idx <= orig.len(),
            items@ == orig,
            forall|k: int| 0 <= k < idx ==> !is_end_item(#[trigger] orig[k]),
            found ==> idx < orig.len() && is_end_item(orig[idx as int]),
        decreases orig.len() - idx + (if found {
            0int
        } else {
            1int
        }),
    {
        if item_is_end(&items[idx]) {
            found = true;
        } else {
            idx += 1;
        }
    }
    let start: usize = if found {
        idx + 1
    } else {
        0
    };
    let ghost src = orig.subrange(start as int, orig.len() as int);
    proof {
        if found {
            lemma_tail_after_end_at(orig, idx as int);
        } else {
            lemma_tail_after_end_none(orig);
            assert(orig.subrange(0, orig.len() as int) =~= orig);
        }
        assert(short_source(orig) == src);
    }
    let mut rest = items;
    let mut k: usize = 0;
    while k < start
        invariant
            k <= start,
            start <= orig.len(),
            rest@ == orig.subrange(k as int, orig.len() as int),
        decreases start - k,
    {
        rest.remove(0);
        proof {
            assert(orig.subrange(k as int, orig.len() as int).remove(0) =~= orig.subrange(
                k + 1,
                orig.len() as int,
            ));
        }
        k += 1;
    }
    let mut out: Vec<BacktraceItem> = Vec::new();
    let mut cnt: usize = 0;
    let mut stopped: bool = false;
    while !stopped && rest.len() > 0
        invariant
            src.len() <= usize::MAX,
            cnt + rest@.len() <= src.len() || stopped,
            !stopped ==> {
                &&& cnt + rest@.len() == src.len()
                &&& rest@ == src.subrange(cnt as int, src.len() as int)
                &&& forall|m: int| 0 <= m < cnt ==> !is_start_item(#[trigger] src[m])
                &&& out@ == drop_noise(src.subrange(0, cnt as int))
            },
            stopped ==> out@ == drop_noise(take_until_start(src)),
        decreases rest@.len() + (if stopped {
            0int
        } else {
            1int
        }),
    {
        let item = rest.remove(0);
        proof {
            assert(src.subrange(cnt as int, src.len() as int).remove(0) =~= src.subrange(
                cnt + 1,
                src.len() as int,
            ));
            assert(item == src[cnt as int]);
        }
        if item_is_start(&item) {
            proof {
                lemma_take_until_start_at(src, cnt as int);
            }
            stopped = true;
        } else {
            proof {
                assert(src.subrange(0, cnt + 1) =~= src.subrange(0, cnt as int).push(
                    src[cnt as int],
                ));
                lemma_drop_noise_push(src.subrange(0, cnt as int), src[cnt as int]);
            }
            let noisy = item_name_contains(&item, "rust_begin_unwind") || item_name_contains(
                &item,
                "core::panicking::panic_fmt",
            );
            if !noisy {
                out.push(item);
            }
            cnt += 1;
        }
    }
    proof {
        if !stopped {
            assert(cnt == src.len());
            assert(src.subrange(0, src.len() as int) =~= src);
            lemma_take_until_start_none(src);
        }
    }
    out
}

} // verus!
