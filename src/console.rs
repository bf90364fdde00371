//! Console sinks: the fixed buffer that holds early output until a real
//! console exists, the UART descriptions a driver is built from, and
//! hexadecimal rendering of register values.

use vstd::prelude::*;
use vstd::string::StrSliceExecFns;
use vstd::string::StringSliceAdditionalSpecFns;

verus! {

/// Capacity of the early output buffer.
pub const TTY_BUFFER_SIZE: usize = 4096;

/// What the decoder of UTF-8 with replacement makes of some bytes.
pub uninterp spec fn lossy_utf8_of(bytes: Seq<u8>) -> Seq<char>;

/// Relies on `String::from_utf8_lossy`: the text of the bytes, with each
/// invalid sequence replaced; empty bytes give empty text.
#[verifier::external_body]
fn utf8_lossy(bytes: &Vec<u8>) -> (r: String)
    ensures
        r@ == lossy_utf8_of(bytes@),
        bytes@.len() == 0 ==> r@.len() == 0,
{
    String::from_utf8_lossy(bytes.as_slice()).into_owned()
}

/// A sink that can hand back what it holds but has not printed.
pub trait TTY {
    fn get_unprinted(&self) -> String;
}

/// The byte a character is stored as: its code point's low byte.
pub open spec fn low_byte(c: char) -> u8 {
    ((c as u32) & 0xffu32) as u8
}

/// Text held after `s` is written to a buffer holding `held`: as much of
/// `s` as fits in the capacity, one byte per character.
pub open spec fn held_after(held: Seq<u8>, s: Seq<char>) -> Seq<u8> {
    let all = held + s.map_values(|c: char| low_byte(c));
    if all.len() <= TTY_BUFFER_SIZE {
        all
    } else {
        all.subrange(0, TTY_BUFFER_SIZE as int)
    }
}

/// The early output buffer: text accumulates until the capacity is
/// reached, after which further text is dropped.
pub struct TTYBuffer {
    pub buffer: Vec<u8>,
    pub current: usize,
    pub count: usize,
}

impl TTYBuffer {
    pub open spec fn wf(&self) -> bool {
        &&& self.buffer.len() == TTY_BUFFER_SIZE
        &&& self.current == self.count
        &&& self.count <= TTY_BUFFER_SIZE
    }

    /// The text held so far.
    pub open spec fn held(&self) -> Seq<u8> {
        self.buffer@.subrange(0, self.count as int)
    }

    /// An empty buffer of the full capacity.
    pub fn new() -> (r: TTYBuffer)
        ensures
            r.wf(),
            r.held().len() == 0,
    {
        let mut buffer: Vec<u8> = Vec::new();
        let mut i: usize = 0;
        while i < TTY_BUFFER_SIZE
            invariant
                i <= TTY_BUFFER_SIZE,
                buffer.len() == i,
            decreases TTY_BUFFER_SIZE - i,
        {
            buffer.push(0);
            i += 1;
        }
        TTYBuffer { buffer, current: 0, count: 0 }
    }

    /// Appends `s`, one byte per character, while there is room.
    pub fn write_str(&mut self, s: &str)
        requires
            old(self).wf(),
        ensures
            final(self).wf(),
            final(self).held() == held_after(old(self).held(), s@),
    {
        let ghost h0 = self.held();
        let n = s.unicode_len();
        let mut i: usize = 0;
        while i < n
            invariant
                self.wf(),
                h0 == old(self).held(),
                n == s@.len(),
                i <= n,
                self.held() == held_after(h0, s@.subrange(0, i as int)),
            decreases n - i,
        {
            if self.count >= TTY_BUFFER_SIZE {
                assert(held_after(h0, s@) =~= self.held()) by {
                    assert(self.held().len() == TTY_BUFFER_SIZE);
                    let a = h0 + s@.subrange(0, i as int).map_values(|c: char| low_byte(c));
                    let b = h0 + s@.map_values(|c: char| low_byte(c));
                    assert(a.len() >= TTY_BUFFER_SIZE);
                    assert forall|k: int| 0 <= k < TTY_BUFFER_SIZE implies a[k] == b[k] by {}
                }
                return;
            }
            let c = s.get_char(i);
            let ghost before = self.held();
            proof {
                let a = h0 + s@.subrange(0, i as int).map_values(|c: char| low_byte(c));
                if a.len() > TTY_BUFFER_SIZE {
                    assert(before.len() == TTY_BUFFER_SIZE);
                }
                assert(a.len() <= TTY_BUFFER_SIZE);
                assert(before == a);
            }
            self.buffer.set(self.current, ((c as u32) & 0xff) as u8);
            self.count += 1;
            self.current += 1;
            i += 1;
            assert(self.held() =~= held_after(h0, s@.subrange(0, i as int))) by {
                let a = h0 + s@.subrange(0, i - 1).map_values(|c: char| low_byte(c));
                let b = h0 + s@.subrange(0, i as int).map_values(|c: char| low_byte(c));
                assert(before == a);
                assert(b =~= a.push(low_byte(c)));
            }
        }
        assert(s@.subrange(0, n as int) =~= s@);
    }

    /// The bytes held so far.
    pub fn held_bytes(&self) -> (r: Vec<u8>)
        requires
            self.wf(),
        ensures
            r@ == self.held(),
    {
        let mut r: Vec<u8> = Vec::new();
        let mut i: usize = 0;
        while i < self.count
            invariant
                self.wf(),
                i <= self.count,
                r@ == self.buffer@.subrange(0, i as int),
            decreases self.count - i,
        {
            r.push(self.buffer[i]);
            i += 1;
            assert(r@ =~= self.buffer@.subrange(0, i as int));
        }
        r
    }
}

impl TTY for TTYBuffer {
    /// The held text, decoded as UTF-8 with replacement.
    fn get_unprinted(&self) -> String {
        if self.buffer.len() == TTY_BUFFER_SIZE && self.current == self.count && self.count
            <= TTY_BUFFER_SIZE {
            let bytes = self.held_bytes();
            utf8_lossy(&bytes)
        } else {
            String::new()
        }
    }
}

impl TTYBuffer {
    /// The held text, decoded as UTF-8 with replacement.
    pub fn unprinted(&self) -> (r: String)
        requires
            self.wf(),
        ensures
            r@ == lossy_utf8_of(self.held()),
    {
        let bytes = self.held_bytes();
        utf8_lossy(&bytes)
    }
}

/// The hexadecimal digit for `n` < 16, lower case.
pub open spec fn hex_digit(n: u64) -> u8 {
    if n < 10 {
        (0x30 + n) as u8
    } else {
        (0x57 + n) as u8
    }
}

/// Nibble `i` of `v`, counting from the most significant.
pub open spec fn nibble(v: u64, i: int) -> u64 {
    (v >> ((4 * (15 - i)) as u64)) & 0xfu64
}

/// `0x` and the sixteen digits of `v`, most significant first.
pub fn hex_u64(value: u64) -> (r: Vec<u8>)
    ensures
        r.len() == 18,
        r[0] == 0x30u8,
        r[1] == 0x78u8,
        forall|i: int| 0 <= i < 16 ==> #[trigger] r[i + 2] == hex_digit(nibble(value, i)),
{
    let mut r: Vec<u8> = Vec::new();
    r.push(0x30u8);
    r.push(0x78u8);
    let mut i: usize = 0;
    while i < 16
        invariant
            i <= 16,
            r.len() == i + 2,
            r[0] == 0x30u8,
            r[1] == 0x78u8,
            forall|j: int| 0 <= j < i ==> #[trigger] r[j + 2] == hex_digit(nibble(value, j)),
        decreases 16 - i,
    {
        let shift: u64 = 4 * (15 - i as u64);
        let n = (value >> shift) & 0xf;
        assert((value >> shift) & 0xfu64 <= 15u64) by (bit_vector);
        let d: u8 = if n < 10 {
            (0x30 + n) as u8
        } else {
            (0x57 + n) as u8
        };
        r.push(d);
        i += 1;
    }
    r
}

/// Index of the first nibble from `i` on that is not zero; the last nibble
/// always counts, so that zero renders as one digit.
pub open spec fn first_significant(v: u64, i: int) -> int
    decreases 15 - i,
{
    if i >= 15 || nibble(v, i) != 0 {
        i
    } else {
        first_significant(v, i + 1)
    }
}

/// `0x` and the digits of `v` without leading zeros, as `{:#x}` renders it.
pub open spec fn hex_trimmed_spec(v: u64) -> Seq<u8> {
    let f = first_significant(v, 0);
    seq![0x30u8, 0x78u8] + Seq::new((16 - f) as nat, |k: int| hex_digit(nibble(v, f + k)))
}

pub fn hex_trimmed(value: u64) -> (r: Vec<u8>)
    ensures
        r@ == hex_trimmed_spec(value),
{
    let full = hex_u64(value);
    let mut f: usize = 0;
    while f < 15 && full[f + 2] == 0x30u8
        invariant
            f <= 15,
            full.len() == 18,
            forall|i: int| 0 <= i < 16 ==> #[trigger] full[i + 2] == hex_digit(nibble(value, i)),
            first_significant(value, 0) == first_significant(value, f as int),
        decreases 15 - f,
    {
        assert(nibble(value, f as int) < 16) by (bit_vector)
            requires
                nibble(value, f as int) == (value >> ((4 * (15 - f)) as u64)) & 0xfu64,
        ;
        f += 1;
    }
    if f < 15 {
        assert(nibble(value, f as int) <= 15) by (bit_vector)
            requires
                nibble(value, f as int) == (value >> ((4 * (15 - f)) as u64)) & 0xfu64,
        ;
        assert(nibble(value, f as int) != 0);
    }
    let mut r: Vec<u8> = Vec::new();
    r.push(0x30u8);
    r.push(0x78u8);
    let mut k: usize = f;
    while k < 16
        invariant
            f <= k <= 16,
            f == first_significant(value, 0),
            full.len() == 18,
            forall|i: int| 0 <= i < 16 ==> #[trigger] full[i + 2] == hex_digit(nibble(value, i)),
            r@ == seq![0x30u8, 0x78u8] + Seq::new((k - f) as nat, |j: int| hex_digit(nibble(value, f + j))),
        decreases 16 - k,
    {
        r.push(full[k + 2]);
        k += 1;
        assert(r@ =~= seq![0x30u8, 0x78u8] + Seq::new((k - f) as nat, |j: int| hex_digit(nibble(value, f + j))));
    }
    r
}

/// One field of the processor description: `NAME=0x...;`.
pub open spec fn register_field_spec(name: Seq<u8>, value: u64) -> Seq<u8> {
    name + seq![0x3du8] + hex_trimmed_spec(value) + seq![0x3bu8]
}

/// The processor-description field for a register, or `None` when the
/// register could not be read or reads as zero.
pub fn register_field(name: &str, value: u64, available: bool) -> (r: Option<Vec<u8>>)
    ensures
        !(available && value != 0) ==> r is None,
        (available && value != 0) ==> (r matches Some(v) && v@ == register_field_spec(name.spec_bytes(), value)),
{
    if !available || value == 0 {
        return None;
    }
    let nb = name.as_bytes();
    let mut out: Vec<u8> = Vec::new();
    let mut i: usize = 0;
    while i < nb.len()
        invariant
            i <= nb.len(),
            nb@ == name.spec_bytes(),
            out@ == nb@.subrange(0, i as int),
        decreases nb.len() - i,
    {
        out.push(nb[i]);
        i += 1;
        assert(out@ =~= nb@.subrange(0, i as int));
    }
    assert(out@ =~= name.spec_bytes());
    out.push(0x3du8);
    let hex = hex_trimmed(value);
    let ghost before = out@;
    let mut k: usize = 0;
    while k < hex.len()
        invariant
            k <= hex.len(),
            out@ == before + hex@.subrange(0, k as int),
        decreases hex.len() - k,
    {
        out.push(hex[k]);
        k += 1;
        assert(out@ =~= before + hex@.subrange(0, k as int));
    }
    assert(hex@.subrange(0, hex.len() as int) =~= hex@);
    out.push(0x3bu8);
    assert(out@ =~= register_field_spec(name.spec_bytes(), value));
    Some(out)
}

/// Early output of one format character: `%` is the value in hexadecimal,
/// `$` the NUL-terminated text at the value's address (read by the caller,
/// at most 256 bytes), any other character itself.
pub open spec fn early_piece(c: char, value: u64, text: Seq<u8>) -> Seq<u8> {
    if c == '%' {
        seq![0x30u8, 0x78u8] + Seq::new(16, |k: int| hex_digit(nibble(value, k)))
    } else if c == '$' {
        text
    } else {
        seq![low_byte(c)]
    }
}

/// Early output of the first `n` format characters.
pub open spec fn early_output(format: Seq<char>, value: u64, text: Seq<u8>, n: int) -> Seq<u8>
    decreases n,
{
    if n <= 0 || n > format.len() {
        Seq::empty()
    } else {
        early_output(format, value, text, n - 1) + early_piece(format[n - 1], value, text)
    }
}

/// The bytes that the early console prints for `format` and `value`;
/// `text` is what `$` stands for.
pub fn early_format(format: &str, value: u64, text: &Vec<u8>) -> (r: Vec<u8>)
    ensures
        r@ == early_output(format@, value, text@, format@.len() as int),
{
    let n = format.unicode_len();
    let hex = hex_u64(value);
    assert(hex@ =~= seq![0x30u8, 0x78u8] + Seq::new(16, |k: int| hex_digit(nibble(value, k)))) by {
        assert forall|k: int| 2 <= k < 18 implies hex@[k] == hex_digit(nibble(value, k - 2)) by {
            assert(hex[(k - 2) + 2] == hex_digit(nibble(value, k - 2)));
        }
    }
    let mut out: Vec<u8> = Vec::new();
    let mut i: usize = 0;
    while i < n
        invariant
            n == format@.len(),
            i <= n,
            hex@ == seq![0x30u8, 0x78u8] + Seq::new(16, |k: int| hex_digit(nibble(value, k))),
            out@ == early_output(format@, value, text@, i as int),
        decreases n - i,
    {
        let c = format.get_char(i);
        let ghost before = out@;
        let piece: &Vec<u8> = if c == '%' {
            &hex
        } else if c == '$' {
            text
        } else {
            out.push(((c as u32) & 0xff) as u8);
            i += 1;
            assert(out@ =~= early_output(format@, value, text@, i as int));
            continue;
        };
        let mut k: usize = 0;
        while k < piece.len()
            invariant
                k <= piece.len(),
                out@ == before + piece@.subrange(0, k as int),
            decreases piece.len() - k,
        {
            out.push(piece[k]);
            k += 1;
            assert(out@ =~= before + piece@.subrange(0, k as int));
        }
        assert(piece@.subrange(0, piece.len() as int) =~= piece@);
        i += 1;
        assert(out@ =~= early_output(format@, value, text@, i as int));
    }
    out
}

pub const PL011: &'static str = "arm,pl011";
pub const SBSA_UART: &'static str = "arm,sbsa-uart";
pub const NS16550: &'static str = "ns16550a";
pub const BROADCOM_BCM2835: &'static str = "brcm,bcm2835-aux-uart";
pub const DESIGNWARE: &'static str = "snps,dw-apb-uart";

/// The text of each string.
pub open spec fn texts(v: Seq<String>) -> Seq<Seq<char>> {
    v.map_values(|c: String| c@)
}

/// Index of the first candidate from `i` on that is one of `names`.
pub open spec fn first_known(candidates: Seq<Seq<char>>, names: Seq<Seq<char>>, i: int) -> Option<Seq<char>>
    decreases candidates.len() - i,
{
    if i < 0 || i >= candidates.len() {
        None
    } else if names.contains(candidates[i]) {
        Some(candidates[i])
    } else {
        first_known(candidates, names, i + 1)
    }
}

/// The first of `candidates` (a `compatible` list) that equals one of
/// `names`.
fn first_compatible(candidates: &Vec<String>, names: &Vec<String>) -> (r: Option<String>)
    ensures
        r matches Some(s) ==> first_known(texts(candidates@), texts(names@), 0) == Some(s@),
        r is None ==> first_known(texts(candidates@), texts(names@), 0) is None,
{
    let ghost cs = texts(candidates@);
    let ghost ns = texts(names@);
    let mut i: usize = 0;
    while i < candidates.len()
        invariant
            i <= candidates.len(),
            cs == texts(candidates@),
            ns == texts(names@),
            first_known(cs, ns, 0) == first_known(cs, ns, i as int),
        decreases candidates.len() - i,
    {
        let mut j: usize = 0;
        while j < names.len()
            invariant
                i < candidates.len(),
                j <= names.len(),
                cs == texts(candidates@),
                ns == texts(names@),
                forall|k: int| 0 <= k < j ==> ns[k] != cs[i as int],
                first_known(cs, ns, 0) == first_known(cs, ns, i as int),
            decreases names.len() - j,
        {
            if candidates[i] == names[j] {
                assert(cs[i as int] == candidates@[i as int]@);
                assert(ns[j as int] == names@[j as int]@);
                assert(ns[j as int] == cs[i as int]);
                assert(ns.contains(cs[i as int]));
                let found = candidates[i].clone();
                assert(found@ == cs[i as int]);
                assert(first_known(cs, ns, i as int) == Some(cs[i as int]));
                return Some(found);
            }
            j += 1;
        }
        assert(forall|k: int| 0 <= k < ns.len() ==> ns[k] == names@[k]@);
        assert(!ns.contains(cs[i as int]));
        i += 1;
    }
    None
}

/// A PL011 UART: the driver writes the data register once the flag
/// register shows room.
pub struct PL011Output {
    pub compatible: String,
    pub data_reg: u64,
    pub flag_reg: u64,
}

/// Offset of the PL011 flag register.
pub const PL011_FLAG_OFFSET: u64 = 0x18;

impl PL011Output {
    pub fn new(compatible: String, mmio_base: u64) -> (r: PL011Output)
        requires
            mmio_base + PL011_FLAG_OFFSET <= u64::MAX,
        ensures
            r.compatible@ == compatible@,
            r.data_reg == mmio_base,
            r.flag_reg == mmio_base + PL011_FLAG_OFFSET,
    {
        PL011Output { compatible, data_reg: mmio_base, flag_reg: mmio_base + PL011_FLAG_OFFSET }
    }

    pub fn from_mmio(compatible: &str, mmio_base: u64, reg_io: u32, reg_shift: u32) -> (r: PL011Output)
        requires
            mmio_base + PL011_FLAG_OFFSET <= u64::MAX,
        ensures
            r.compatible@ == compatible@,
            r.data_reg == mmio_base,
            r.flag_reg == mmio_base + PL011_FLAG_OFFSET,
    {
        PL011Output::new(compatible.to_owned(), mmio_base)
    }

    /// The first entry of a `compatible` list that this driver serves.
    pub fn is_compatible(candidates: &Vec<String>) -> (r: Option<String>)
        ensures
            r matches Some(s) ==> first_known(texts(candidates@), seq![PL011@, SBSA_UART@], 0) == Some(s@),
            r is None ==> first_known(texts(candidates@), seq![PL011@, SBSA_UART@], 0) is None,
    {
        let mut names: Vec<String> = Vec::new();
        names.push(PL011.to_owned());
        names.push(SBSA_UART.to_owned());
        assert(texts(names@) =~= seq![PL011@, SBSA_UART@]);
        first_compatible(candidates, &names)
    }
}

impl TTY for PL011Output {
    /// A UART prints at once and holds nothing.
    fn get_unprinted(&self) -> String {
        String::new()
    }
}

/// Register width and spacing of a 16550-style UART for its `compatible`
/// value.
pub open spec fn ns16550_layout(compatible: Seq<char>, dw_reg_io: u32, dw_reg_shift: u32) -> (u32, u32) {
    if ascii_eq_ignore_case(compatible, BROADCOM_BCM2835@) {
        (1, 4)
    } else if ascii_eq_ignore_case(compatible, DESIGNWARE@) {
        (dw_reg_io, dw_reg_shift)
    } else {
        (1, 1)
    }
}

/// A character's code with ASCII capitals made small.
pub open spec fn ascii_lower(c: char) -> u32 {
    if 0x41 <= (c as u32) <= 0x5a {
        (c as u32 + 0x20) as u32
    } else {
        c as u32
    }
}

pub open spec fn ascii_eq_ignore_case(a: Seq<char>, b: Seq<char>) -> bool {
    a.len() == b.len() && forall|i: int| 0 <= i < a.len() ==> ascii_lower(#[trigger] a[i]) == ascii_lower(b[i])
}

/// Compares two strings, ignoring the case of ASCII letters.
pub fn eq_ignore_ascii_case(a: &str, b: &str) -> (r: bool)
    ensures
        r == ascii_eq_ignore_case(a@, b@),
{
    let n = a.unicode_len();
    if n != b.unicode_len() {
        return false;
    }
    let mut i: usize = 0;
    while i < n
        invariant
            n == a@.len(),
            n == b@.len(),
            i <= n,
            forall|j: int| 0 <= j < i ==> ascii_lower(#[trigger] a@[j]) == ascii_lower(b@[j]),
        decreases n - i,
    {
        let p = a.get_char(i) as u32;
        let q = b.get_char(i) as u32;
        let lp = if 0x41 <= p && p <= 0x5a { p + 0x20 } else { p };
        let lq = if 0x41 <= q && q <= 0x5a { q + 0x20 } else { q };
        if lp != lq {
            return false;
        }
        i += 1;
    }
    true
}

/// A 16550-style UART: data register at the base, line status register five
/// registers further on, registers `1 << reg_shift` bytes apart.
pub struct NS16550Output {
    pub compatible: String,
    pub is_32: bool,
    pub data_reg: u64,
    pub flag_reg: u64,
}

impl NS16550Output {
    /// A UART with the given register width (4 for 32-bit registers) and
    /// spacing.
    pub fn from_mmio(compatible: &str, mmio_base: u64, reg_io: u32, reg_shift: u32) -> (r: NS16550Output)
        requires
            reg_shift < 32,
            mmio_base + (5u64 << reg_shift) <= u64::MAX,
        ensures
            r.compatible@ == compatible@,
            r.is_32 == (reg_io == 4),
            r.data_reg == mmio_base,
            r.flag_reg == mmio_base + (5u64 << reg_shift),
    {
        NS16550Output {
            compatible: compatible.to_owned(),
            is_32: reg_io == 4,
            data_reg: mmio_base,
            flag_reg: mmio_base + (5u64 << reg_shift as u64),
        }
    }

    /// A UART for a device-tree `compatible` value: the Broadcom auxiliary
    /// UART has registers sixteen bytes apart, the DesignWare one takes its
    /// `reg-io-width` and `reg-shift` properties, others have 8-bit
    /// registers two bytes apart.
    pub fn new(compatible: String, mmio_base: u64, dw_reg_io: u32, dw_reg_shift: u32) -> (r: NS16550Output)
        requires
            dw_reg_shift < 32,
            mmio_base + (5u64 << ns16550_layout(compatible@, dw_reg_io, dw_reg_shift).1) <= u64::MAX,
        ensures
            r.compatible@ == compatible@,
            r.is_32 == (ns16550_layout(compatible@, dw_reg_io, dw_reg_shift).0 == 4),
            r.data_reg == mmio_base,
            r.flag_reg == mmio_base + (5u64 << ns16550_layout(compatible@, dw_reg_io, dw_reg_shift).1),
    {
        let s = compatible.as_str();
        let (reg_io, reg_shift): (u32, u32) = if eq_ignore_ascii_case(s, BROADCOM_BCM2835) {
            (1, 4)
        } else if eq_ignore_ascii_case(s, DESIGNWARE) {
            (dw_reg_io, dw_reg_shift)
        } else {
            (1, 1)
        };
        NS16550Output {
            compatible,
            is_32: reg_io == 4,
            data_reg: mmio_base,
            flag_reg: mmio_base + (5u64 << reg_shift as u64),
        }
    }

    /// The first entry of a `compatible` list that this driver serves.
    pub fn is_compatible(candidates: &Vec<String>) -> (r: Option<String>)
        ensures
            r matches Some(s) ==> first_known(texts(candidates@), seq![NS16550@, BROADCOM_BCM2835@, DESIGNWARE@], 0) == Some(s@),
            r is None ==> first_known(texts(candidates@), seq![NS16550@, BROADCOM_BCM2835@, DESIGNWARE@], 0) is None,
    {
        let mut names: Vec<String> = Vec::new();
        names.push(NS16550.to_owned());
        names.push(BROADCOM_BCM2835.to_owned());
        names.push(DESIGNWARE.to_owned());
        assert(texts(names@) =~= seq![NS16550@, BROADCOM_BCM2835@, DESIGNWARE@]);
        first_compatible(candidates, &names)
    }
}

impl TTY for NS16550Output {
    /// A UART prints at once and holds nothing.
    fn get_unprinted(&self) -> String {
        String::new()
    }
}

} // verus!
