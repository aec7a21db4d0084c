use vstd::prelude::*;
use vstd::string::StringExecFns;

verus! {

/// The two sets of flags that a drawable carries.
#[derive(Clone, Copy, Debug, PartialEq, Eq, Structural)]
pub enum FlagKind {
    /// What never changes: how the drawable blends and how it is masked.
    Constant,
    /// What the last update changed.
    Dynamic,
}

/// The base in which a raw value is written out.
#[derive(Clone, Copy, Debug, PartialEq, Eq, Structural)]
pub enum Radix {
    Decimal,
    Hex,
    Binary,
}

/// The constant flags of a drawable, as the solver hands them out.
#[derive(Clone, Copy, Debug, PartialEq, Eq, Structural)]
pub struct ConstantFlags {
    pub bits: u8,
}

/// The dynamic flags of a drawable, as the solver hands them out.
#[derive(Clone, Copy, Debug, PartialEq, Eq, Structural)]
pub struct DynamicFlags {
    pub bits: u8,
}

/// Whether the bit at `position`, counted from the lowest, is set.
pub open spec fn bit_set(raw: u8, position: nat) -> bool {
    position < 8 && raw & (1u8 << (position as u8)) != 0
}

/// The bits below `n`, all set.
pub open spec fn mask_below(n: nat) -> u8 {
    if n >= 8 {
        0xffu8
    } else {
        !(0xffu8 << (n as u8))
    }
}

/// The positions below `n` at which a bit is set, lowest first.
pub open spec fn positions_below(raw: u8, n: nat) -> Seq<u8>
    decreases n,
{
    if n == 0 {
        Seq::empty()
    } else {
        let rest = positions_below(raw, (n - 1) as nat);
        if bit_set(raw, (n - 1) as nat) {
            rest.push((n - 1) as u8)
        } else {
            rest
        }
    }
}

/// The value with a bit set at each of the positions, and nowhere else.
/// A position of 8 or more stands for no bit.
pub open spec fn bits_of(positions: Seq<u8>) -> u8
    decreases positions.len(),
{
    if positions.len() == 0 {
        0u8
    } else if positions.last() < 8 {
        bits_of(positions.drop_last()) | (1u8 << positions.last())
    } else {
        bits_of(positions.drop_last())
    }
}

impl FlagKind {
    /// How many bits, from the lowest up, have a name.
    pub open spec fn named_bits(self) -> nat {
        match self {
            FlagKind::Constant => 4,
            FlagKind::Dynamic => 6,
        }
    }

    /// The name of the flag at `position`.
    pub open spec fn name(self, position: nat) -> Seq<char> {
        match self {
            FlagKind::Constant => if position == 0 {
                "BLEND_ADDITIVE"@
            } else if position == 1 {
                "BLEND_MULTIPLICATIVE"@
            } else if position == 2 {
                "IS_DOUBLE_SIDED"@
            } else {
                "IS_INVERTED_MASK"@
            },
            FlagKind::Dynamic => if position == 0 {
                "IS_VISIBLE"@
            } else if position == 1 {
                "VISIBILITY_CHANGED"@
            } else if position == 2 {
                "OPACITY_CHANGED"@
            } else if position == 3 {
                "DRAW_ORDER_CHANGED"@
            } else if position == 4 {
                "RENDER_ORDER_CHANGED"@
            } else {
                "VERTEX_POSITIONS_CHANGED"@
            },
        }
    }

    pub fn width(self) -> (n: u8)
        ensures
            n == self.named_bits(),
    {
        match self {
            FlagKind::Constant => 4,
            FlagKind::Dynamic => 6,
        }
    }

    /// The name of the flag at `position`, where that bit has one.
    pub fn flag_name(self, position: u8) -> (r: Option<&'static str>)
        ensures
            match r {
                Some(name) => position < self.named_bits() && name@ == self.name(position as nat),
                None => position >= self.named_bits(),
            },
    {
        match self {
            FlagKind::Constant => match position {
                0 => Some("BLEND_ADDITIVE"),
                1 => Some("BLEND_MULTIPLICATIVE"),
                2 => Some("IS_DOUBLE_SIDED"),
                3 => Some("IS_INVERTED_MASK"),
                _ => None,
            },
            FlagKind::Dynamic => match position {
                0 => Some("IS_VISIBLE"),
                1 => Some("VISIBILITY_CHANGED"),
                2 => Some("OPACITY_CHANGED"),
                3 => Some("DRAW_ORDER_CHANGED"),
                4 => Some("RENDER_ORDER_CHANGED"),
                5 => Some("VERTEX_POSITIONS_CHANGED"),
                _ => None,
            },
        }
    }
}

/// The named flags that a raw value sets, as their positions, lowest first.
pub open spec fn named_flags(kind: FlagKind, raw: u8) -> Seq<u8> {
    positions_below(raw, kind.named_bits())
}

/// The bits of a raw value that have no name.
pub open spec fn unnamed_bits(kind: FlagKind, raw: u8) -> u8 {
    raw & !mask_below(kind.named_bits())
}

/// Whether the bit at `position` is set.
pub fn is_set(raw: u8, position: u8) -> (r: bool)
    ensures
        r == bit_set(raw, position as nat),
{
    position < 8 && raw & (1u8 << position) != 0
}

/// The positions below `n` at which `raw` has a bit set, lowest first.
fn positions(raw: u8, n: u8) -> (r: Vec<u8>)
    requires
        n <= 8,
    ensures
        r@ == positions_below(raw, n as nat),
{
    let mut out: Vec<u8> = Vec::new();
    let mut p: u8 = 0;
    while p < n
        invariant
            p <= n <= 8,
            out@ == positions_below(raw, p as nat),
        decreases n - p,
    {
        if is_set(raw, p) {
            out.push(p);
        }
        p += 1;
    }
    out
}

/// Every bit that a raw value sets, as its position, lowest first.
pub fn decode_raw_bits(raw: u8) -> (r: Vec<u8>)
    ensures
        r@ == positions_below(raw, 8),
{
    positions(raw, 8)
}

/// The named flags that a raw value sets, as their positions, lowest first.
/// The raw value is left as it is; bits without a name are passed over.
pub fn decode(kind: FlagKind, raw: u8) -> (r: Vec<u8>)
    ensures
        r@ == named_flags(kind, raw),
{
    positions(raw, kind.width())
}

/// The raw value that sets the bits at the positions given.
pub fn encode(positions: &Vec<u8>) -> (raw: u8)
    ensures
        raw == bits_of(positions@),
{
    let mut raw: u8 = 0;
    let mut i: usize = 0;
    while i < positions.len()
        invariant
            i <= positions.len(),
            raw == bits_of(positions@.take(i as int)),
        decreases positions.len() - i,
    {
        assert(positions@.take(i + 1).drop_last() =~= positions@.take(i as int));
        assert(positions@.take(i + 1).last() == positions@[i as int]);
        if positions[i] < 8 {
            raw = raw | (1u8 << positions[i]);
        }
        i += 1;
    }
    assert(positions@.take(positions.len() as int) =~= positions@);
    raw
}

/// The bits of a raw value that have no name.
pub fn unnamed(kind: FlagKind, raw: u8) -> (r: u8)
    ensures
        r == unnamed_bits(kind, raw),
{
    match kind {
        FlagKind::Constant => raw & !(!(0xffu8 << 4u8)),
        FlagKind::Dynamic => raw & !(!(0xffu8 << 6u8)),
    }
}

proof fn lemma_mask_step(raw: u8, k: u8, next: u8)
    by (bit_vector)
    requires
        k < 8,
        next == k + 1,
    ensures
        raw & (1u8 << k) != 0 ==> (raw & !(0xffu8 << k)) | (1u8 << k) == raw & (if next >= 8 {
            0xffu8
        } else {
            !(0xffu8 << next)
        }),
        raw & (1u8 << k) == 0 ==> raw & !(0xffu8 << k) == raw & (if next >= 8 {
            0xffu8
        } else {
            !(0xffu8 << next)
        }),
{
}

proof fn lemma_mask_ends(raw: u8)
    by (bit_vector)
    ensures
        raw & !(0xffu8 << 0u8) == 0,
        raw & 0xffu8 == raw,
{
}

/// Setting the bits at the positions decoded below `n` gives back the bits
/// below `n`.
pub proof fn lemma_positions_round_trip(raw: u8, n: nat)
    requires
        n <= 8,
    ensures
        bits_of(positions_below(raw, n)) == raw & mask_below(n),
    decreases n,
{
    if n == 0 {
        lemma_mask_ends(raw);
    } else {
        let k = (n - 1) as nat;
        let rest = positions_below(raw, k);
        lemma_positions_round_trip(raw, k);
        lemma_mask_step(raw, k as u8, n as u8);
        if bit_set(raw, k) {
            let all = rest.push(k as u8);
            assert(all.drop_last() =~= rest);
            assert(all.last() == k as u8);
        }
    }
}

/// A position is decoded below `n` exactly where it is below `n` and its bit
/// is set.
pub proof fn lemma_positions_exact(raw: u8, n: nat, position: u8)
    requires
        n <= 8,
    ensures
        positions_below(raw, n).contains(position) <==> position < n && bit_set(
            raw,
            position as nat,
        ),
    decreases n,
{
    if n > 0 {
        let k = (n - 1) as nat;
        let rest = positions_below(raw, k);
        lemma_positions_exact(raw, k, position);
        if bit_set(raw, k) {
            let all = rest.push(k as u8);
            assert(all[all.len() - 1] == k as u8);
            assert forall|i: int| 0 <= i < rest.len() implies all[i] == rest[i] by {}
            if rest.contains(position) {
                let i = choose|i: int| 0 <= i < rest.len() && rest[i] == position;
                assert(all[i] == position);
            }
        }
    }
}

/// Encoding what `decode_raw_bits` hands out gives back the raw value,
/// whatever it is.
pub proof fn lemma_raw_round_trip(raw: u8)
    ensures
        bits_of(positions_below(raw, 8)) == raw,
{
    lemma_positions_round_trip(raw, 8);
    lemma_mask_ends(raw);
}

/// The named flags decoded from a raw value are those of the table whose bit
/// the value sets, and encoding them gives back the named bits of the value.
pub proof fn lemma_named_flags(kind: FlagKind, raw: u8, position: u8)
    ensures
        named_flags(kind, raw).contains(position) <==> position < kind.named_bits() && bit_set(
            raw,
            position as nat,
        ),
        bits_of(named_flags(kind, raw)) == raw & mask_below(kind.named_bits()),
{
    lemma_positions_exact(raw, kind.named_bits(), position);
    lemma_positions_round_trip(raw, kind.named_bits());
}

/// The character that stands for a digit, up to base sixteen.
pub open spec fn digit(d: nat) -> char {
    if d == 0 {
        '0'
    } else if d == 1 {
        '1'
    } else if d == 2 {
        '2'
    } else if d == 3 {
        '3'
    } else if d == 4 {
        '4'
    } else if d == 5 {
        '5'
    } else if d == 6 {
        '6'
    } else if d == 7 {
        '7'
    } else if d == 8 {
        '8'
    } else if d == 9 {
        '9'
    } else if d == 10 {
        'a'
    } else if d == 11 {
        'b'
    } else if d == 12 {
        'c'
    } else if d == 13 {
        'd'
    } else if d == 14 {
        'e'
    } else {
        'f'
    }
}

/// A number written in a base, most significant digit first, with no
/// leading zero.
pub open spec fn digits(n: nat, base: nat) -> Seq<char>
    decreases n,
{
    if base < 2 || n < base {
        seq![digit(n)]
    } else {
        proof {
            lemma_quotient_smaller(n, base);
        }
        digits(n / base, base).push(digit(n % base))
    }
}

/// Dividing a number by two or more makes it smaller, unless it is zero.
pub proof fn lemma_quotient_smaller(n: nat, base: nat)
    requires
        base >= 2,
        n > 0,
    ensures
        n / base < n,
{
    assert(n / base < n) by (nonlinear_arith)
        requires
            base >= 2,
            n > 0,
    ;
}

/// A raw value written out: in decimal as it is, in hex after `0x`, in binary
/// after `0b`.
pub open spec fn rendered(raw: u8, radix: Radix) -> Seq<char> {
    match radix {
        Radix::Decimal => digits(raw as nat, 10),
        Radix::Hex => "0x"@ + digits(raw as nat, 16),
        Radix::Binary => "0b"@ + digits(raw as nat, 2),
    }
}

/// The parts, with ` | ` between them.
pub open spec fn joined(parts: Seq<Seq<char>>) -> Seq<char>
    decreases parts.len(),
{
    if parts.len() == 0 {
        Seq::empty()
    } else if parts.len() == 1 {
        parts[0]
    } else {
        joined(parts.drop_last()) + " | "@ + parts.last()
    }
}

/// The names of the flags of `kind` that `raw` sets below position `n`,
/// lowest first.
pub open spec fn names_below(kind: FlagKind, raw: u8, n: nat) -> Seq<Seq<char>>
    decreases n,
{
    if n == 0 {
        Seq::empty()
    } else {
        let rest = names_below(kind, raw, (n - 1) as nat);
        if bit_set(raw, (n - 1) as nat) {
            rest.push(kind.name((n - 1) as nat))
        } else {
            rest
        }
    }
}

/// What a raw value is made of: the names of its named flags, then, where it
/// sets bits without a name, those bits in hex.
pub open spec fn name_parts(kind: FlagKind, raw: u8) -> Seq<Seq<char>> {
    let named = names_below(kind, raw, kind.named_bits());
    if unnamed_bits(kind, raw) == 0 {
        named
    } else {
        named.push(rendered(unnamed_bits(kind, raw), Radix::Hex))
    }
}

/// A raw value by the names of its flags: its parts with ` | ` between them,
/// or `(empty)` where no bit is set.
pub open spec fn names_text(kind: FlagKind, raw: u8) -> Seq<char> {
    let parts = name_parts(kind, raw);
    if parts.len() == 0 {
        "(empty)"@
    } else {
        joined(parts)
    }
}

/// One part more is joined on after a separator, unless it is the first.
pub proof fn lemma_joined_push(parts: Seq<Seq<char>>, part: Seq<char>)
    ensures
        joined(parts.push(part)) == if parts.len() == 0 {
            part
        } else {
            joined(parts) + " | "@ + part
        },
{
    let all = parts.push(part);
    assert(all.drop_last() =~= parts);
    assert(all.last() == part);
}

fn digit_text(d: u8) -> (r: &'static str)
    requires
        d < 16,
    ensures
        r@ == seq![digit(d as nat)],
{
    let r = match d {
        0 => {
            proof {
                reveal_strlit("0");
            }
            "0"
        },
        1 => {
            proof {
                reveal_strlit("1");
            }
            "1"
        },
        2 => {
            proof {
                reveal_strlit("2");
            }
            "2"
        },
        3 => {
            proof {
                reveal_strlit("3");
            }
            "3"
        },
        4 => {
            proof {
                reveal_strlit("4");
            }
            "4"
        },
        5 => {
            proof {
                reveal_strlit("5");
            }
            "5"
        },
        6 => {
            proof {
                reveal_strlit("6");
            }
            "6"
        },
        7 => {
            proof {
                reveal_strlit("7");
            }
            "7"
        },
        8 => {
            proof {
                reveal_strlit("8");
            }
            "8"
        },
        9 => {
            proof {
                reveal_strlit("9");
            }
            "9"
        },
        10 => {
            proof {
                reveal_strlit("a");
            }
            "a"
        },
        11 => {
            proof {
                reveal_strlit("b");
            }
            "b"
        },
        12 => {
            proof {
                reveal_strlit("c");
            }
            "c"
        },
        13 => {
            proof {
                reveal_strlit("d");
            }
            "d"
        },
        14 => {
            proof {
                reveal_strlit("e");
            }
            "e"
        },
        _ => {
            proof {
                reveal_strlit("f");
            }
            "f"
        },
    };
    assert(r@ =~= seq![digit(d as nat)]);
    r
}

fn push_digits(out: &mut String, n: u8, base: u8)
    requires
        2 <= base <= 16,
    ensures
        final(out)@ == old(out)@ + digits(n as nat, base as nat),
    decreases n,
{
    if n >= base {
        proof {
            lemma_quotient_smaller(n as nat, base as nat);
        }
        push_digits(out, n / base, base);
    }
    out.append(digit_text(n % base));
    proof {
        let last = digit((n % base) as nat);
        if n >= base {
            let front = digits((n / base) as nat, base as nat);
            assert(digits(n as nat, base as nat) == front.push(last));
            assert(out@ =~= old(out)@ + front.push(last));
        } else {
            assert(n % base == n) by (nonlinear_arith)
                requires
                    0 <= n < base,
            ;
            assert(digits(n as nat, base as nat) == seq![last]);
            assert(out@ =~= old(out)@ + seq![last]);
        }
    }
}

/// Writes a raw value out in the base asked for.
pub fn format(raw: u8, radix: Radix) -> (r: String)
    ensures
        r@ == rendered(raw, radix),
{
    match radix {
        Radix::Decimal => {
            let mut out = String::new();
            push_digits(&mut out, raw, 10);
            assert(out@ =~= rendered(raw, radix));
            out
        },
        Radix::Hex => {
            let mut out = String::from_str("0x");
            push_digits(&mut out, raw, 16);
            out
        },
        Radix::Binary => {
            let mut out = String::from_str("0b");
            push_digits(&mut out, raw, 2);
            out
        },
    }
}

/// Writes a raw value out by the names of its flags.
pub fn names(kind: FlagKind, raw: u8) -> (r: String)
    ensures
        r@ == names_text(kind, raw),
{
    let mut out = String::new();
    let mut any = false;
    let n = kind.width();
    let mut p: u8 = 0;
    while p < n
        invariant
            p <= n,
            n == kind.named_bits(),
            out@ == joined(names_below(kind, raw, p as nat)),
            any == (names_below(kind, raw, p as nat).len() > 0),
        decreases n - p,
    {
        if is_set(raw, p) {
            proof {
                lemma_joined_push(names_below(kind, raw, p as nat), kind.name(p as nat));
            }
            if any {
                out.append(" | ");
            }
            match kind.flag_name(p) {
                Some(name) => {
                    out.append(name);
                },
                None => {},
            }
            any = true;
            assert(out@ =~= joined(names_below(kind, raw, (p + 1) as nat)));
        }
        p += 1;
    }
    let rest = unnamed(kind, raw);
    if rest != 0 {
        proof {
            lemma_joined_push(
                names_below(kind, raw, kind.named_bits()),
                rendered(rest, Radix::Hex),
            );
        }
        if any {
            out.append(" | ");
        }
        let text = format(rest, Radix::Hex);
        out.append(text.as_str());
        any = true;
        assert(out@ =~= joined(name_parts(kind, raw)));
    }
    if !any {
        return String::from_str("(empty)");
    }
    out
}

impl ConstantFlags {
    pub fn from_bits(bits: u8) -> (r: ConstantFlags)
        ensures
            r.bits == bits,
    {
        ConstantFlags { bits }
    }

    pub fn bits(self) -> (r: u8)
        ensures
            r == self.bits,
    {
        self.bits
    }

    /// The named flags that are set, as their positions, lowest first.
    pub fn flags(self) -> (r: Vec<u8>)
        ensures
            r@ == named_flags(FlagKind::Constant, self.bits),
    {
        decode(FlagKind::Constant, self.bits)
    }

    /// Whether the named flag at `position` is set.
    pub fn contains(self, position: u8) -> (r: bool)
        ensures
            r == (position < FlagKind::Constant.named_bits() &&
                bit_set(self.bits, position as nat)),
    {
        position < FlagKind::Constant.width() && is_set(self.bits, position)
    }

    /// The flags by their names.
    pub fn names(self) -> (r: String)
        ensures
            r@ == names_text(FlagKind::Constant, self.bits),
    {
        names(FlagKind::Constant, self.bits)
    }

    /// The raw value, written out in the base asked for.
    pub fn format(self, radix: Radix) -> (r: String)
        ensures
            r@ == rendered(self.bits, radix),
    {
        format(self.bits, radix)
    }
}

impl DynamicFlags {
    pub fn from_bits(bits: u8) -> (r: DynamicFlags)
        ensures
            r.bits == bits,
    {
        DynamicFlags { bits }
    }

    pub fn bits(self) -> (r: u8)
        ensures
            r == self.bits,
    {
        self.bits
    }

    /// The named flags that are set, as their positions, lowest first.
    pub fn flags(self) -> (r: Vec<u8>)
        ensures
            r@ == named_flags(FlagKind::Dynamic, self.bits),
    {
        decode(FlagKind::Dynamic, self.bits)
    }

    /// Whether the named flag at `position` is set.
    pub fn contains(self, position: u8) -> (r: bool)
        ensures
            r == (position < FlagKind::Dynamic.named_bits() && bit_set(self.bits, position as nat)),
    {
        position < FlagKind::Dynamic.width() && is_set(self.bits, position)
    }

    /// The flags by their names.
    pub fn names(self) -> (r: String)
        ensures
            r@ == names_text(FlagKind::Dynamic, self.bits),
    {
        names(FlagKind::Dynamic, self.bits)
    }

    /// The raw value, written out in the base asked for.
    pub fn format(self, radix: Radix) -> (r: String)
        ensures
            r@ == rendered(self.bits, radix),
    {
        format(self.bits, radix)
    }
}

} // verus!
